//! The service's tools: file metadata, OCR and the vision API.
pub mod metadata;
pub mod ocr;
pub mod vision;
