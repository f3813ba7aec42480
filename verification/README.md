# media_mcp

A server that lets language models without image input "read" media files:
it reports a file's metadata, the text OCR finds in an image, and, when OCR
is not enough, a description from a vision API.

- `src/` is the verified library (Verus): configuration and its defaults, file
  metadata, the OCR input check, executable search, engine registry and the
  reading of Tesseract/PaddleOCR output, the vision request and retry policy,
  and the decisions of the `read_media` and `list_supported_types` tools.
- `app/` is the program around it: reading the configuration file, running
  OCR processes, calling the vision API over HTTP, scaling large images, and
  serving the tools over MCP stdio.
- `tests/` exercises the library on concrete values.

Besides the settings of `vision_api`, `ocr` and `blocked_extensions`, the
configuration may hold `read_media.vision_default`: the vision mode (`auto`,
`skip` or `always`) of a request that names none; it is `auto` when unset.
With an empty `vision_api.api_key` no request is sent, and a description
asked for is answered with a warning that says the key is missing.
