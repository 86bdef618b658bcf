# llama_chat

The verified core of a local LLM chat web backend, written in Verus.

- `src/` is the library. Every function there is verified against its
  `requires`/`ensures`: request routing and the token gate, tool-call
  recognition and JSON repair, tool, browser, web-search and MCP decisions
  and replies, conversation storage and export, model-file metadata, the
  streaming protocols of the providers, and text extraction from document
  files. Calls into outside crates (`serde_json`, `regex`, `htmd`,
  `html2text`, `dom_smoothie`, `zip`, `quick-xml`, `csv`, `mailparse`,
  `sha1`, `base64`, `urlencoding`) go through small trusted wrappers whose
  contracts say what the crate returns.
- `app/` is the runtime around it: HTTP plumbing, file and process I/O, the
  browser session, the Codex CLI, GGUF file reading, spreadsheets, zip
  listings and the PDF and RTF readers (which can panic, so they are called
  where a panic can be caught).
- `tests/` runs the library with the real outside crates linked.
