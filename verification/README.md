# s2s

A local speech-to-text and text-to-speech HTTP service. The decisions it makes
are a verified library; the server around them is ordinary Rust.

- `src/` — the library, proved with Verus:
  - `voices` — the Kokoro voice catalogue, the voice → speaker id table and
    the alphabetical voice listing;
  - `speech` — the language of a voice, the plan of a speech request and the
    per-language engine cache;
  - `transcription` — the recognizer check, the audio upload field and the
    reading of the uploaded WAVE file (through `hound`): its format and, for
    integer samples, the samples grouped into frames;
  - `audio` — WAVE formats, and grouping integer samples into frames;
  - `startup` — model installation and whether the server may run;
  - `refusal` — the refusals and their HTTP status and message;
  - `text` — code-point order and equality of texts, sorting.
- `app/` — the server: arguments, downloads, the `sherpa-onnx` engines,
  sample conversion, and the axum routes.
- `tests/` — tests of the library.
