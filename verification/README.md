# deepl

A verified model of a client for the DeepL translation API.

- `src/` (Verus): the requests the client sends (URL, `Authorization` header, form or
  multipart body), the decisions taken on DeepL's answers (status codes, error bodies,
  undecodable bodies), the opening of the download target file as a small state machine,
  the download path, the error texts, and the language and formality codes.
- `app/`: the asynchronous client that performs those requests with `reqwest` and `tokio`,
  reads and writes files, and converts between the library's values and their serde forms.
- `tests/`: tests of the library on concrete values.
