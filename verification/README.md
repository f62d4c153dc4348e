# simplellm

Client logic for the SimpleLLM API (EU-hosted, OpenAI-compatible LLM
inference), verified with Verus.

- `src/` is the verified library: choosing a client's key, base URL and
  timeout from its configuration and the environment; the endpoints and how a
  request is addressed and authorised; percent-encoding of key ids; reading
  the message and code of an error response; and splitting a server-sent-event
  stream into chat completion chunks.
- `app/` is the async client around it: it reads the environment, sends the
  requests with `reqwest`, and (de)serialises the JSON bodies with `serde`.
- `tests/` runs the library on concrete values.
