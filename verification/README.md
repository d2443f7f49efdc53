# byob_proxy

A proxy between the agent of the Warp terminal and a model of the user's own choice. It takes the
requests that the client would send to its server, puts them to a backend with an OpenAI-style chat
or responses interface, and turns what the backend streams back into the events that the client
expects.

- `src/` is the library, verified with Verus. It decides and computes: configuration, prompts, tool
  schemas, the conversation as a backend sees it, the reading of streamed answers, the events for
  the client, the smaller questions (suggestions, titles, relevant files), the supervision of the
  proxy's process, and the objects of a user without a server. It does no input or output.
- `app/` is the server around it: routes, the HTTP client, the environment, the protobuf messages of
  the client, and the launcher that keeps the server running.
- `tests/` runs the library on concrete values.

What is not proved is marked `#[verifier::external_body]` or `assume_specification` in `src/`: the
calls into `serde_json`, `toml_edit`, `base64`, `uuid`, `chrono` and a few functions of `std`, each
with what is claimed of it.
