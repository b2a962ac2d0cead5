# authust

The decision logic of an authentication server, verified with Verus.

- `src/` is the verified library: CSRF token masking and the CSRF check of a
  request, flow execution (the checks that guard a flow, what a submission to
  each stage does, running through the stages that need no input, the data
  sent to the client), the storage of flows, stages, policies and prompts,
  OAuth authorization (scopes, consent and the errors of the endpoint),
  sessions and roles, and the mapping of errors to responses.
- `tests/` runs the library on concrete values, with the outside crates
  linked.
- `app/` is the edge around the library: conversions from HTTP, UUID, time
  and JSON values, the JSON forms of the library's types, the expression
  engine and the typed field storage of flow executions.

Calls into outside crates (`rand`, `regex`, `url`, `base64`, `argon2`,
`rhai`, `time`) stand in `src/` behind small trusted functions whose
contracts say what the crate documents of them.
