# api_macros

The logic of the `#[api_endpoint]` attribute macro, which exports an actix-web
handler's endpoint contract to TypeScript, written in Verus and proved against
its contracts.

- `src/args.rs` — the attribute's `key = value` argument grammar, over a token model.
- `src/config.rs` — the `APIM_*` configuration from an environment snapshot.
- `src/type_extract.rs` — the query / body / path-parameter / response roles of a
  handler signature, over a model of Rust types.
- `src/route.rs` — the actix route left after stripping scope segments, with its laws.
- `src/lib.rs` — the TypeScript name and the whole expansion plan with its checks.
- `src/text.rs` — character-sequence helpers (split, join, trim, decimals), with
  the trusted wrapper of `String::push`.
- `src/foreign.rs` — the trusted calls into `heck`, `syn` and `str::to_lowercase`.
- `app/` — the token conversions, environment reading, spans and code emission
  around the library.

The expansion plan names the endpoint binding, the API wrapper and their files
and tests; the TypeScript generator that would fill those files is not part of
this crate, so `app/` emits only the test that writes `EndpointSpec.ts`.
