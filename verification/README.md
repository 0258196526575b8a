# z-tenant-onboarding

Sanctions, adverse-media and PEP screening of a counterparty by a contract that
never holds the counterparty's personal data. The request to the screening
provider carries `{{profile.<field>}}` markers, which the host fills in when it
dispatches the request; what comes back is a decision, a hit count and an audit
record.

- `src/policy.rs`: the rules (references, check types, thresholds, limits, the
  search body, the provider's response, map names, scan bounds).
- `src/screening.rs`: `run-check`, `get-check` and `list-checks` as chains of
  stages, between which the host acts.
- `src/laws.rs`: what holds of the contract as a whole, as proof functions.
- `src/marker.rs`: profile markers, and texts that hold nothing else.
- `src/json.rs`, `src/codec.rs`, `src/text.rs`: JSON documents, encodings and text.
- `app/`: the exports run against a host, and the JSON shapes of arguments and
  records.

Everything in `src/` is verified by Verus. Taken on trust are the calls into
`serde_json` and `hex`, and UTF-8 decoding and quoting by the standard library:
the functions marked `external_body` in `json.rs` and `codec.rs`, each with what is
claimed of it.
