# windows-erg

Ergonomic building blocks for Windows system programming — processes, the
registry, the event log, ETW, named pipes, raw file reads, proxies, process
mitigations and desktop windows — written in Verus. The functions in `src/`
carry `requires`/`ensures` contracts that Verus proves, except a handful of
trusted wrappers around standard-library and `quick-xml` calls (marked
`#[verifier::external_body]`), whose contracts Verus takes as given.

The library holds what can be computed from plain values: the parsers of the
binary and textual formats Windows hands back (event XML, TDH schema and map
blocks, ETW payloads, PEB blocks, environment blocks, retrieval pointers,
pipe directory records, registry value data), the builders and validators of
every request, part of the decisions between system calls (wait results,
filtering of fetched batches, raw read planning and accounting, the steps of
starting a trace session, the order and retries of mitigation calls, proxy
lookups), and the structured errors. The system calls themselves, and the
loops that interleave them with waiting, stay with the caller. Laws that span functions are stated as public proof
functions, for example:

- registry value data read back gives what was written (`registry::values`),
- UTF-16 decoding undoes encoding (`desktop::lemma_utf16_round_trip`),
- enabling a mitigation twice is enabling it once (`mitigation`),
- a parsed proxy server list, environment block or device table holds each
  key once, and lookups after an insert see it (`proxy`, `process::peb`,
  `process::device`, `pairs`).

Layout:

- `src/` — the verified library (crate `windows_erg`).
- `tests/` — tests run against the compiled library.
- `app/` — the unverified glue: serde deserialization of rendered events into
  caller types, and `Display`/`std::error::Error` for the error type.
