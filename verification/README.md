# scalable_cli

A verified library for a broker command line. It holds:

- the checks on request inputs,
- the GraphQL variables,
- the reshaping of the broker's answers into the command's results,
- the text renderings,
- the trade compliance decisions,
- the DPoP proofs,
- the classification of errors into machine codes.

Each public function states its result in `requires` / `ensures` over spec functions, and Verus proves it.

- `src/`: the library, verified by Verus. Calls into outside crates (serde_json, sha2, base64, url, p256, rand, chrono) go through small trusted wrappers, each with a doc comment that says what its contract claims.
- `tests/`: the tests, run against the compiled library.
- `app/`: the outer layer. It holds HTTP, key files, the command drivers that send the requests the library builds, the printed envelopes, and the trade arithmetic that works on floating-point numbers.
