# lgn_worker

The verified core of the Lagrange prover worker, written in Verus.

- `src/` is the library. Verus proves every function against its contract,
  except the small wrappers marked `#[verifier::external_body]` that call an
  outside crate or std (hex, decimal and bincode encoding, BLAKE3, number and
  version parsing, UUIDs, the backoff schedule, random bytes): their contracts
  are trusted, not proved, and each doc comment says what is assumed. The
  library covers:
  - configuration checks and parameter URLs (`config`);
  - the registration networks and their contract addresses (`network`);
  - the prover registry and the choice of provers by worker class (`manager`);
  - the worker's side of the gateway protocol: task admission, the
    read-process-reply loop, error tags, worker class, message bounds,
    liveness (`worker`);
  - the download protocol of the public parameters, with checksums and
    retries (`params`);
  - the planners that decide which circuit runs next for preprocessing,
    typed preprocessing and query tasks (`preprocessing`,
    `typed_preprocessing`, `query`), and the task plans of the first prover
    version (`v0`);
  - the Groth16 reply (`groth16`), the dummy provers (`dummy`) and the
    operator registration checks (`avs`).
- `tests/` runs the library on concrete values.
- `app/` is the program around it: command line, logging, configuration files,
  HTTP downloads and the file system.
