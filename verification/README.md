# uncanny

Verified core of a robot head that reads a person's mood and reacts with its
eyes, together with the decision logic of a local LLM benchmark.

## Layout

- `src/` — the library, verified with Verus:
  - `hysteresis` — minimum-hold filter; a new value is committed only after
    it has been presented continuously for the hold time.
  - `behavior` — behaviour table (idle, analytical stare, search, mimicry)
    and the eye commands of each mode.
  - `perception` — semantic-update age and the fusion tick clock.
  - `voice`, `types` — the voice port, a recording voice, emotional tints
    and domain errors.
  - `config`, `paths` — benchmark settings: flag > file > default, path
    resolution, configuration and model discovery.
  - `generation`, `summary`, `reporting`, `thermal` — stopping rules and
    per-token records of a generation run, run tallies, the model
    fingerprint, CPU thermal-zone recognition.
  - `text` — case folding, decimal and hexadecimal rendering, byte order.
- `tests/` — tests of the library.
- `app/` — the benchmark program and the pipeline adapters: file system,
  clock, threads, llama.cpp, and the floating-point fusion arithmetic.

Times in the library are nanoseconds on a monotonic clock.
