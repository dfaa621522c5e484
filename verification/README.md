# Ruuvi Data Forwarder

Reads newline-delimited JSON telemetry of Ruuvi sensors from the standard input and writes
it to the console, to DuckDB or to a DuckLake.

## Layout

- `src/` is the library, verified with Verus. It holds everything that the forwarder
  decides: which lines and records are accepted, which settings are refused, how records
  are gathered into batches and retried, which SQL is issued in which order, and how a
  shutdown proceeds. It performs no input or output.
- `app/` is the program around it: it reads, writes, waits and talks to DuckDB. Each state
  machine of the library names the next action; the program performs it and reports the
  outcome.
- `tests/` runs the library, against sinks and databases that are kept in memory.

| Module | What it decides |
| --- | --- |
| `dto` | the telemetry record, and how its address is written |
| `source` | the lines of an input, and which of them are telemetry |
| `config`, `pattern` | the settings, their defaults and their faults |
| `pipeline` | batches, deadlines, retries and the shutdown |
| `sink::transaction` | the transaction that writes a batch |
| `sink::worker` | the one connection of the database worker |
| `sink::console`, `sink::duckdb`, `sink::ducklake` | the sinks and their plans |
| `maintenance` | the upkeep of a DuckLake |
| `startup` | the choice of a sink, and what is told of it |

What holds across functions is stated as a proof function whose name begins with `law_`,
beside what it speaks of.

## What is trusted

The contracts of `regex::Regex::is_match`, of `LinesCodec` and `BytesMut` of `tokio_util`,
and of `String::push` are believed as their doc comments state them.
