# berthos

A Berthos node is a parked computer-session that an agent can lease, never the
host desktop. This crate holds the rules of such a node and of the clients that
talk to it, written in Verus and proved: what every function returns is stated
in its `ensures`, and what holds of the library as a whole is stated in public
proof functions whose names begin with `law_`.

## Layout

| Module | What it decides |
| --- | --- |
| `doctor`, `eligibility`, `attestation` | the fail-closed eligibility report |
| `probes`, `config`, `addr` | what a node observes and advertises |
| `guest`, `action` | how a guest is started, inspected and driven |
| `pairing` | codes, bearer tokens and capabilities |
| `session`, `documents`, `clock` | quotes, leases and receipts |
| `http`, `view` | the node behind its HTTP API and its loopback viewer |
| `mcp`, `rpc`, `encoding` | the MCP tools and their JSON-RPC framing |
| `cli` | what the `berth` command accepts and prints |
| `json`, `text`, `decimal` | documents, text and numbers |

The library opens no socket and runs no process. `app/` does that: it hands
plain values in and carries out what comes back. It is the `berth` command with
its Axum server, its Docker runtime and its stdio loop.

## What is trusted

Calls into `serde_json`, `sha2`, `hex`, `rand`, `uuid`, `time`, `base64` and two
functions of `std` stand behind small functions whose contracts are believed;
each says so in its doc comment. Everything else is proved from them.
