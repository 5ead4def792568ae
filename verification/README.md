# warpinator_lib

A library for the Warpinator file-sharing protocol, written in Verus: the
logic is executable Rust whose behaviour is stated in `requires`/`ensures`
contracts and proved.

## Layout

- `src/` — the verified library.
  - `config/` — protocol timings and features, the user's settings and their
    builders.
  - `server/remote_manager.rs` — the record of peers with their transfers
    and messages, and the events each change announces.
  - `server/authenticator.rs` — the local certificate, and boxing it with the
    group code so that only peers sharing the code can open it.
  - `grpc/registration.rs` — handing out the locked certificate and taking in
    the services that peers register.
  - `server/remote_worker.rs`, `server/connection.rs` — what a peer's worker
    decides: the steps of connecting, its loop, and what it writes into the
    record.
  - `server/discovery.rs`, `server/manual.rs` — peers found by multicast DNS
    or registered by hand.
  - `server/transfers/` — the speed estimate, and the decisions of the
    sending and receiving ends of a transfer.
  - `filesystem/vfs/` — the virtual filesystem that hosts implement, and a
    breadth-first walk over it.
  - `types/` — peers, transfers, messages, and summing up the sources of a
    transfer.
  - `desktop.rs`, `bindings.rs` — the decisions of the desktop application and
    the values that host applications exchange with the library.
  - `text.rs`, `net.rs`, `ids.rs`, `duration.rs`, `proto.rs` — strings,
    addresses, identifiers, spans of time and wire messages as plain values.
- `tests/` — tests on concrete values.
- `app/` — what talks to the machine and the network: address lookups,
  multicast DNS, the local filesystem, clocks, logging, and the copies of
  library types with `Serialize` and error derives.

Outside crates are called through trusted items in `src/`: each is a small
function marked `#[verifier::external_body]` whose `ensures` (where it has
one) the verifier takes on trust, and whose doc comment says what is and is
not claimed of the outside call; results that only the outside crate
computes are named by uninterpreted spec functions.
