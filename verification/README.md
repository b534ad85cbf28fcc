# ere

Verified core of the Ere zkVM toolkit. The library (`src/`, verified with
Verus) decides what the toolkit asks of Docker, Cargo and the zkVM
services, and proves those decisions against their contracts:

- `dockerized`, `ere_dockerized`: the Docker drivers — zkVM catalogue and
  image names, the `docker build` of each image stage, the `docker run` of
  the compiler and server containers, GPU architecture selection, input
  framing;
- `dockerized_server`, `ere_server`, `ere_cli`: input items, proof kinds on
  the wire, server replies, the wait for a healthy server;
- `compile_utils`, `build_utils`, `manifest`: `cargo build` configuration,
  SDK version detection, package names;
- `risc0`, `risczero`, `jolt`, `openvm`, `pico`, `miden`, `nexus`: the
  backends' build plans, input streams, Bento service plans and checks;
- `bindings`: the status codes and checks of the C verifier interface.

`app/` is the unverified I/O around it: running processes, files, the
network.
