# alani_kernel

Authority-bearing core of the Alani kernel, written and verified with Verus:
scheduler, memory, syscall dispatch, device mediation, capabilities, audit
handoff, and fault diagnostics.

Each subsystem has a ghost state that its view gives, and each operation says
which state and which result follow from the state before. `Kernel` ties the
subsystems together; `Kernel::handle_syscall` states the result and the next
state of every syscall. Public proof functions named `law_*` state what holds
across operations.

```text
src/
  audit.rs       structured audit events and bounded log
  boot.rs        deterministic initialization phase tracking
  capability.rs  capability sets, handles, derivation, revocation
  device.rs      device descriptors and registry authorization checks
  error.rs       internal errors and stable ABI statuses
  fault.rs       diagnostic fault records and reporter
  lib.rs         kernel, syscall handlers, and laws across subsystems
  memory.rs      memory map, user-buffer validation, shared regions
  ring.rs        contents and numbering of a bounded history
  scheduler.rs   cooperative scheduler and task control blocks
  slots.rs       tables of slots that fill from the start
  syscall.rs     syscall table and dispatcher validation
tests/           runs of the compiled library
```
