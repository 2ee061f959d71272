# A verified capability microkernel library

A capability-based microkernel for RISC-V (Sv48), written as a Verus library
whose behaviour is stated in contracts and proved.

- `src/` is the verified library:
  - `err_kind`, `cap_type`, `inv_labels`: the wire codes of errors,
    capability kinds and invocation labels.
  - `capability` (with `cnode`, `untyped`, `objects`, `irq`, `traverse`):
    the 16-byte capability encoding, resolution of capability pointers
    through nodes, retyping of untyped memory, and the walk that prints a
    node tree.
  - `object`: slots and the derivation list (`cnode`), page tables and their
    walk (`page_table`), thread control blocks (`tcb`).
  - `syscall`: the system-call and invocation decoder; `trap`: trap causes
    and what the kernel does about each; `scheduler`; `irq`.
  - `root_server`: boot-time allocation, mapping the root server's program
    with the page tables it needs, and handing the rest of memory over as
    untyped regions.
  - `vm`: the kernel's own address space, set up once at boot.
  - `ready`: tests, made before a trap or system call is handled, that
    the resolutions it makes end and its arithmetic fits machine words.
  - `user`: the user-side library that builds system-call requests and
    follows the kernel's replies.
- Memory is modelled as maps: slot memory maps a slot's address to its
  entry, page-table memory maps an entry's address to the entry.
- `app/` holds what runs around the library on the machine: the trap loop,
  console output, loading program bytes, the system-call instruction, and
  the root server program.
- `tests/` runs the library on concrete values.
