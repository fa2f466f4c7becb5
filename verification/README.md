# axvirtio

VirtIO MMIO devices for a hypervisor — block, console and network — with
their register files, virtqueues and request processing verified with Verus.

## Layout

- `src/` — the verified library.
  - `memory.rs`, `transport.rs`, `flags.rs`, `regs.rs`, `config.rs`: guest
    memory as a map from addresses to bytes, MMIO accesses, and the common
    VirtIO MMIO register file.
  - `queue/`: descriptor table, available and used rings, and the virtqueue
    that drives them.
  - `block/`: block requests, the storage backends, a one-sector write-back
    cache, the model of queue processing (`processing.rs`) and the MMIO block
    device.
  - `console/`: the console configuration, backends, the terminal state of a
    host console, and the two console devices.
  - `net/`: packets, the network configuration, backends and the MMIO
    network device.
- `tests/`: tests of the library.
- `app/`: the host side, outside verification: guest memory through the
  hypervisor's address space, the host terminal, a disk image in a host
  file, a VirtIO block device of the host, error codes, and the device
  objects the hypervisor's device manager dispatches to.

Contracts are stated over mathematical models (`Seq`, `Map`, register-file
views). Guest memory and a disk are modelled by each implementation's own
map or sequence of bytes (`GuestMemoryAccess::mem`, `BlockBackend::contents`):
the implementations in `src/` define theirs and meet the traits' contracts.
The implementations in `app/` (the hypervisor's address space, a host file,
a host block device) keep the default, an unspecified function of the
implementation's value; they change memory or disk behind an unchanged
handle, so they do not meet those contracts, and what the library proves
says nothing of the bytes they reach. Where a backend behaves as it likes (errors, how many bytes it
takes), a contract states what holds of every outcome. Backend calls are
stated through relations each backend may define (`spec_write_result`,
`spec_read_result`, `spec_flush_result`), which by default allow any
outcome: the devices state, call by call, what they hand to the backend and
what they do with each outcome (the buffers sent to a console; the
sector and size asked of a disk; the bytes a read copies into guest memory,
`BlockRequest::complete_read`). What a backend does with the bytes is its
own.

The host-terminal console backend does terminal I/O and lives in `app/`;
a console device built by the library alone gets the socket backend. A disk
on an NVMe controller, and the PCI scan that finds it, are not provided:
they need the platform's hardware layer (`axhal`).
