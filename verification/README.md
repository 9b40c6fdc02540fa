# rros_net

The networking core of a small RISC-V kernel, written in Verus: the code of
each operation carries a contract, and Verus proves the code against it.

- `src/` is the verified library: socket family, type and option codes;
  IP endpoints and the `sockaddr_in`/`sockaddr_in6`/`sockaddr_un`
  addresses with their text; the table of listened TCP ports and the
  choice of ephemeral ports; the UDP port map; the TCP and UDP socket state
  machines and the socket that system calls act on; the spotting of an
  incoming connection in a received frame; when to poll the interface
  again; the interface's addresses from its configuration; and the ext4
  block-group descriptor. The calls into smoltcp stand
  behind small trusted wrappers in `src/smol.rs`, `src/snoop.rs` and
  `src/iface.rs`.
- `app/` is the kernel-side plumbing that Verus does not see: the smoltcp
  device and interface, the global socket set and tables, the loops that
  wait for blocking operations, and the socket system calls.
- `tests/` runs the library against real smoltcp sockets, including a
  loopback interface.
