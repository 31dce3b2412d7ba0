# gud_gadget

A USB display gadget speaking the GUD protocol, with a DRM presenter and a
viewer daemon behind it. Their decisions are written in Verus and proved
against their contracts; the DRM device itself is driven by the caller.

- `src/` is the verified library: the GUD wire format and its codecs, the
  control-request state machine, bulk OUT reads and exact asynchronous
  requests, LZ4 payloads, copying and scaling frames into framebuffers,
  double-buffered scanout and the choice of routes between logical and
  physical modes, the presenter loop's steps (waiting screen, restart,
  commit plan to route), diagnostic and waiting-screen painting, the
  settings read from the environment, what the viewer daemon tells its
  clients, and a viewer's steps on its connection to the daemon.
- `app/` is the unverified transport around it: FunctionFS endpoints through
  `usb-gadget`, file reads, the device-wide state behind a lock, the JSON
  form of the viewer messages, and the viewer's socket connection.
- `tests/` runs the library on concrete values.

The scanout code drives its display through the `ScanoutBackend` trait,
which implementors provide. Its model (the calls made in order, the buffers
and framebuffers alive, and each buffer's size, pitch, mapping length and
contents) is what the scanout contracts are stated over; an implementation
keeps it as the trait's `ensures` say.

Outside crates are reached from `src/` only through the trusted wrappers in
`buffer.rs` (`bytes`), `lz4.rs` (`lz4`), `clock.rs` and `shadow.rs` (std), each
with a doc comment that says what its contract claims.
