# nt_minimal_template

A minimal WDM driver (ping and echo IOCTLs) and its user-mode client, with the
logic of both written in Verus and proved.

- `src/contract.rs` – IOCTL codes (`ctl_code`), buffer limits, device basename.
- `src/utf16.rs` – UTF-16 encoding as a specification.
- `src/names.rs` – NUL-terminated UTF-16 encoding into fixed buffers (`encode_utf16z`)
  and the counted-string descriptor over them (`to_unicode_string`).
- `src/wire.rs` – little-endian layout of the ping reply.
- `src/irp.rs` – completion of request packets and the create/close and
  device-control dispatch routines, over a model of the packet.
- `src/driver.rs` – the dispatch table, and loading/unloading as steps between
  kernel calls.
- `src/client.rs` – the client's device path, requests and reply checks.
- `src/roundtrip.rs` – properties spanning client and driver.
- `app/` – the client program (Win32 calls, printing) and the kernel glue that
  performs the kernel calls; both build only for Windows targets.
