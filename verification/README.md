# uip

A peer-to-peer overlay daemon: peers are named by the SHA-256 of their public
key, talk over TLS-secured datagram connections, and local programs reach them
through a unix control socket.

- `src/` is the verified library (Verus): identifiers and their hex form, the
  frame codecs, the peer information base and its tables, address selection and
  port-mapping scans, the network and control-socket state machines, and the
  identity and configuration logic. Calls into `bytes`, `byteorder` and `openssl`
  go through trusted wrappers whose contracts are stated beside them.
- `app/` is the daemon around it: argument handling, configuration files,
  sockets, TLS sessions, netlink, UPnP and the async task loops.
- `tests/` exercises the library on concrete values.
