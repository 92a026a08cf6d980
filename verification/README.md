# protun

The connection logic of a WireGuard-based VPN client library, verified with
Verus.

- `src/` is the verified library: key and address values, candidate peers and
  their clean-up (`peers`), the decisions of the connection loop
  (`connection`: network availability, peer registration, stream results),
  connection states and their conversions (`state`, `client`), the local agent
  handler (`local_agent`), the recovery from unreachable networks
  (`recovery`), stream bookkeeping (`streams`: TCP write buffer, UDP readiness
  and bind address, Windows wait results, stream registry), packet capture
  (`capture`: open mode and size limit), status texts (`status_text`) and the
  Windows version properties (`version`).
- `app/` is the platform layer: the connection thread that carries out the
  commands of the connection core, mio TCP sockets, packet capture files,
  conversions from `std` values, and the Windows resource build step.
- `tests/` runs the library on concrete values.
