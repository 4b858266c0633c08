# pldm

A PLDM (Platform Level Data Model) responder library for a firmware device,
verified with Verus: the wire formats of the base and firmware-update
messages, the firmware device's update state machine, and the command
dispatcher that sits between an MCTP transport and both.

Layout of `src/`:

- `wire.rs`: little-endian and bit access on plain bytes, through zerocopy
  and bitfield.
- `codec.rs`, `error.rs`: the encode/decode traits and the error types.
- `protocol/`: the PLDM message header, completion codes, command codes and
  the firmware-update enumerations and strings.
- `message/firmware_update/`: one module per firmware-update command, each
  with its byte layout as a spec function and the law that decoding an
  encoding gives the message back.
- `firmware_device/`: the firmware device (`FirmwareDeviceContext`), its
  state (`fd_internal`), the platform operations it calls (`fd_ops`), and the
  laws of the update flow (`update_flow`).
- `control_context.rs`, `cmd_interface.rs`: the base (control) commands and
  the dispatcher.
- `util/`: MCTP framing, CRC-32 and the firmware component record.

The contracts speak of each handler as a step function from the device's
state and the request bytes to the new state and the response bytes.
