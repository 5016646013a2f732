# wootswitch

Switches profiles on Wooting keyboards over raw HID, without Wootility.

`src/` is the verified library (Verus):

- `command.rs`: the 60 command IDs of the wire protocol.
- `protocol.rs`: the two firmware variants (standard and ARM) and the
  8-byte command packets each one expects.
- `response.rs`: the response layout and the parsers for the active profile,
  the profile count and the profile metadata (protobuf-encoded name).
- `profile.rs`: 0-based slots, 1-based profile numbers and wrap-around
  stepping between profiles.
- `listing.rs`: profiles and the profile listing.
- `keyboard.rs`: the decisions of each keyboard operation: which HID interface
  to open, how the profile count is probed, and the steps of a profile switch.
- `text.rs`: decimal rendering of numbers.

`app/` is the command-line program: it opens the HID device, sends the packets
the library builds, and carries out the steps the library decides on.
