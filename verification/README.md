# torquebridge

A force-feedback bridge for the FFBeast wheel base: game force packets arrive through a vJoy
virtual device, are decoded and turned into wheel commands, and are applied to the wheel through
DirectInput (or, experimentally, through the wheel's direct-control HID report). A WinMM
joystick can feed the steering position back into the condition effects.

## Layout

- `src/` — the verified library (Verus). Packet decoding and deduplication (`ffb_packet`), the
  direct-control force model (`backends::ffbeast_direct`), the DirectInput effect plan and device
  selection (`backends::directinput`), the HID report layout (`protocol`), the vJoy readiness
  check and report (`vjoy`), the input feeder's bindings and bit packing (`feeder`), WinMM
  reading decoding (`inputs`), diagnostics events and their text form (`diagnostics`,
  `summary`), profile resolution and change detection (`profile`), and the profile editor's
  logic (`editor`). Text helpers (`text`) give decimal formatting and parsing, trimming and
  search with exact specifications.
- `tests/` — tests of the library on concrete values.
- `app/` — the command-line program around the library: argument handling, configuration and
  profile files (serde), the vJoy, WinMM, DirectInput and HID system interfaces, the
  floating-point effect engine and axis scaling, telemetry, and the diagnostics log on disk.
