# hyperx-switchd

A small Linux daemon for the HyperX Cloud III S Wireless. It follows the power
state of the headset and keeps the default PipeWire/PulseAudio output, and all
playing streams, where they belong:

- headset on: the headset's output
- headset off: the previous output that is not the headset's

The selected speakers are kept in
`~/.local/state/hyperx-cloud-3-switchd/speaker.json` (or below
`$XDG_STATE_HOME`, or at `--state-file PATH`), and used again after a restart of
the daemon or of the sound server. An output that is missing for a while is not
forgotten. To change the speakers, select another output while the headset is
off, or pass `--speaker-sink NAME`.

## Layout

- `src/` is the library: the decisions the daemon takes, verified with Verus. It
  does no input or output. Each course of events (a query to the dongle, the
  search for one, a pass of routing, the daemon's cycle) is a machine that takes
  what came of the last step and says what to do next.
  - `text`, `number`, `usb_id`: names and numbers as devices spell them
  - `sink`, `selection`: outputs, what is remembered of one, and which to pick
  - `hid`, `probe`: the dongle's reports, a query, and the search for a dongle
  - `connection`: waiting for the sound server and its answers
  - `router`, `reconcile`: where the sound goes, and one pass of routing
  - `daemon`: the cycle
  - `state_file`: what is saved, and how it is written
  - `guarantees`: what holds of all of it together, as proved statements
- `app/` is the program around it: arguments, clock, hidapi, libpulse, files. It
  runs the machines, and asks after each pass what is to be saved.
- `tests/` runs the library on concrete values.
