# qu

A verified library for the Allen & Heath Qu mixer's MIDI protocol, with the
programs built on it.

`src/` is the library, checked by Verus:

- `channels`, `parameters`, `protocol`: channel and parameter identifiers and
  the message encoders.
- `parser`, `parser_laws`, `meters`, `messages`: the streaming parser of the
  mixer's MIDI data, its laws, meter data, and event descriptions.
- `state`, `state_laws`, `qu_to_state`, `qu_from_state`: the mixer state kept
  by a client, and how events change it and messages restore it.
- `discovery`, `proxy`, `manager`, `emulator`, `client`: the decisions of the
  discovery client and responder, the proxy, the control surface server's
  connection manager, and an emulated Qu-16.

`app/` holds the programs around the library (network I/O, web servers,
floating-point dB conversion, random meters): `quippi`, `squib`, `thwip` and
`quip-web`, chosen by the first argument.

`tests/` holds the tests. `parses_real_qu16_meter_block` asserts only the
input and stereo input levels of its recorded meter block: the recording
packs 598 levels where a Qu-16 block carries 788, and the mix levels given
for it occur at no position of the decoded block.
