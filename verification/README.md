# firewire-protocols

Verified protocol logic for audio and music units on IEEE 1394 bus: the layout of parameters in
the registers and messages of the units, and the commands to change them. The functions in
`src/` are verified by Verus against their contracts.

- `src/fireface`: RME Fireface series; the former models (Fireface 400, 800) with their
  configuration, status and messages, the latter models (Fireface 802, UCX) with their commands
  for the DSP and their meters; the model identifier in configuration ROM.
- `src/fireworks`: Echo Audio Fireworks board module; the requests of transactions and the
  parameters of responses, the operations over a transaction which the user provides, the
  decisions of the responder which takes the place of the driver, and the specification of each
  model.
- `src/tcelectronic`: TC Electronic Konnekt series and Impact Twin; the segments of parameters
  in the memory of the units.
- `src/digi00x`: Digi 002 and 003 family; the values in the registers of the units.
- `src/weiss`: Weiss Engineering models; for MAN301, the arguments of the vendor dependent
  command for its parameters and the conversion of each parameter.
- `src/bits.rs`, `src/codec.rs`: bit fields and byte layouts shared by the modules.
- `app/`: the transactions to the units by hinawa and hitaki, and the parsing of configuration
  ROM by ieee1212-config-rom, around the verified logic.
- `tests/`: tests of the library.
