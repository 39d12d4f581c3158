# meshtastic_node

Logic of a Meshtastic-compatible LoRa node (STM32 with an SX1262 radio and an
SSD1306 display), verified with Verus.

- `src/cursor.rs`: a byte cursor over a shared or mutable buffer window, with
  big- and little-endian integers; `src/endian.rs` states the byte orders and
  proves that decoding undoes encoding.
- `src/varint.rs`: 32-bit protobuf varints: encoding, decoding, lengths.
- `src/proto.rs`: a protobuf-style wire format (wire types, tagged fields) and
  the `FromWire`/`ToWire` conversions of field values. It departs from standard
  protobuf in one place: the length written before a byte string counts the
  bytes of that length prefix too.
- `src/meshtastic.rs`: the packet header and its flags, the AES nonce, node
  ids, the port, hardware and role enumerations, and the `Data` message.
- `src/radio.rs`: SX126x commands and their bus frames, status decoding, and
  the start-up, transmit and receive sequences as step functions.
- `src/crypto/`: AES-CTR, AES-CCM and SHA-256 over the `aes`, `ctr`, `ccm` and
  `sha2` crates.
- `app/`: the firmware: the display demo and the embassy radio driver that
  runs the radio sequences on the SPI bus and pins.
- `tests/`: tests of the library on concrete values.
