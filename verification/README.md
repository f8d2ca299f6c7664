# wooden_box

Firmware logic for an ESP32 board that joins Home Assistant over MQTT: it
announces a temperature sensor, a humidity sensor and a relay through MQTT
discovery, follows switch commands and the lights automation, reports button
presses, and drives two LEDs.

- `src/` is the verified library (Verus):
  - `text`: the model of `heapless::String` buffers (the bytes they hold, and
    what appending does when a piece does not fit);
  - `config`: the device's identity in Home Assistant;
  - `discovery`: discovery topics and JSON payloads;
  - `mqtt`: topics, the handling of incoming messages, one-decimal
    formatting of readings, and the session loop as a state machine (from
    state and report to next state and action) with laws over whole runs;
  - `network_clock`: the millisecond clock of the TCP stack;
  - `wifi`: when DHCP has delivered an address;
  - `board`: button debouncing, the lights LED, and the panic decision.
- `app/` is the firmware around it: radio and TCP/IP bring-up, the MQTT client
  loop, GPIO, and the float handling of sensor values.
- `tests/` exercises the library on concrete values.
