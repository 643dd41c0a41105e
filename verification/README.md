# hyped

Verified core of the HYPED pod software, written in Verus.

- `src/` is the library, every function of it verified:
  - `communications` and `hyped_core::comms`: boards, payloads, message
    identifiers, CAN identifiers and the conversion of messages to and from
    CAN frames, with round-trip laws;
  - `hyped_core::can_sendable`: single-frame values and the three-frame
    position delta with its wrapping clock;
  - `hyped_core::format_string`, `hyped_core::mqtt_topics`, `hyped_core::config`:
    bounded text, MQTT topic strings and measurement identifiers;
  - `control`: GPIO output pins, the high power relay and the pneumatics
    decisions (brake actuation checks, lateral suspension);
  - `debugger`: reading the built executable's path out of cargo's JSON log.
- `app/` is the code around it: levitation controllers (floating point), the
  pods configuration file (serde), the MQTT client, the async pneumatics
  driver and the build step of the flashing tool.
- `tests/` exercises the library.
