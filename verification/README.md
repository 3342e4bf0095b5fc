# radar_core

Core of a robot-competition radar station, verified with Verus.

- `src/` is the verified library: object categories, the fixed-point field
  reference points used for calibration, the choice of the armour plate that
  names each car and the keying of cars by category, the configuration and
  its initial values, event payloads, the framing of the JPEG stream and the
  web-socket message decisions.
- `app/` is the program around it: configuration files, the tokio event bus,
  OpenCV image handling and floating-point geometry, and the HTTP/web-socket
  server.
- `tests/` exercises the library on concrete values.
