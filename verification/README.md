# pza-plugin-std (verified core)

The decision logic of the `std` Panduza plugin, written in Verus and proved
against its contracts, with the plugin plumbing around it.

- `src/serial_stream/` — settings decoding (`settings.rs`), the mount and
  reboot state machines of the serial stream driver (`device.rs`,
  `reboot.rs`) and the receiver/transmitter decisions (`stream.rs`).
- `src/serial_port/` — the request model and its notifier, the data driver's decisions and the
  producer of the serial port driver.
- `src/scpi/` — the SCPI driver's settings check and producer.
- `src/echo_server.rs`, `src/stream_viewer.rs` — the logic of the TCP test
  server and of the MQTT observer.
- `src/text.rs` — decimal parsing and formatting, trimming, byte escaping.
- `app/` — the platform traits, tasks and I/O that run those decisions.
