# skiboot

The shared core of the SkiBoot motion-sensing boot: the little-endian wire
formats that the sensor firmware and the host viewer exchange over Bluetooth,
and the decisions both of them make, verified with Verus.

- `src/le.rs` — little-endian integer encoding, as a model and as code.
- `src/codec.rs` — `ByteSize`, `ToBytesLe`, `FromBytesLe` and the sample types.
- `src/imu_conf.rs` — command and status codes.
- `src/status.rs` — the 32-byte status report.
- `src/uuids.rs` — service and characteristic UUIDs and their byte forms.
- `src/imu.rs` — the sensor task's state machine and packet handling, advertising retries.
- `src/host.rs` — the host client's decisions.
- `src/viewer.rs` — the viewer window's event handling.
- `src/loader.rs`, `src/text.rs` — built-in model files, text matching.
- `app/` — windowing, GPU models, Bluetooth I/O and sensor I/O around the library.
