# solix_monitor

Verified core of SOLIX Monitor, a desktop monitor for the Anker SOLIX
Solarbank 4 E5000 Pro that reads the device over Modbus TCP (read-only,
function codes 0x03 and 0x04).

- `src/` — the library, verified with Verus: register decoding
  (`registers`), register text (`text`), Modbus TCP request and reply framing
  (`modbus`), the timestamp (`clock`), connection settings (`settings`) and
  the live and demo readings (`snapshot`).
- `tests/` — tests of the library.
- `app/` — the Tauri shell: commands, TCP I/O, the settings file, JSON shapes
  and the floating-point demo waves.
