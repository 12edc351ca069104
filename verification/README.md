# prueba1

Current monitor for an ESP32 with an HW-671 sensor: it measures the AC
component of the sensor signal, detects when the machine switches on or off,
queues the changes and reports them to an HTTPS server.

- `src/` is the verified library (Verus): sampling and RMS mean-square
  computation (`sensor`), report encoding and answer classification (`http`),
  the bounded send queue (`cola`), the device's decisions — start-up guard,
  clock wait, change detection, message handling and queue emptying
  (`control`) — WiFi connection attempts (`wifi`) and the Unix clock (`reloj`).
- `app/` is the firmware around it: ESP-IDF peripherals, WiFi, HTTP, NVS,
  SNTP, threads and logging. Build-time settings `SERVER_URL`, `API_KEY`,
  `WIFI_SSID` and `WIFI_PASSWORD` must be set in the environment.
- `tests/` runs the library on concrete values.
