# modu_tool

The verified core of an operator console for a Schindler elevator test rig.

- `src/` is the library, verified with Verus: text rendering (`text`), the
  Schindler page's console and commands (`pages::schindler_page`), the rig's
  record (`helpers::json`), the MQTT workers' commands, channel handles and
  loop decisions (`helpers::mqtt`, `mqtt`), the serial read loop
  (`comport`) and the display settings (`settings`).
- `app/` runs it: MQTT worker threads on Tokio and rumqttc, the serial port,
  JSON, files and the browser, with standard input standing in for the
  window.
- `tests/` exercises the library on concrete values.
