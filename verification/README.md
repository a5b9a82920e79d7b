# automation

Home automation around an MQTT broker: devices of the house (outlets, lights,
sensors, bridges) react to MQTT messages and to each other's events, and a
Google Home fulfillment endpoint describes them.

- `src/` is the library, verified with Verus. Each device is a state machine:
  it takes a decoded message or an event and says what it wants done
  (messages to publish, requests to send, timers to start). The device
  manager decides which devices an event goes to. The Kasa wire protocol, the
  Hue and ntfy request bodies, the secret-file naming rule and the API error
  answers are computed here too.
- `app/` is the program: it reads the setup and the Lua configuration,
  talks to the broker, the Hue bridge, the Kasa plugs and ntfy, runs the
  timers and the scheduler, and serves HTTP. It hands the library plain
  values and carries out what the library answers.
- `tests/` runs the library on concrete values.
