# ReTherm thermostat logic

The control logic of ReTherm, a replacement thermostat application for a
rooted second-generation Nest, written in Verus and verified.

- `src/state.rs` — the thermostat state machine (`StateManager`): mode,
  target and room temperature, hysteresis, minimum off time, fan timer and
  away mode. Each call takes an event and the current instant and returns
  the events to send, so timers and channels stay outside the library.
- `src/schedule/` — the weekly preset schedule.
- `src/config/` — configuration and climate settings, presets, and the
  duration and time-of-day formats of the configuration files.
- `src/home_assistant/` — the climate entity, state report and command
  handling exposed to Home Assistant, and its option defaults.
- `src/laws.rs` — properties that span several operations, proved.
- `app/` — the program: reads the configuration files, runs the state
  machine with its timers and schedule, logging.

Temperatures are tenths of a degree Celsius and durations milliseconds.
