# openclaw_linux

The core of the OpenClaw Linux desktop app, verified with Verus: the gateway
configuration (where it lives, what it resolves to, how the connection choice
and the local auth token are written back), the node's command runtime and
its session decisions (connect parameters, the device's signed proof, the
reader's answers), and the onboarding flow as a state machine.

- `src/` is the library. Public functions state in `ensures` what they
  return wherever that depends on their arguments alone; where the result
  comes from the clock (the signing time, frame ids) the contract says what
  holds of every reading, and the conversion of the reading is a function of
  its own with an exact contract. The laws (a saved connection reads back,
  also through the override file, and leaves every other key as it was; a
  generated token reads back and is 43 URL-safe characters; advertised
  commands are handled; Back undoes Next; the runtime starts once; JSON get
  after insert/remove and after merge) are public proof functions.
- `tests/` exercise the library on concrete values.
- `app/` is the program around it: the GTK window and canvas webview, file
  and environment access, the WebSocket calls to the gateway, the gateway
  process, and the loop that performs what the onboarding flow asks for.
