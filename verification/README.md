# retainer

A chat bot that deletes the messages of the channels it listens to once they
are older than a configured number of days (1 to 14).

- `src/` is the verified library (Verus): configuration from the environment,
  the retention period and the `/duration` commands, the channel commands,
  `/ping`, what to record for a new message and when it expires, and how the
  hourly cleanup reads stored records back.
- `app/` is the program around it: environment, chat service, database,
  clock and scheduler. It hands their answers to the library and carries out
  what the library decides.
- `tests/` runs the library on concrete values.
