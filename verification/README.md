# event_engine

A plugin-based event engine. Plugins exchange typed events through a publish-subscribe
relay; internal plugins run as threads, external plugins as separate processes reached over
TCP.

`src/` is the verified core (Verus):

- `engine` — the application object, its registered plugins and the plans of the engine's
  two relay sockets;
- `endpoints` — the in-process and TCP endpoints;
- `setup` — socket plans for each plugin, and which error each failed step reports;
- `sync` — the start-up barrier that holds every plugin until all are ready;
- `external` — the request protocol spoken with external plugins;
- `events` — the event traits and the byte framing of events;
- `demo`, `load_test` — the event types, plugin decisions and plugin loops of the two
  bundled applications;
- `reply_cycle` — the receive-then-answer loop shared by their answering plugins;
- `text`, `errors` — numerals, id text, UTF-8 decoding, and the engine's errors.

`app/` performs what the core decides: it opens the sockets, runs the relay proxy and the
plugin threads, drives the barrier and the external-plugin sessions, defines the `Plugin`
and `ExternalPlugin` traits, and reads the load test's configuration file.
