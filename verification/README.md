# pview

A command-line client for Hunter Douglas PowerView Gen 3 hubs, and `serve-mqtt`,
a bridge that adds the hub's shades and scenes to Home Assistant over MQTT.

The library in `src/` is written in Verus and verified: every public function
states what it returns in its contract, and the properties that span several
functions are stated and proved as public proof functions (named `law_*`).

- `text` — decimal rendering and parsing of integers, ASCII case folding, trimming.
- `types` — the hub's rooms, scenes, shades, positions (whole percentages), codes.
- `order` — the stable sort by name and the lookup by name or id.
- `hub` — the HTTP requests for each hub operation, and what is made of the answers.
- `sse` — framing of the hub's server-sent shade events.
- `hass`, `bridge` — the Home Assistant discovery entities and the registration queue.
- `events` — the bridge's decisions on shade events, commands, position
  interpolation and rediscovery, as lists of actions.
- `table`, `commands` — the output of the command-line commands.

`app/` is the program around the library: argument parsing, HTTP, mDNS
discovery, the MQTT client and the event loop. It carries out the actions the
library decides on, and converts the hub's JSON (fractions and seconds) to the
library's types.
