# embassy-ha

A Home Assistant MQTT device library: a device announces its entities (switches,
lights, sensors, buttons, numbers) through MQTT discovery, publishes their states and
receives their commands.

The library in `src/` is written in Verus and verified:

- `constants`, `unit`, `binary_state`: the protocol's fixed strings, units and the
  ON/OFF state;
- `entity`, `entity_switch`, `entity_light`, `entity_sensor`, `entity_button`,
  `entity_binary_sensor`, `entity_number`: entity configurations,
  what each kind of entity announces, and the stored states and commands;
- `buffer`, `topic`: the fixed-capacity topic and payload buffers and every topic of a
  device;
- `discovery`: the discovery records of a device and its entities;
- `session`: the order of the MQTT session (connect, announce and subscribe each entity,
  go online, serve) and the error that ends it at each step;
- `device`: `DeviceState`, which holds the entities and makes every decision of the MQTT
  loop (what to announce, what to publish, where a received command goes and what it
  does), with the laws that relate these steps.

`app/` holds the runtime around it: the shared cells and wakers, the entity handles
that tasks hold, JSON for discovery records and light states and commands, and the
async MQTT loop.
