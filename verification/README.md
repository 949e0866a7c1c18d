# network

The routing core of a peer-to-peer node, verified with Verus.

- `src/message.rs`: what peers say to each other, and what the network tells the
  rest of the node.
- `src/channel.rs`: the channel that takes messages to the wire.
- `src/service.rs`: the handle through which a node sends messages, requests and
  responses.
- `src/actor.rs`: how a node reacts to a message from a peer and to its own events.
- `src/laws.rs`: what holds of nodes that talk to each other.
- `app/`: runs the core on actix.
- `tests/`: the core at work on concrete values.

The wire format is a parameter. Functions that write or read messages take the
encoder or decoder as an argument, and the laws on delivery hold for every codec
whose decoder undoes its encoder.
