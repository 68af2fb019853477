# dispenser

The logic of a dispenser block: which behavior an item has, what one activation
does with it, and how the block follows the redstone signal around it. It is
written in Verus, and every function carries a contract.

The library does not touch a world. An activation is a conversation: the library
asks (`protocol::Query`), the host answers (`protocol::Reply`), and the library
hands out the effects that the host has to carry out (`protocol::Effect`).

- `src/dispenser.rs`, `src/redstone.rs`: activations, neighbor updates and ticks
- `src/behavior.rs` and the modules it leads to: one move of each behavior
- `src/performance.rs`: what a whole activation comes to, for any surroundings
- `src/questions.rs`: what it asks on the way
- `src/laws.rs`, `src/repetition.rs`: what holds of every activation, and of several
  in a row
- `src/chance.rs`: the two calls that rest on chance, the only trusted code
- `app/`: the block on a running server, with everything that is floating point
- `tests/`: the library run on concrete values
