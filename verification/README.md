# Glycoprotein

The verified core of a local IPC mesh. Nodes on one machine find each other through the socket files
of a directory, announce what they offer, call each other's methods and listen to each other's
events.

- `src/` is the library. It decides; it performs no I/O. The contracts of its functions are proved by
  Verus, and what holds of the mesh as a whole stands in the `law_` functions.
- `src/outside.rs` is the exception: it holds what is taken from other crates and from parts of
  `std` that Verus does not specify. Its contracts are believed, not proved; each item says which
  outside function it stands for and what is claimed of it, which for some is nothing.
- `app/` runs the library: sockets, threads, tasks, clocks, and typed handlers over JSON.
- `tests/` runs the library on concrete values.

| Module | Decides |
| --- | --- |
| `frame` | how payloads are framed and read back |
| `identity` | which ids are valid, how they are ordered, who dials whom |
| `mesh`, `workers`, `transport` | who is connected, where messages go, what a failed connection means |
| `protocol`, `wire` | the messages and their bytes |
| `fields`, `handlers`, `registry` | what a node offers and listens to |
| `presence` | who is present, and what is told of it |
| `calls`, `schema`, `typed` | how calls begin and end, and what is checked on the way |
| `schedule` | when a node announces itself |
| `node` | all of these together |
