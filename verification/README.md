# bgpgg

A verified BGP library: what a speaker decides, written in Rust and proved with
Verus.

| Module | What it holds |
| --- | --- |
| `net` | addresses, networks and sockets, their text, and the options of sockets |
| `bgp` | families, attributes, communities, link-state data, OPEN and NOTIFICATION messages |
| `rib`, `rpki` | routes, paths and tables, and the outcome of validation |
| `policy` | sets, conditions, actions, statements, and their configuration |
| `peer` | the state machine of a session, its reactions, negotiation, and what is told to peers |
| `grpc` | the messages of the management interface, what they ask for, and the answers |
| `metrics` | the names of metrics, and what is emitted of notifications |
| `text`, `seqs`, `conf`, `peer_config` | text, lists and configuration |

Sessions do no input or output. A reaction takes what happened, the time and how
many messages the connection takes, and gives the new state and what is to be
done, in its order. `app/` waits, carries it out, and tells the library what
happened.

UPDATE messages and link-state routes are encoded outside the library. It composes
messages, takes the sizes of their encoded forms, and says which are sent and
which routes they carry; of a link-state route it takes the octets that encode it.

Public proof functions named `law_*` state what holds of the library as a whole.
