# Sarne

Sarne looks after a Lightning node. The policy agent adjusts what the node asks
for forwarding payments over its channels, from the liquidity of each channel and
from the payments that were forwarded over it. The radar sends payments that
cannot be settled, to learn which routes through the network work, how fast and
for what fee.

## Layout

- `src/` is the library: the decisions that need no floating point, as Verus code
  with contracts that are proved.
  - `text`, `time`, `encoding`, `hashing`, `choice`: numbers, points in time,
    hexadecimal text, digests, choices at random. The calls into `chrono`, `hex`,
    `sha2` and `rand` stand here, behind functions whose contracts are trusted.
  - `network`, `config`, `lnd`: what the node tells, and how it is reached.
  - `forwards`, `balance`, `inquiry`, `policy`, `agent`: the policy agent, from the questions
    to the database to the changes that are applied.
  - `graph`, `cache`, `probe`, `radar`, `report`, `storage`: the radar, from the
    choice of a destination to what is told and written of a probe.
- `tests/` runs the library.
- `app/` holds the programs around it: arguments, the configuration file, the
  database, the node, and the calculations in floating point.

Proof functions whose names begin with `law_` state what holds of the library as a
whole.
