# myore

The decision logic of an ORE miner, verified with Verus, and a command line miner around it.

## Layout

- `src/` is the library. It decides what to hash, when a search ends, what a transaction holds and
  who pays for it, when it is signed anew, and when it counts as sent or lost. Every function
  states what it returns, and the proof functions whose names begin with `law_` state what holds
  of several functions together.
- `app/` is the program. It reads the clock, talks to the node and to the price and fee services,
  starts the search threads and prints. It performs the actions that the library asks for and
  hands the outcome back.
- `tests/` runs the library on concrete values, with the real chain crates.

## The library

| module | what it holds |
| --- | --- |
| `mining`, `mining_laws` | the mining loop, one event at a time, and what a round does |
| `search`, `search_laws` | the search threads, the merge of their findings, and what a search finds |
| `shared_best_laws`, `interleaving_laws` | the search threads side by side: how hard what they find is, and how long they take |
| `sending`, `submission`, `submission_laws` | the instructions of a transaction and its way to the chain |
| `fees`, `prices`, `json` | fee estimates and token prices: requests and responses |
| `epoch`, `buses`, `miner` | epochs and resets, the choice of a bus, the settings of a miner |
| `chain`, `host` | what the chain crates and the machine contribute |
| `bytes`, `text`, `float64` | encodings of numbers |

Arithmetic on times, nonces and compute units wraps around at 2^64, as it does in a release build.
The library is meant for little-endian machines.

A transaction is built once, with the priority fee of the miner. A fee that is estimated while it is
being sent changes the price in the submission, and not the transaction.
