# rock

A rock-paper-scissors contract for a CosmWasm chain: players create rooms by
title, two distinct accounts each put in a stake and a move, and the pot is
paid to the winner, in the native coin or through a SNIP-20 token contract.

- `src/` is the verified library: the rules of the game (`state.rs`), the
  requests and queries over an explicit model of the contract's stored state
  (`contract.rs`), the messages (`msg.rs`), the errors (`error.rs`), and the
  laws that span several calls (`laws.rs`).
- `app/` holds the chain-side entry points: it loads the state from the
  chain's storage, converts addresses, decodes and encodes messages, calls
  the library and stores the state again.
- `tests/` runs the library on concrete games.
