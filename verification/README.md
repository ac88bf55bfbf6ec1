# machining_sim

A discrete-event model of a machining line: work pieces are generated, carried
by a single robot to a group of machining centres, machined, carried to a
conveyor and terminated. The library is written in Verus; its functions carry
contracts that Verus proves, except `push_char` in `src/print.rs`, a trusted
wrapper around std's `String::push`.

Layout:

- `src/models.rs`: the route's blocks and the transaction type.
- `src/chains.rs`: the future event chain (earliest event first) and the
  current event chain (a deque).
- `src/state.rs`: the model's state, its mathematical view and its accessors.
- `src/state/simulate.rs`: one step of the simulation (executing a block),
  the start of an iteration and the hand-out of due events, each stated as a
  function on the view.
- `src/print.rs`: the text of transactions, chains and log rows.
- `src/laws.rs`: properties that span several functions, proved.
- `app/`: the program: random durations (floating point, from `rand`), the
  simulation loop that feeds them to the library, and output.

Time is counted on an integer clock whose tick is a tenth of the model's time
unit; the program rounds the sampled durations to ticks.
