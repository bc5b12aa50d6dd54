# Sats for Compute

A bot that sells 24-hour blocks of confidential compute for bitcoin. A claim is
one customer's purchase; its canonical state is a JSON manifest inside a GitHub
issue. Payments are told apart by their exact amount.

- `src/` is the verified library: the claim and its issue body, the tools and
  their answers, the tick and the orchestrator as state machines, and the rules
  of the node marketplace (orders, provisioning, the warm pool, its pages).
- `app/` runs the library: HTTP, the database, ssh, the clock of its loops, and
  JSON.
- `tests/` runs the library on concrete values.

A decision that needs something from outside is a function from a state and a
reply to the next state. `tick_step` and `provision_step` are the two machines;
`law_whole_tick` and `law_whole_provisioning` say what a whole run comes to.
Contracts speak of strings as sequences of characters and of each type by its
view.
