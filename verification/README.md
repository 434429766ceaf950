# Collator Monitor

Monitors collators on the Polkadot and Kusama system chains, registers them again
where they fall out of the candidate list, and raises their bond to what is
available, all through a proxy that may not transfer funds.

- `src/` is the verified library. It reads what the chains store, decides what to
  do, builds the calls to submit, follows each chain's blocks and connections, and
  words every message. Its contracts and laws are checked by Verus.
- `app/` is the program around it: command line, configuration files, the
  connections to the chains and to Slack.
- `tests/` runs the library on concrete values.

Moments are nanoseconds of a monotonic clock that the caller reads; balances are in
the smallest unit of a network's token.
