# rwa_launchpad

A real-world-asset token launchpad: an administrator initializes the
contract with an asset description, mints tokens, approves investors on a
whitelist, and investors hold and transfer tokens while a fixed number of
investment slots (ten) is handed out.

- `src/` is the contract's logic, verified with Verus. `RwaLaunchpad`
  (`src/launchpad.rs`) works on the contract's stored state; its operations'
  contracts are stated over the transition functions of `src/model.rs`, and
  `src/laws.rs` proves the properties that span operations (initialize only
  once, only the administrator mints and lists, transfers conserve balances,
  refused calls change nothing, the slot counter stays bounded, pausing
  blocks activity).
- `app/` is the Soroban contract around it: it reads the storage entries a
  call needs, obtains the host authorization that the library reports as
  missing, writes the entries back and publishes the events.
- `tests/` runs the library on concrete scenarios.
