# pumpbtc

Verified core of PumpBTC on Stellar: users stake wrapped BTC, receive pumpBTC
1:1, and unstake either after a ten-day cycle (through date slots) or at once
for a fee.

- `src/` (Verus): `staking` (the staking contract's state and every entry
  point as a transition with an exact contract), `guards` (deciders for the
  inputs on which each transition is defined), `math` (checked arithmetic and
  the conversion to the asset's decimals), `utils` (date slots), `token`
  (pumpBTC balances, allowances and its two-step admin), `event`, `error`,
  and `laws` (properties that span operations, proved).
- `app/`: the two Soroban contracts around the library: storage,
  authorization, token calls, minting and burning, and events.
- `tests/`: scenarios of the contracts' test suites and concrete instances
  of the laws.
