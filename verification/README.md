# AuraVault

A share-based yield vault. Depositors hand in one underlying token and receive
shares; keepers harvest yield, which makes every share worth more; shares are
redeemed for their part of the assets.

- `src/` is the vault itself, in Verus: every function carries a contract, and
  the modules whose names end in `_laws` prove what holds of the vault as a
  whole, such as that shares add up, that no deposit, withdrawal or harvest
  lowers the worth of a share, and that a call into a vault with a transfer
  under way is refused.
- `app/` is the contract on a Soroban ledger: storage, authorisation, token
  transfers, events, the price oracle and code upgrades.
- `tests/` plays scenarios against the vault.

A call that moves tokens has two halves. The first checks the call, writes the
state, takes the reentrancy lock and names the transfer that is to be made. The
second looks at the token balances around the transfer, and completes the call
or puts everything back.
