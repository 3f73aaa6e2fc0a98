# aid_contract

Escrowed aid on Soroban: a donor locks an amount of a token for a recipient
until an expiry; the recipient claims it before the expiry, or, from the expiry
on, the donor or the administrator takes it back.

- `src/` — the verified library: addresses (`address`), aid records and
  statuses (`aid`), errors (`errors`), event values (`events`), the contract
  storage and its requests (`contract`), properties spanning requests
  (`laws`), and properties of whole request sequences (`runs`). Each request returns the token transfer and the events the host
  must carry out.
- `app/` — the Soroban contract: it reads storage into the library model,
  calls it, performs authorisation, the transfer and the events, and writes
  storage back.
- `tests/` — scenarios run against the library.
