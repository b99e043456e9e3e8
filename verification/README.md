# concelare_economy

The rules of the Concelare economy plugin for the Pumpkin Minecraft server,
as a library verified with Verus, and the plugin around it.

- `src/` — the verified library:
  - `model` — player records and logged payments as plain values;
  - `ledger` — every operation of the player repository (create, read,
    save, set balance, freeze, unfreeze, remove and add money, balance and
    frozen status) as a task that asks the caller to read and write the
    store; `ledger_laws` states what each operation does against a store
    that keeps what is written to it, and the account rules that follow;
  - `keys` — player ids as text (the store's keys, and reading ids);
  - `money` — writing amounts as `1,234.56`;
  - `text`, `transactions` — the transaction log's lines and searches;
  - `commands` — what each command answers; `commands::pay` is the payment
    flow as a task, with its laws in `commands::pay_laws`;
  - `events` — joining and leaving players.
- `app/` — the plugin: the redb database, the log file, the clock, `f32`
  arithmetic, JSON, and the server's command and event API.
- `tests/` — tests of the library.
