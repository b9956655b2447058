# trade_monitor

Back end of an account-monitoring service for trading venues (Binance, Bybit):
operators sign in, watch venue accounts and account groups, share them, set
alarms and read equity curves, trades, positions and transfers.

- `src/` is the library, verified with Verus: the records of the HTTP interface
  and of the database (`models`), the decoding of Bybit replies into shown rows
  and the account-summary state machine (`actors::bybit`), the routing of
  queries and the shaping of stored rows, among them the hourly equity curve
  (`actors::database`), the request rules of the handlers (`common::handlers`),
  and calendar text from `chrono` (`clock`).
- `app/` is the service around it: MySQL access, the async Bybit readers over
  the venue's HTTP interface, the actix-web handlers and the `serde` copies of
  the records.
- `tests/` runs the library on concrete values.
