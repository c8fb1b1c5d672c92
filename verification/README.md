# trading_bot

A Binance-futures market-data collector, backtester and order executor,
with its logic written in Verus and proved against its contracts.

- `src/` is the verified library: decimal arithmetic over `rust_decimal`,
  the two backtest portfolios and the simulated order executor, the replay
  engine and its report, the live executor's request signing and reply
  handling, market-data messages and their conversion, configuration, and
  the storage codes and writer decisions.
- `app/` runs it: WebSocket and REST connections, PostgreSQL and QuestDB,
  the command line, and the EMA-crossover strategy (floating point).
- `tests/` exercises the library on concrete values.
