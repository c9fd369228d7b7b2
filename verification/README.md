# beeboop

Trading rules for short binary "Up or Down" markets, verified with Verus, and the
bots around them.

- `src/` is the library: signals, strategies, order plans and what comes of their
  answers, the reading of feeds, and the bookkeeping. Amounts are integers that
  count millionths. What a function does is stated over spec functions next to it;
  what holds of several functions together is stated by public proof functions.
- `tests/` runs the library on concrete values.
- `app/` is the program: connections and their retries, timers, files, the venue's
  client, and the two places where floating point is at home (the weight of an
  exponential average and the correlation in print).

Modules of the library:

| module | what it holds |
|---|---|
| `fixed`, `extended`, `text`, `json`, `clock`, `random`, `book` | amounts, quotients, texts, JSON values, times, draws, order books |
| `types`, `types_v2`, `config_v2`, `bots`, `state` | shared types, settings, shared state |
| `feeds`, `binance_l2`, `market_ws`, `user_ws`, `rtds`, `market` | messages of the feeds, discovery of markets |
| `signals`, `strategy`, `strategy_v2`, `portfolio` | scores and entries, pairs |
| `inventory`, `ladder`, `vidarx`, `vidarx_btc15`, `vidarx_xrp`, `lockprofit_xrp`, `btc_mint` | the accumulating bots |
| `execution`, `execution_v2`, `feed_state` | orders, the executor, the maker bot's cycle |
| `telemetry`, `leadlag_lab`, `sim`, `logging` | latencies, lead and lag, replay, log names |
