# tradebot

A candle-chart trading bot for MongoDB-stored candles (EMA, MACD, zigzag,
cradle entries, order management).

- `src/` is the verified library: the decisions the bot makes on integers,
  enums and text — the interval ladder, swing-status and trend codes, the
  cradle entry signal, the life cycle of a held order, the zigzag's restart
  bar and its per-bar pivot step, and the checks on bar windows. Each comes
  with its contract; the laws (status round trip, orders only move forward,
  the zigzag alternates, ...) are proof functions beside them.
- `app/` is the program around it: MongoDB access, the serde models, and all
  arithmetic on `f64` prices, which calls into the library for each decision.
- `tests/` runs the library on concrete values.
