# tdfirehose

A client for the ThetaData options stream: it receives quote, trade and OHLC
messages over a websocket, turns each into a CSV record (timestamp, days to
expiration, OCC symbol, and the message's fields), joins each trade with the
latest quote and OHLC bar of its contract, and appends the records to
`quote.csv`, `trade.csv`, `ohlc.csv` and `agg.csv`, holding the last hundred
records of each kind back in a buffer.

- `src/` is the verified library (Verus): the message and record types
  (`enums`), decimal text (`text`), dates and times (`calendar`, with the calls
  into `chrono` and `time`), timestamps and OCC symbols (`utils`), the
  latest-record tables (`latest`), the bounded buffers (`buffer`), message
  handling (`firehose`), feed statistics (`stats`) and cross-function
  properties (`laws`).
- `app/` is the program: command line, websocket, JSON, CSV files and the
  floating-point statistics.
- `tests/` runs the library on concrete messages.

Prices are carried in the library as the bit patterns of their `f64` values.
