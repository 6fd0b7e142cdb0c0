# finalytics

The verified core of a financial analytics toolkit, written in Verus.

`src/` holds the logic that decides things, each function with a contract that
Verus proves:

- `keys`, `screeners`, `builder`, `quotes`: the screener vocabularies (quote
  types, sectors, industries, exchanges, regions, peer groups, fund families and
  categories), the screener fields of each asset class with their metadata and
  value checks, query sorting and paging, and the columns of the result table.
- `config`, `summary`, `overview`: bar intervals, statement types and
  frequencies, the line items of fundamentals queries, the summary table of a
  ticker and the statistics table of several tickers.
- `calendar`, `schedule`, `periods`: dates (parsed and stepped with `chrono`),
  period boundaries, scheduled cash flows, rebalancing triggers, bucketing of
  dated rows and the trailing periods of performance tables.
- `constraints`, `transactions`, `events`, `hrp`, `objective`: which
  constraint entries survive, where transactions land, what a simulation row
  records, the leaf order of a clustering and the optimisation objectives.
- `session`: what to do after each response of the market data service.
- `error`, `technicals`, `text`: error messages, price columns, and text helpers.

`app/` is ordinary Rust around the library: the HTTP session, JSON reading and
writing, and the arithmetic on amounts and weights, which is floating point.

`tests/` runs the library on concrete values.
