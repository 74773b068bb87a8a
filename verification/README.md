# fund_monitor

A fund watch service: it polls fund net values and estimates from the Eastmoney data
source, judges them against monitoring rules, raises alerts (with optional Telegram
notices) and serves pages for funds, rules, alerts, settings and an overview.

- `src/` is the verified library: rule evaluation with its cooldown, the steps of a
  polling round, of a fund's rule checks, of a fetch job and of the valuation search
  (each a function from state and event to next state and action, with laws over whole
  runs), the reading of the data source's answers, form validation, Telegram message and
  reply handling, and every page's view model, each with its contract.
- `app/` is the service around it: environment, SQLite storage, HTTP client and server,
  the scheduler that drives the step functions, and the floating-point conversions of
  readings.
- `tests/` exercises the library on concrete values.
