# mexc_grid_trader

A grid trading bot for MEXC, Gate.io and KuCoin, with a verified core.

- `src/` is the library, verified with Verus: the venues' request signing,
  URLs, queries, symbol forms and answer records (`exchanges/`), the line-framed
  record files and what is read back from them (`jsonl`), the fills, snapshot and
  adjustment histories, the configuration rules, the listing and sorting of
  orders and fills (`orders`), and the decisions of volume trades (`volume`).
  Hashing, HMAC and the text encodings are called from `hmac`, `sha2`, `hex`,
  `base64` and `urlencoding` behind wrappers whose contracts say what they return.
- `app/` is the command-line program: HTTP requests, files, the report server,
  the terminal and the floating-point price and grid arithmetic. It calls the
  library for every decision the library makes.
- `tests/` runs the library on concrete values, including each law it proves.
