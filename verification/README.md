# jito_shredstream_pump_bot

A low-latency Solana copy-trading bot: it reads pre-confirmation entries from a local
`shredstream-proxy`, detects Pump.fun / PumpSwap buys made by leader wallets, and mirrors
them as Jito bundles.

`src/` is a Verus-verified library holding the bot's logic; `app/` is the program around it
(settings, files, RPC/HTTP/gRPC I/O, task orchestration).

## Library modules

- `address`, `seeds`, `pumpswap`: program ids, PDA seeds, associated token accounts and the
  token instructions.
- `types`: plain-value models of instructions, stream transactions and trade signals.
- `sdk`: the trusted calls into `solana-sdk`, `bincode`, `bs58`, `base64` and `serde_json`.
- `layout`, `pricing`: account layouts and the buy sizing (minimum-out scaling, PumpSwap quote).
- `budget`, `pumpbuy`, `amm`, `mirror`, `tx`, `trade`: the instruction lists of every buy, the
  signed transactions, the route a signal takes and the PumpSwap-to-curve fallback.
- `scan`, `monitor`: stage-0 filtering (a leader plus a top-level Pump.fun buy, read without
  lookup tables), lookup-table keys from the cache or a fetch, the leader, and the detectors
  that turn a leader transaction into a signal.
- `jito`, `dispatch`: block-engine endpoints, encodings and replies, what a signal leads to in
  each mode, endpoint rotation and the bundle submission state machine (with the
  `sendTransaction` fallback when every endpoint was rate-limited).
- `config`, `wallet`, `wsol`, `blockhash`: settings, the payer's keypair, the WSOL bank and
  the blockhash cache with its refresh schedule.

Laws of the library (only the payer ever signs, only buys by configured leaders are
signalled, submissions terminate, endpoints are distinct, the fallback needs rate limits from
every endpoint, the refresher keeps the last fetched hash and its back-off doubles to its
cap, ...) are public proof functions named `law_*`.

## Running

Set the environment (`RPC_HTTP_URL`, `SHREDSTREAM_PROXY_GRPC_URLS`, `LEADER_WALLETS`, a wallet
via `KEYPAIR_PATH` / `WALLET_PRIVATE_KEY` / `WALLET_PRIVATE_KEY_PATH`, `EXECUTION_MODE`) and run
the program in `app/`. The default mode, `log`, only logs signals; `demo` sends a 1-lamport
self-transfer; `bundle_pumpbuy` submits the mirrored buys.
