# nucane

The verified core of a trading platform made of services: a plugin
registry, an exchange interactor and end-to-end test strategies.

- `src/` is the library, written in Verus and proved: the plugin registry
  and its blob store, the interactor's subscription bookkeeping, the rules by
  which OKX and Bybit order reports become orders, the socket registry of the
  exchange adapters, and the state machines of the end-to-end strategies.
  The laws of the library stand there as public proof functions named
  `law_*`.
- `tests/` runs the library on concrete values.
- `app/` is the runtime around it: configuration loading, logging, the
  registry's REST client, the plugin state's JSON encoding, and the
  floating-point parts of the exchange adapters.
