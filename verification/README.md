# huggian_client

Shared primitives for integrating with huggian-core: webhook signatures, the
product registry, the AI gateway, and the per-product subscription flow.

- `src/` is the library. Its functions are proved against their contracts with
  [Verus](https://github.com/verus-lang/verus). It decides and computes; it does no
  I/O and reads no clock. Where an operation needs the network, it is a conversation:
  a function says what to do next, and another takes what came of it.
- `app/` carries the decisions out, with reqwest, tokio and axum.
- `tests/` runs the library on concrete values.

| module | what it holds |
| --- | --- |
| `webhook` | signature check and replay window of incoming deliveries |
| `products` | slug lookup in the product registry, with its cache |
| `ai_gateway` | error taxonomy, retries, backoff, circuit breaker |
| `billing::types`, `billing::state` | what core answers, and what it amounts to |
| `billing::cache` | a company's state, trusted for a while |
| `billing::client` | the requests of the billing API, and what its answers mean |
| `billing::service` | trial, checkout, cancellation |
| `billing_axum` | what the billing routes answer |
| `url`, `time`, `json`, `http`, `text` | what the others share |

Properties that span several functions stand as public proof functions whose names
start with `law_`.
