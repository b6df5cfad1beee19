# originweave_network

Verified local-end WebDriver BiDi protocol logic and the MCP request boundary, written in Verus.

Every function in `src/`, apart from a few trusted wrappers of standard-library calls, carries a
contract that Verus proves: the JSON envelope classifier, the
bounded command-response correlation registry, the typed command serializers and response parsers,
the text and navigation post-condition checks, the exchange time budget, the connection plan
checks and retry decisions, the connection generations that bind received messages to their
connection, and the MCP `tools/call` / `tools/list` validators.

Layout:

- `src/json_text.rs`, `src/json_envelope.rs`: RFC 8259 scanning and the common envelope model.
- `src/command_correlation.rs`, `src/acknowledgement.rs`: the correlation registry and its laws.
- `src/*_command.rs`, `src/*_response.rs`, `src/subscription_admission.rs`: typed commands and
  responses, and the subscription life cycle.
- `src/projection_cursor.rs`, `src/script_result_projection.rs`, `src/navigation_*.rs`: projections
  of command-specific result members, and the committed-navigation post-condition.
- `src/exchange_budget.rs`, `src/exchange_state.rs`: the exchange time budget and the frame-by-frame
  decisions of one command/response exchange.
- `src/connect_retry.rs`, `src/origin_port.rs`: connection plan validation, retry decisions, peer
  verification and origin ports.
- `src/received_message.rs`, `src/type_text_intent.rs`: connection generations, connection-bound
  received messages and the typed-input intent witness.
- `src/mcp_request.rs`: MCP request metadata and routing validation.
- `tests/`: executable tests of the library.
- `app/`: the direct TCP connect loop over `std::net`, which hands the library plain values (socket
  addresses, error kinds) and performs what the library decides.
