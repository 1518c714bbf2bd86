# southesk

A library for creating clients for the Montrose MCP API, with its decision
logic verified by Verus.

## Layout

- `src/` — the verified library:
  - `client/connection.rs`: the connection flow as a state machine (stored
    credentials, interactive OAuth authorization, MCP client initialisation
    and the single retry after the server asks for authorization), with its
    laws (every attempt ends, at most two initialisations, no interactive
    authorization without a handler, ...).
  - `client/tmr_connection.rs`: the connection flow of `TmrClient` (one
    initialisation from the credential store; a new authorization that
    creates the OAuth state and callback handler and refuses a code exchange
    that gave no token), with the same kind of laws.
  - `client/introspect.rs`: the text report of the server's tools and
    prompts.
  - `client/tools.rs`: the MCP tool requests of the API methods and the checks
    of their responses.
  - `client.rs`: the client states and the builder's option checks.
  - `auth_handler.rs`, `oauth_handler.rs`: reading the authorization code and
    state from an OAuth redirect URL.
  - `cred_store.rs` and `cred_store/`: the stored credential record (read after
    write laws) and the meaning of keyring answers.
  - `types.rs`: the API types and the trade currency's JSON form.
  - `error.rs`: the errors and their texts.
- `app/` — the client around it: the MCP connection (rmcp), the browser and
  console authentication, the credential files and keyring, and the JSON forms
  of the API types.
- `tests/` — tests of the library.
