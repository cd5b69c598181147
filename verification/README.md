# logto

Sign-in through Logto (OpenID Connect) and scope-based authorization, as a
library verified with Verus.

A sign-in runs the authorization code flow with PKCE: the user is sent to the
provider, comes back with a code, and gets a session cookie once the ID token has
passed its check and the user has been provisioned. The scopes that the provider
granted decide what the user may do.

## Layout

- `src/` is the verified library.
  - `text`, `letter_case`, `encoding`, `json`: texts and their encodings.
  - `meta`: the data, each type with its view, and the settings.
  - `scopes`, `scope_store`: normalization and matching of scopes, the decision on
    a request, and the cache of the users' scopes.
  - `scope_laws`, `access_laws`, `session_laws`: what holds of all scopes, of all
    decisions and of all session cookies.
  - `pkce`, `urls`, `session`: secrets, URLs and cookies.
  - `jwks`, `tokens`, `discovery`: the provider's keys, tokens and endpoints.
  - `auth_state`, `id_check`, `users`, `login`, `callback`, `reply`: the sign-in as
    steps from state and event to next state and action.
- `app/` carries the actions out: HTTP handlers, requests to the provider, the
  key-value store and the user database of the program that runs it.
- `tests/` runs the library.

Calls into other crates stand in `src/` behind small functions whose doc comments
say what is believed of them.
