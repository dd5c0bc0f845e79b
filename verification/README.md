# uoe_ms_auth

Signs in to the University of Edinburgh's Microsoft authentication with a
headless browser and hands back the session cookies.

- `src/` is the verified library (Verus): every decision of the sign-in flow.
  - `auth_flow.rs`: the flow's states and their model, one step of the state
    machine (`step_auth_sm`), where the exam papers site lands
    (`handler_init`), the wait for the redirect after the credentials, and
    the retry schedule of the steps on Microsoft's pages.
  - `ms_handlers.rs`: Microsoft's second-factor pages: telling their stages
    apart, what to do at each, reading the Authenticator number.
  - `session.rs`: what the host's loop does around each step (credentials,
    approval prompts, one-time codes) and how a finished flow ends.
  - `text.rs`: text comparison and decimal reading used by the above.
  - `laws.rs`: properties that span several functions.
- `app/` drives the browser (thirtyfour, tokio), prompts on the terminal,
  and holds the Python bindings (pyo3).
- `tests/` runs the library on concrete values.
