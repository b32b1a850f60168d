# OptiStor server

The web server of a platform for sizing and dispatching battery storage
(BESS) and solar generation: authentication, client projects scoped by
organization, the configuration and dashboard pages, and the bridge to the
optimization engine, which runs as a separate HTTP service.

## Layout

- `src/` is the `optistor` library, written in Verus. Each public function
  states what it returns in its contract, and Verus proves it.
  - `text.rs`: trimming, integer parsing, splitting and joining number series.
  - `config.rs`, `config_laws.rs`: a project's configuration and what it
    still lacks before it can be solved.
  - `auth.rs`: bearer tokens, the signing-key set, and the user a token's
    claims describe.
  - `engine.rs`: the protocol that solves one configuration on the engine,
    as a state machine that always closes the session it opened.
  - `db.rs`: stored rows and how they are read back.
  - `projects.rs`: who may see and create which records.
  - `ui.rs`: form fields, the dashboard's state, KPI cards and flow series.
- `app/` is the server around it: HTTP routes, the database, the engine's
  HTTP client, token decoding, and everything that computes with
  floating-point numbers.
- `tests/` exercises the library on concrete values.

Numbers that the library carries (profiles, limits, prices) are IEEE-754
binary64 bit patterns; the library only asks whether they are present.
