# codex-switch

Switches the local Codex configuration between several accounts and API-key
profiles kept under one key directory, showing each account's remaining quota.

- `src/` is the library, verified with Verus:
  - `text.rs`: trimming, padding, decimal rendering, name order, path joining;
  - `config.rs`: the tool's configuration and the checks on its directories;
  - `usage.rs`: `auth.json` fields, usage records, quota and reset texts, the
    email claim of an ID token;
  - `profile.rs`: profile classification, account ordering, usage updates, the
    files a switch copies, the choices of `auto` and `ping`;
  - `ui.rs`: screen layout, list rows, the detail panel and key handling.
- `app/` is the program around it: reading files, fetching usage over HTTP on
  one thread per account, and the terminal interface.
- `tests/` exercises the library on concrete values.
