# lestallum

The logic shared by the Lestallum Town services, verified with Verus.

- `src/` is the verified library: input validation for Minecraft usernames and Xbox
  gamertags, the URLs of the Geyser, Mojang and mc-heads endpoints, the decisions taken on
  HTTP responses (status, size limit, error messages, content type), the redacted log form
  of the database configuration, and the state and styles behind the site's navigation bar
  and overlay animations. Calls into `url`, `uuid`, `base64`, `serde_json` and `bytes` go
  through small trusted wrappers whose contracts are documented where they stand.
- `app/` is the ordinary Rust around it: the `reqwest` clients, configuration loading,
  serde forms of the library's types, and the floating-point parts of the animations.
- `tests/` runs the library with the real outside crates.
