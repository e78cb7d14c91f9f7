# nginx_manager

A web console for managing Nginx on a Linux host: sites (reverse proxy or
static), TLS certificates (uploaded or from Let's Encrypt), the Nginx
service, the administrator's password and an audit log.

- `src/` is the verified library (Verus): site form checks, the generated
  `server` blocks, the HTML pages, login sessions, password hashing,
  certificate expiry reminders, the interpretation of command output, and
  the step machines that drive saving a site and writing its configuration
  files with rollback.
- `app/` is the program around it: the axum routes, the SQLite queries,
  running `systemctl`, `nginx`, `certbot` and `openssl`, and file access.
- `tests/` exercise the library on concrete values.
