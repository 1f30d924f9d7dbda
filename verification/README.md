# ency_audit_toolkit

The verified core of a desktop security-audit toolkit. It decides what the
audits look up or connect to, and turns the answers into findings, scores and
ratings; every public function carries a contract proved with Verus.

Layout:

- `src/text.rs` — character-level text operations (search, trimming, line
  splitting, joining, replacement, decimal numerals) with their specifications.
- `src/http_status.rs` — HTTP status codes and header values as the HTTPS
  client presents them.
- `src/commands/` — the stand-alone e-mail, firewall-file and TLS audits, each
  producing a report scored out of 100.
- `src/backend/` — the audits behind the application's commands (DNS/e-mail,
  SSL/TLS, firewall configuration, port scan), the audit panels, the export
  helpers, and the risk score that summarises findings.
- `tests/` — concrete scenarios for each audit and for the laws stated in `src/`.
- `app/` — the desktop application: DNS lookups, HTTPS requests, TCP probes,
  file access and the Tauri command layer, which hand their outcomes to the
  library.
