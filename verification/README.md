# cloudflare_proxy

A proxy in front of the Cloudflare DNS API: each user has a key of their own and privileges
on zones (a regular expression over record names, or superuser rights), so that the
account's single API key is never handed out.

- `src/` is the verified library (Verus): the models, authentication and authorization
  (`access`), record types and record lookup (`record`), the choice of API credentials
  (`credentials`), the answers read by the administration tools (`console`), and the handling
  of a request as a state machine (`session`) that says what to ask of the database and of
  Cloudflare and takes their answers. `laws` proves properties of whole runs of a session,
  among them that no DNS record is changed without prior authentication and authorization.
- `app/` is the web server (rocket), the database access (diesel), the Cloudflare client and
  the administration tools; it runs the library's sessions.
- `tests/` exercises the library on concrete values.
