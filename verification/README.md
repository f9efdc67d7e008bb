# platform_deploy

Deploys an application to the Fermyon self-hosted Platform.

- `src/` holds the rules, verified with Verus: which applications the platform
  takes, how a version gets its build information, how a saved login is found
  and renewed, in which order the platform is asked for what, and how long to
  wait for an application to become ready. A deployment and a login are state
  machines: each step takes what happened and gives what to do next.
- `src/outside.rs` holds the calls into other crates that the rules rest on,
  with what is taken for granted about them.
- `src/deploy_laws.rs` states what holds of every deployment.
- `app/` does what the rules say: it reads files, prints, and talks to servers.
- `tests/` runs the rules on concrete values.
