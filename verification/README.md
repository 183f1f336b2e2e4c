# nebulous

The verified core of the Nebulous container orchestrator, written in Verus.

- `src/` is the library. Every function there carries a contract, and Verus
  proves each one except those of the trusted wrappers named below: the client configuration and its updates (`config`), the VPN
  settings and device naming (`vpn`), how each platform describes and watches
  a container (`resources::v1::containers`: Kubernetes jobs, EC2 and Nebius
  nodes), processor and container statuses and the controllers' reactions to
  them, the API client's URLs, and the text handling these rely on (`text`,
  `find`). The laws of the library are the `law_*` proof functions.
- Calls into outside crates (base64, chrono, petname, serde_json,
  short-uuid, uuid) and a few std functions go through small wrappers marked
  `#[verifier::external_body]`: their contracts are trusted, not proved, and
  their doc comments say what is assumed.
- The platforms' decisions are all in the library, also where the program
  cannot make the platform's calls: the EC2 declaration records and the
  EC2 watcher (`ec2_watch_step`), and the Nebius machine request
  (`plan_instance_create`), are verified there and tested; the EC2 and
  Nebius SDKs themselves are not among the crates this project builds, and
  there is no database layer, so the program reports what it would record.
- `app/` is the `nebu` program: files, environment, network, Kubernetes and
  the terminal, with every decision taken by the library.
- `tests/` runs the library on concrete values.
