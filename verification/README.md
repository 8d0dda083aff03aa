# kube-controller-manager-rust

The core of a Kubernetes controller manager, written in Verus. Every
function in `src/` carries a contract; Verus proves them all except the few
marked `#[verifier::external_body]`, which call outside crates (`humantime`,
`gethostname`, `rand`) or std's `{:?}` formatting and whose contracts are
trusted as stated in their doc comments.

## Layout

- `src/feature.rs`, `src/feature/` — feature gates: lookups, single settings,
  `Name=true,Other=false` lists, the default Kubernetes gates, and the laws
  they obey. Changing a gate takes exclusive access; holders that share one
  gate set keep it behind a lock of their own.
- `src/controller_descriptor.rs`, `src/controller_descriptor/` — controller
  descriptors, their builder, and the registry of controllers by name and
  alias, with its laws.
- `src/config.rs` — every configuration section with its documented
  defaults, the controller selection (`*`, `name`, `-name`), command-line
  overrides and duration parsing.
- `src/controller.rs`, `src/controller_manager.rs` — controller errors and
  their messages, function controllers, which registered controllers are
  built, and the step function of running and gracefully draining them.
- `src/health.rs` — combining check results, the checker list, and the reply
  of each health endpoint.
- `src/leader_election.rs` — election settings, the election step, lease
  staleness and renewal, and candidate identities.
- `src/duration_bound.rs` — the bound on the span that a duration text
  denotes, which keeps texts too long for a span of time away from the
  duration parser.
- `src/text.rs`, `src/table.rs`, `src/time.rs` — text handling, name-keyed
  tables and time spans used by the rest.
- `app/` — the program around the library: command line, logging, the
  configuration file, the Kubernetes client, the HTTP health server, the
  lock-file election loop and the asynchronous controller runtime.
- `tests/` — tests of the library on concrete values.
