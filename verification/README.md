# Headwind

Headwind is a Kubernetes operator that keeps Deployments and Flux
HelmReleases up to date. It learns of new container images and chart versions
from registry webhooks or by polling registries, decides by a per-resource
policy (`patch`, `minor`, `major`, `all`, `glob`, `force`, `none`) whether a
new version may be applied, files an `UpdateRequest` when approval is needed,
applies approved updates, watches the rollout and rolls back on failure, and
sends notifications to Slack, Microsoft Teams or a signed generic webhook.

## Layout

- `src/` is the library, written in Verus. Every decision the operator makes
  lives here with a contract that Verus proves: the policy engine, annotation
  and configuration parsing, webhook and polling plans, update history,
  health verdicts and rollback, approval handling, notification payloads and
  signatures, the UI's identity and view rows. The laws of the library
  (the policies nest, a saved configuration loads back unchanged, the history
  keeps the last ten updates per container, and so on) are public proof
  functions next to the code they speak of.
- Calls into other crates that only compute (semver, chrono, sha2, hex,
  base64, url, oci-distribution) stand behind small trusted wrappers whose
  contracts say what those crates document; each wrapper's doc comment names
  the function it calls.
- `app/` is the operator around the library: the Kubernetes controllers and
  API calls, the HTTP servers, registry and notification I/O, the Prometheus
  metrics, the HTML pages and the metrics-backend clients. It hands the
  library plain values and acts on what it returns.
- `tests/` runs the library on concrete inputs.
