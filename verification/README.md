# bloodhound

Compliance checks for Bottlerocket hosts: the CIS benchmark items (`br*`) and the
Kubernetes STIG items for worker nodes (`k8sstig*`). Each check inspects the host
through a `SystemAccess` (file contents, file metadata, command output, directory
walks) and reports a `CheckerResult`: `PASS`, `FAIL`, or `SKIP` when the item
could not be decided automatically.

The library under `src/` is verified with Verus. Every check states, in its
contract, the result it gives for each outcome of the system requests it makes.

- `system_access`: the `SystemAccess` trait, the prepared `UnitTestSystemAccess`
  used by tests, and file metadata.
- `text`: line splitting, substring and word search.
- `results`: statuses, results, check descriptions and the `Checker` trait.
- `lib.rs`: searching files and command output, and the shared checks built on it.
- `scan`: rules applied to every entry of a directory tree.
- `kubernetes`: kubelet configuration settings and the checks on them.
- `cis_checks`, `stig_checks`: the benchmark items.
- `laws`: properties that span several operations.

`app/` holds the checker program: access to the real host, decoding of the
kubelet configuration file, and JSON output. The program runs the item it is
named after (`br01010101`, `k8sstigv242387`, ...) and prints its result, or its
description when given the `metadata` argument.
