# kcc

A Kubernetes cluster checker: it inspects a cluster (pods, nodes, storage,
network, security, policies, workloads, certificates, events), scores what it
finds, and writes a report in Markdown, JSON, CSV or HTML. It runs as a
command-line tool or as a small web service with token authentication.

The rules of the checker are written in Verus and proved against their
contracts.

## Layout

- `src/` — the verified library:
  - `inspections/` — the inspection rules, one module per area, each a
    function from the cluster's records (plain values) to checks and issues;
  - `node_inspection/` — parsing and decisions of the per-node collector;
  - `reporting/` — issue grouping and filtering, the rows of every report
    table, the report text, the assembly of the Markdown report and its
    CSV and HTML forms;
  - `config.rs`, `cli.rs`, `jobs.rs`, `server.rs`, `scoring.rs` — settings,
    command vocabulary, the job table, web-server decisions (token check,
    which requests pass) and scoring;
  - `utils/` — text, quantities, formatting and labels.
- `tests/` — tests of the library on concrete values.
- `app/` — the program around it: command line, Kubernetes API calls, file
  and network I/O, the web server, and the floating-point parts of scoring
  and of the report's amounts.
