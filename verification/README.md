# debai

The core of DebAI, an AI layer for Debian-like systems: a daemon (`aid`)
that answers natural-language questions about the system through a local
language model, and a client (`aiterm`) that shows the answer and the
commands it proposes, and runs them on the host or in a sandbox.

`src/` is the library, verified with Verus:

- `protocol` — the JSON-RPC messages between client and daemon, with views.
- `policy` — the security policy engine that reclassifies every proposed
  command (blocked patterns, allowed commands, override rules, category
  guesses), and its laws.
- `execution` — which actions may run and how, and how command output is
  folded into the response (including the sandbox directory it announces).
- `sandbox` — the registry of active sandboxes, compared as filesystem paths,
  and the commit/cleanup requests.
- `cache` — the cache of model answers, keyed by query (ignoring ASCII case)
  and method.
- `service` — routing of requests, the model request flow (cache, prompts,
  model reply), error responses.
- `plugins` — plugin discovery decisions and the pre/post-execute hook
  protocol.
- `client` — the client's decisions: socket choice, requests, reading the
  user's answers, display of risk levels and output.
- `text` — the character-level string operations these rely on.

`app/` holds the two programs: sockets, processes, files, HTTP, JSON
(de)serialisation with serde, and the command line.
