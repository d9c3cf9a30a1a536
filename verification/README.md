# plotforge_agent

The agent-side logic of PlotForge, verified with Verus: prompt templates,
text-provider request bodies and response decoding, the provider registry's
selection rules, retry and backoff, the text-agent output checks, scene
planning, the MCP tool-use loop, the scene-image and speech pipelines'
decisions, skill frontmatter handling, and the redaction-safe helpers they
share.

Layout:

- `src/` — the verified library. Each module states its contracts over
  `Seq`, `Set` and spec functions; the calls into `serde_json`, `sha2`,
  `base64` and `dirs` go through small trusted wrappers whose contracts say
  what those crates document.
- `tests/` — tests of the library on concrete values.
- `app/` — the I/O around the library: HTTP clients (`reqwest`), registry
  and cache files, environment credentials, YAML frontmatter (`serde_yaml`),
  and the `serde` copies of the library's types.
