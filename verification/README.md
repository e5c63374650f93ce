# grok_arch

The pure core of the Arch surface of the grok pager, written in Verus and
verified: model routing (Auto / Profile / Exact), the activity pet, the git
worktree policy, multi-agent task tabs with split view and handoffs, the Arch
slash commands, the Arch theme palette, the price tier of a model, and the
naming scheme of per-cwd session directories (URL encoding, or a slug and a
BLAKE3 prefix for long paths).

- `src/` is the verified library. Paths are text with `/` separators (Unix
  semantics); values that come from the environment or the filesystem are
  passed in.
- `app/` resolves homes from the environment, reads and writes session
  metadata files, does the floating-point cost arithmetic and paints the tab
  strip with ratatui, calling the library for every decision.
- `tests/` exercises the library on concrete values.
