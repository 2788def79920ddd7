# crook_plugin

The vocabulary a sandboxed Crook plugin and its host speak, and the worktree
plugin, which marks every tab whose directory is a linked git worktree.

- `src/` is the verified library: the vocabulary's types (`vocabulary`), what
  a permission dialog says about a capability and how a grant is written down
  (`capability`), and the worktree plugin's decisions (`mark`, `plugin`,
  `sys`), with the laws they keep proved beside them.
- `app/` is what the library cannot hold: the wire, where each type of the
  vocabulary is encoded with postcard through serde's derives on a copy of
  it, and the plugin's wasm exports, shared memory and host imports.
- `tests/` runs the library on concrete values.
