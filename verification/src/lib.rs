//! The vocabulary a sandboxed Crook plugin and its host speak, and the
//! worktree plugin that speaks it.
//!
//! `vocabulary` is what crosses the boundary: a plugin's manifest, the
//! capabilities it asks for, what a render is about, and the tree of nodes it
//! answers with. `capability` is what a permission dialog says about each
//! capability and how a grant of one is written down. `mark`, `plugin` and
//! `sys` are the worktree plugin: the one decision it makes per row, and the
//! small state machine the host drives it through.

pub mod capability;
pub mod float_bits;
pub mod mark;
pub mod plugin;
pub mod sys;
pub mod vocabulary;
mod text;
