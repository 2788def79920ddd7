//! The worktree plugin: what it says about itself, and what it does each
//! time the host calls in.
//!
//! A mark on every tab whose directory is a linked git worktree. It asks for
//! one thing, to see which project each tab is in, and until somebody allows
//! that it draws nothing at all and says so, once per build, in the host's
//! log.
//!
//! The exports the host calls, the memory they share with it and the two
//! imports they call out through live outside this library; each hands what
//! it read to a function here and does what that function answers.

use vstd::prelude::*;
use crate::mark::{badge, is_blind, is_blind_render, is_marked, ICON, TONE};
use crate::sys::Level;
use crate::text::owned;
use crate::vocabulary::{ABI_VERSION, Capability, Contribution, Manifest, Node, Render};

verus! {

/// The slot this plugin takes: the small mark on the corner of a row's own.
pub const SLOT: &'static str = "tab.row.badge";

/// What this contribution is called, within this plugin.
pub const ENTRY: &'static str = "worktree";

/// Where it goes among everything else in that slot. Zero, the claim every
/// plugin that wants the badge makes: the lowest order wins it.
pub const ORDER: i32 = 0;

/// The plugin's own version, for a store to compare.
pub const VERSION: &'static str = "0.1.0";

/// What the log is told when a row arrives that the plugin may not see.
pub const BLIND_LINE: &'static str = "nothing will be marked until this plugin is allowed to see which project each tab is in, on Settings \u{2192} Plugins";

/// The manifest, as a value: what this plugin is and what it needs to be
/// allowed to do, which is to see which project each tab is in and nothing
/// else.
pub fn manifest() -> (manifest: Manifest)
    ensures
        manifest.abi == ABI_VERSION,
        manifest.id@ == "theguriev/worktree"@,
        manifest.name@ == "Worktree"@,
        manifest.description@ == "A mark on every tab whose directory is a git worktree."@,
        manifest.version@ == VERSION@,
        manifest.capabilities@ == seq![Capability::ReadWorkingDirectory],
{
    let mut capabilities: Vec<Capability> = Vec::new();
    capabilities.push(Capability::ReadWorkingDirectory);
    assert(capabilities@ =~= seq![Capability::ReadWorkingDirectory]);
    Manifest {
        abi: ABI_VERSION,
        id: owned("theguriev/worktree"),
        name: owned("Worktree"),
        description: owned("A mark on every tab whose directory is a git worktree."),
        version: owned(VERSION),
        capabilities,
    }
}

/// A line for the host's log.
#[derive(Clone, Debug, PartialEq, Eq)]
pub struct Line {
    /// How loud it is.
    pub level: Level,
    /// What it says.
    pub text: String,
}

/// What one render comes to: the node to hand back, and a line for the log
/// when there is one to say.
#[derive(Debug, PartialEq)]
pub struct Reply {
    /// What to draw on the row.
    pub node: Node,
    /// What to tell the log, if anything.
    pub line: Option<Line>,
}

/// Whether a render is answered with the line about not being allowed to
/// see: it is blind, and the line has not been said since the last build.
pub open spec fn says_blind_line(said: bool, render: Option<Render>) -> bool {
    is_blind_render(render) && !said
}

/// Whether the line has been said, after one more render.
pub open spec fn said_after(said: bool, render: Option<Render>) -> bool {
    said || is_blind_render(render)
}

/// How many times the line is said over `renders`, answered one after
/// another with no build between them, starting from `said`.
pub open spec fn lines_said(said: bool, renders: Seq<Option<Render>>) -> nat
    decreases renders.len(),
{
    if renders.len() == 0 {
        0
    } else {
        (if says_blind_line(said, renders[0]) { 1nat } else { 0nat }) + lines_said(
            said_after(said, renders[0]),
            renders.drop_first(),
        )
    }
}

/// A build: the plugin takes the badge on a row's mark and registers nothing
/// else, and the line about not being allowed goes back to unsaid, because a
/// build is what a person answering a permission causes.
pub fn on_build(said: &mut bool) -> (contribution: Contribution)
    ensures
        *final(said) == false,
        contribution.slot@ == SLOT@,
        contribution.entry@ == ENTRY@,
        contribution.order == ORDER,
{
    *said = false;
    Contribution { slot: owned(SLOT), entry: owned(ENTRY), order: ORDER }
}

/// A render: what to draw on the row, and, the first time since a build that
/// a row arrives with its directory left out, a warning for the log that
/// nothing will be marked until the plugin is allowed to see it.
pub fn on_render(said: &mut bool, render: Option<Render>) -> (reply: Reply)
    ensures
        is_marked(render, SLOT@) ==> (reply.node matches Node::Icon { name, tone } && name@
            == ICON@ && tone == TONE),
        !is_marked(render, SLOT@) ==> reply.node == Node::Empty,
        *final(said) == said_after(*old(said), render),
        reply.line is Some <==> says_blind_line(*old(said), render),
        reply.line matches Some(line) ==> line.level == Level::Warn && line.text@ == BLIND_LINE@,
{
    let blind = match &render {
        Some(render) => is_blind(Some(render)),
        None => is_blind(None),
    };
    let line = if blind && !*said {
        *said = true;
        Some(Line { level: Level::Warn, text: owned(BLIND_LINE) })
    } else {
        None
    };
    let node = badge(render, SLOT);
    Reply { node, line }
}

/// The line is said once per build: over any run of renders with no build
/// between them it is said at most once, and it is said exactly once when it
/// had not been said yet and some row arrives that the plugin may not see.
pub proof fn the_blind_line_is_said_once_per_build(said: bool, renders: Seq<Option<Render>>)
    ensures
        lines_said(said, renders) <= 1,
        lines_said(said, renders) == 1 <==> (!said && exists|index: int|
            0 <= index < renders.len() && is_blind_render(#[trigger] renders[index])),
    decreases renders.len(),
{
    if renders.len() > 0 {
        let rest = renders.drop_first();
        the_blind_line_is_said_once_per_build(said_after(said, renders[0]), rest);
        if said_after(said, renders[0]) {
            the_line_is_not_said_again(rest);
        }
        if !said && !is_blind_render(renders[0]) {
            if exists|index: int| 0 <= index < renders.len() && is_blind_render(#[trigger] renders[index]) {
                let index = choose|index: int|
                    0 <= index < renders.len() && is_blind_render(#[trigger] renders[index]);
                assert(rest[index - 1] == renders[index]);
            }
            if exists|index: int| 0 <= index < rest.len() && is_blind_render(#[trigger] rest[index]) {
                let index = choose|index: int|
                    0 <= index < rest.len() && is_blind_render(#[trigger] rest[index]);
                assert(renders[index + 1] == rest[index]);
            }
        }
    }
}

/// Once the line has been said, no run of renders says it again.
proof fn the_line_is_not_said_again(renders: Seq<Option<Render>>)
    ensures
        lines_said(true, renders) == 0,
    decreases renders.len(),
{
    if renders.len() > 0 {
        the_line_is_not_said_again(renders.drop_first());
    }
}

/// An answer packed the way the host reads it: the pointer in the high 32
/// bits and the length in the low 32.
pub fn pack_answer(pointer: u64, length: u64) -> (packed: i64)
    ensures
        packed == ((pointer << 32u64) | length) as i64,
{
    ((pointer << 32u64) | length) as i64
}

/// The host unpacks what it is handed into the pointer and the length that
/// were packed, whenever each fits in 32 bits, as both do on wasm32.
pub proof fn a_packed_answer_unpacks(pointer: u64, length: u64)
    requires
        pointer < 0x1_0000_0000,
        length < 0x1_0000_0000,
    ensures
        (((pointer << 32u64) | length) as i64) as u64 >> 32u64 == pointer,
        (((pointer << 32u64) | length) as i64) as u64 & 0xffff_ffffu64 == length,
{
    assert((((pointer << 32u64) | length) as i64) as u64 >> 32u64 == pointer) by (bit_vector)
        requires
            pointer < 0x1_0000_0000,
            length < 0x1_0000_0000,
    ;
    assert((((pointer << 32u64) | length) as i64) as u64 & 0xffff_ffffu64 == length) by (bit_vector)
        requires
            length < 0x1_0000_0000,
    ;
}

/// How many bytes to set aside for `length` bytes the host will write: at
/// least one, so that a layout of that size can always be made and freed.
pub fn allocation_size(length: i32) -> (size: usize)
    ensures
        size as int == if length < 1 { 1 } else { length as int },
{
    if length < 1 {
        1
    } else {
        length as usize
    }
}

/// How many bytes the host handed over at `pointer`: none for a pointer that
/// is not one or a length below zero, and `length` otherwise.
pub fn handed_length(pointer: i32, length: i32) -> (handed: Option<usize>)
    ensures
        handed is None <==> (pointer <= 0 || length < 0),
        handed matches Some(handed) ==> handed as int == length as int,
{
    if pointer <= 0 || length < 0 {
        None
    } else {
        Some(length as usize)
    }
}

} // verus!
