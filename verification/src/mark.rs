//! What a row comes to: a mark, or nothing.
//!
//! The whole of the worktree plugin's thinking, and it is one boolean.

use vstd::prelude::*;
use crate::text::owned;
use crate::vocabulary::{Node, Place, Render, Subject, TabFacts, TabInfo, Tone};

verus! {

/// The mark, by the name Crook knows it as: the icon the panel already uses
/// for a branch. Named rather than drawn, so that it is the right weight
/// beside everything else in the window.
pub const ICON: &'static str = "git-branch";

/// Which of the theme's tones the mark takes.
///
/// Accent, because a worktree is not a warning: the mark says "this checkout
/// is the second one", which is worth noticing and nothing to be alarmed by.
pub const TONE: Tone = Tone::Accent;

/// Whether a render is one the mark is drawn on: it asks about `slot`, its
/// subject is a tab, and that tab's directory is a worktree.
pub open spec fn is_marked(render: Option<Render>, slot: Seq<char>) -> bool {
    &&& render matches Some(render)
    &&& render.slot@ == slot
    &&& render.subject matches Some(Subject::Tab(facts))
    &&& facts.place matches Some(place)
    &&& place.worktree
}

/// Whether a render is about a tab whose directory was left out, which is
/// what the host sends a plugin not allowed to see it.
pub open spec fn is_blind_render(render: Option<Render>) -> bool {
    &&& render matches Some(render)
    &&& render.subject matches Some(Subject::Tab(facts))
    &&& facts.place is None
}

/// What to draw on one row.
///
/// Nothing at all unless three things are true: the host is asking about
/// `slot`, the subject is a tab, and that tab's directory is a worktree. A
/// row whose place is left out is a row this plugin was not allowed to see
/// the directory of, and it draws nothing there either.
pub fn badge(render: Option<Render>, slot: &str) -> (node: Node)
    ensures
        is_marked(render, slot@) ==> (node matches Node::Icon { name, tone } && name@ == ICON@
            && tone == TONE),
        !is_marked(render, slot@) ==> node == Node::Empty,
{
    let render = match render {
        Some(render) => render,
        None => return Node::Empty,
    };
    if render.slot != owned(slot) {
        return Node::Empty;
    }
    match render.subject {
        Some(Subject::Tab(facts)) => match facts.place {
            Some(place) => {
                if place.worktree {
                    Node::Icon { name: owned(ICON), tone: TONE }
                } else {
                    Node::Empty
                }
            },
            None => Node::Empty,
        },
        None => Node::Empty,
    }
}

/// Whether this render is one the plugin was not allowed to answer: a tab
/// arrives with its place left out when seeing the working directory was not
/// granted. A tab that simply has no directory yet looks the same.
pub fn is_blind(render: Option<&Render>) -> (blind: bool)
    ensures
        blind == (render matches Some(render) && is_blind_render(Some(*render))),
{
    match render {
        Some(render) => match &render.subject {
            Some(Subject::Tab(facts)) => facts.place.is_none(),
            None => false,
        },
        None => false,
    }
}

/// A row the plugin may not see is a row it says nothing about: whatever
/// slot is asked about, a blind render is never marked.
pub proof fn a_row_it_may_not_see_is_never_marked(render: Option<Render>, slot: Seq<char>)
    requires
        is_blind_render(render),
    ensures
        !is_marked(render, slot),
{
}

/// In the slot it was asked about, a row is marked exactly when its place
/// says it is a worktree: a checkout is never marked, whatever its branch,
/// its directory, its key or what is known of the tab.
pub proof fn a_row_is_marked_exactly_when_it_is_a_worktree(
    slot: String,
    key: u64,
    tab: Option<TabInfo>,
    directory: String,
    branch: Option<String>,
    worktree: bool,
)
    ensures
        is_marked(
            Some(
                Render {
                    slot,
                    subject: Some(
                        Subject::Tab(
                            TabFacts { key, tab, place: Some(Place { directory, branch, worktree }) },
                        ),
                    ),
                },
            ),
            slot@,
        ) == worktree,
{
}

/// Nothing else is ever marked: no render, a render about another slot, a
/// render about nothing, and a tab whose place was left out.
pub proof fn nothing_but_a_worktree_row_is_marked(render: Render, slot: Seq<char>)
    ensures
        !is_marked(None, slot),
        render.slot@ != slot ==> !is_marked(Some(render), slot),
        render.subject is None ==> !is_marked(Some(render), slot),
        (render.subject matches Some(Subject::Tab(facts)) && facts.place is None) ==> !is_marked(
            Some(render),
            slot,
        ),
{
}

/// A row whose directory the plugin was shown is never blind, whatever the
/// directory is and whether or not it is in a repository at all.
pub proof fn a_row_with_a_place_is_never_blind(
    slot: String,
    key: u64,
    tab: Option<TabInfo>,
    place: Place,
)
    ensures
        !is_blind_render(
            Some(
                Render {
                    slot,
                    subject: Some(Subject::Tab(TabFacts { key, tab, place: Some(place) })),
                },
            ),
        ),
{
}

/// A tab whose place was left out is blind, whatever else is said of it.
pub proof fn a_row_without_a_place_is_blind(slot: String, key: u64, tab: Option<TabInfo>)
    ensures
        is_blind_render(
            Some(Render { slot, subject: Some(Subject::Tab(TabFacts { key, tab, place: None })) }),
        ),
{
}

/// Only a tab can be blind: no render, and a render about nothing, are not.
pub proof fn only_a_tab_can_be_blind(render: Render)
    ensures
        !is_blind_render(None),
        render.subject is None ==> !is_blind_render(Some(render)),
{
}

} // verus!
