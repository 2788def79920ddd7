use crook_plugin::plugin::{
    allocation_size, handed_length, manifest, on_build, on_render, pack_answer, BLIND_LINE,
    ENTRY, ORDER, SLOT,
};
use crook_plugin::sys::Level;
use crook_plugin::vocabulary::{
    Capability, Gap, Node, Place, Registered, Render, Size, Status, Subject, TabFacts, Tone,
    ABI_VERSION,
};

fn row(place: Option<Place>) -> Option<Render> {
    Some(Render {
        slot: String::from(SLOT),
        subject: Some(Subject::Tab(TabFacts {
            key: 7,
            tab: None,
            place,
        })),
    })
}

fn worktree() -> Option<Place> {
    Some(Place {
        directory: String::from("/home/somebody/work/crook-2"),
        branch: Some(String::from("feature")),
        worktree: true,
    })
}

#[test]
fn it_asks_for_the_one_thing_it_needs_and_nothing_else() {
    let capabilities = manifest().capabilities;

    assert_eq!(capabilities, vec![Capability::ReadWorkingDirectory]);
    assert_eq!(
        capabilities[0].sentence(),
        "See which project each tab is in",
        "the sentence a person is asked to agree to has changed"
    );
    assert_eq!(manifest().abi, ABI_VERSION);
    assert_eq!(manifest().id, "theguriev/worktree");
}

#[test]
fn the_manifest_says_what_the_plugin_is() {
    let manifest = manifest();
    assert_eq!(manifest.name, "Worktree");
    assert_eq!(
        manifest.description,
        "A mark on every tab whose directory is a git worktree."
    );
    assert_eq!(manifest.version, "0.1.0");
    assert_eq!(ABI_VERSION, 4);
}

#[test]
fn a_build_takes_the_badge_and_forgets_what_was_said() {
    let mut said = true;
    let contribution = on_build(&mut said);
    assert!(!said);
    assert_eq!(contribution.slot, "tab.row.badge");
    assert_eq!(contribution.entry, "worktree");
    assert_eq!(contribution.order, 0);
    assert_eq!((SLOT, ENTRY, ORDER), ("tab.row.badge", "worktree", 0));
}

#[test]
fn the_blind_line_is_said_once_a_build() {
    let mut said = false;
    on_build(&mut said);

    let first = on_render(&mut said, row(None));
    assert_eq!(first.node, Node::Empty);
    let line = first.line.expect("the first blind row is said");
    assert_eq!(line.level, Level::Warn);
    assert_eq!(
        line.text,
        "nothing will be marked until this plugin is allowed to see which project each tab \
         is in, on Settings \u{2192} Plugins"
    );
    assert_eq!(line.text, BLIND_LINE);
    assert!(said);

    let second = on_render(&mut said, row(None));
    assert_eq!(second.node, Node::Empty);
    assert!(second.line.is_none());

    // Forbidding it again after a build says it once more.
    on_build(&mut said);
    assert!(on_render(&mut said, row(None)).line.is_some());
}

#[test]
fn a_row_it_may_see_is_drawn_and_said_nothing_about() {
    let mut said = false;
    let reply = on_render(&mut said, row(worktree()));
    assert_eq!(
        reply.node,
        Node::Icon {
            name: String::from("git-branch"),
            tone: Tone::Accent,
        }
    );
    assert!(reply.line.is_none());
    assert!(!said);

    let reply = on_render(&mut said, None);
    assert_eq!(reply.node, Node::Empty);
    assert!(reply.line.is_none());
}

#[test]
fn an_answer_is_packed_pointer_high_length_low() {
    assert_eq!(pack_answer(0, 0), 0);
    assert_eq!(pack_answer(1, 2), (1i64 << 32) | 2);
    assert_eq!(pack_answer(0x1234, 0x10), 0x0000_1234_0000_0010);
    let packed = pack_answer(0xffff_ffff, 0xffff_ffff) as u64;
    assert_eq!(packed >> 32, 0xffff_ffff);
    assert_eq!(packed & 0xffff_ffff, 0xffff_ffff);
}

#[test]
fn an_allocation_is_never_of_nothing() {
    assert_eq!(allocation_size(0), 1);
    assert_eq!(allocation_size(-5), 1);
    assert_eq!(allocation_size(1), 1);
    assert_eq!(allocation_size(300), 300);
}

#[test]
fn only_real_handovers_are_read() {
    assert_eq!(handed_length(0, 10), None);
    assert_eq!(handed_length(-4, 10), None);
    assert_eq!(handed_length(16, -1), None);
    assert_eq!(handed_length(16, 0), Some(0));
    assert_eq!(handed_length(16, 42), Some(42));
}

#[test]
fn a_level_is_told_to_the_host_by_number() {
    assert_eq!(Level::Error.code(), 1);
    assert_eq!(Level::Warn.code(), 2);
    assert_eq!(Level::Info.code(), 3);
}

#[test]
fn the_defaults_are_the_ordinary_ones() {
    assert_eq!(Status::default(), Status::Idle);
    assert_eq!(Tone::default(), Tone::Primary);
    assert_eq!(Size::default(), Size::Body);
    assert_eq!(Gap::default(), Gap::Medium);
    let registered = Registered::default();
    assert!(registered.contributions.is_empty());
    assert!(registered.actions.is_empty());
}

#[test]
fn sentences_and_keys_agree_with_what_is_granted() {
    // One key per host, the key being the host behind its prefix.
    let hosts = vec![String::from("a.example"), String::from("b.example")];
    let keys = Capability::Network(hosts.clone()).keys();
    assert_eq!(keys.len(), hosts.len());
    for (key, host) in keys.iter().zip(hosts.iter()) {
        assert_eq!(key, &format!("net:{host}"));
    }
}
