use crook_plugin::vocabulary::Capability;

#[test]
fn every_capability_says_what_it_is_in_a_sentence() {
    // The permission dialog prints these and nothing else, so a capability
    // whose sentence is empty is a capability nobody can refuse on purpose.
    for capability in [
        Capability::ReadSettings,
        Capability::ReadTabs,
        Capability::ReadWorkingDirectory,
        Capability::Network(vec!["api.github.com".into(), "example.invalid".into()]),
        Capability::Clipboard,
        Capability::Storage,
        Capability::ReadFiles(vec!["~/.agent/.credentials.json".into()]),
        Capability::WatchCommands,
        Capability::WatchBells,
    ] {
        let sentence = capability.sentence();
        assert!(!sentence.is_empty(), "{capability:?} says nothing");
        // And it is a phrase rather than a name: the dialog reads "This
        // plugin wants to: <sentence>".
        assert!(
            sentence.chars().next().is_some_and(char::is_uppercase),
            "{sentence:?} does not read as a sentence"
        );
    }

    assert_eq!(
        Capability::Network(vec!["api.github.com".into(), "example.invalid".into()]).sentence(),
        "Reach api.github.com, example.invalid"
    );
}

#[test]
fn a_grant_is_written_down_one_thing_at_a_time() {
    // The point of a key per host rather than per capability: allowing one
    // host today is not allowing whatever the next version puts beside it.
    assert_eq!(
        Capability::Network(vec!["api.anthropic.com".into(), "example.invalid".into()]).keys(),
        vec![
            String::from("net:api.anthropic.com"),
            String::from("net:example.invalid"),
        ]
    );
    assert_eq!(
        Capability::ReadFiles(vec!["~/.agent/.credentials.json".into()]).keys(),
        vec![String::from("file:~/.agent/.credentials.json")]
    );

    // And every capability answers with something, or a plugin asking for it
    // could never be granted.
    for capability in [
        Capability::ReadSettings,
        Capability::ReadTabs,
        Capability::ReadWorkingDirectory,
        Capability::Clipboard,
        Capability::Storage,
    ] {
        assert_eq!(capability.keys().len(), 1, "{capability:?}");
    }
}

#[test]
fn each_fixed_capability_has_its_own_sentence() {
    assert_eq!(Capability::ReadSettings.sentence(), "Read your settings");
    assert_eq!(Capability::ReadTabs.sentence(), "See what your tabs are called");
    assert_eq!(
        Capability::ReadWorkingDirectory.sentence(),
        "See which project each tab is in"
    );
    assert_eq!(Capability::Clipboard.sentence(), "Read and change your clipboard");
    assert_eq!(Capability::Storage.sentence(), "Keep notes of its own between sessions");
    assert_eq!(Capability::WatchCommands.sentence(), "Know when a command finishes");
    assert_eq!(Capability::WatchBells.sentence(), "Know when a pane rings its bell");
}

#[test]
fn a_directory_of_files_is_said_as_what_it_is() {
    let capability = Capability::ReadFiles(vec![
        "~/.agent/.credentials.json".into(),
        "~/.agent/projects/**".into(),
    ]);
    assert_eq!(
        capability.sentence(),
        "Read ~/.agent/.credentials.json, everything under ~/.agent/projects"
    );
    // The key keeps the pattern as written: it is what was granted.
    assert_eq!(
        capability.keys(),
        vec![
            String::from("file:~/.agent/.credentials.json"),
            String::from("file:~/.agent/projects/**"),
        ]
    );
}

#[test]
fn two_stars_alone_are_everything_under_nothing_named() {
    assert_eq!(Capability::ReadFiles(vec!["/**".into()]).sentence(), "Read everything under ");
    assert_eq!(Capability::ReadFiles(vec!["**".into()]).sentence(), "Read **");
    assert_eq!(Capability::ReadFiles(vec!["a/*".into()]).sentence(), "Read a/*");
}

#[test]
fn an_empty_list_still_reads_as_a_sentence() {
    assert_eq!(Capability::Network(vec![]).sentence(), "Reach ");
    assert_eq!(Capability::ReadFiles(vec![]).sentence(), "Read ");
    assert!(Capability::Network(vec![]).keys().is_empty());
}

#[test]
fn the_remaining_capabilities_are_written_down_by_name() {
    assert_eq!(Capability::ReadSettings.keys(), vec![String::from("settings.read")]);
    assert_eq!(Capability::ReadTabs.keys(), vec![String::from("tabs.read")]);
    assert_eq!(Capability::ReadWorkingDirectory.keys(), vec![String::from("cwd.read")]);
    assert_eq!(Capability::Clipboard.keys(), vec![String::from("clipboard")]);
    assert_eq!(Capability::Storage.keys(), vec![String::from("storage")]);
    assert_eq!(Capability::WatchCommands.keys(), vec![String::from("commands.watch")]);
    assert_eq!(Capability::WatchBells.keys(), vec![String::from("bells.watch")]);
}

#[test]
fn a_new_host_asks_for_a_key_that_was_not_granted() {
    let before = Capability::Network(vec!["api.anthropic.com".into()]).keys();
    let after =
        Capability::Network(vec!["api.anthropic.com".into(), "example.invalid".into()]).keys();
    let new: Vec<&String> = after.iter().filter(|key| !before.contains(key)).collect();
    assert_eq!(new, vec![&String::from("net:example.invalid")]);
}
