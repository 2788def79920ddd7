//! What a permission dialog says about a capability, and how a grant of one
//! is written down.

use vstd::prelude::*;
use crate::text::owned;
use crate::vocabulary::Capability;

verus! {

/// `items` said one after another, with `", "` between each two of them.
pub open spec fn comma_list(items: Seq<Seq<char>>) -> Seq<char>
    decreases items.len(),
{
    if items.len() == 0 {
        Seq::empty()
    } else if items.len() == 1 {
        items[0]
    } else {
        comma_list(items.drop_last()) + ", "@ + items.last()
    }
}

/// Whether a path ends in `/**`, which is everything under a directory.
pub open spec fn is_everything_under(path: Seq<char>) -> bool {
    &&& path.len() >= 3
    &&& path[path.len() - 3] == '/'
    &&& path[path.len() - 2] == '*'
    &&& path[path.len() - 1] == '*'
}

/// A granted path as a person reads it: `everything under <directory>` for a
/// path ending in `/**`, and the path itself otherwise.
pub open spec fn spoken_path(path: Seq<char>) -> Seq<char> {
    if is_everything_under(path) {
        "everything under "@ + path.subrange(0, path.len() - 3)
    } else {
        path
    }
}

/// What each string in `items` says.
pub open spec fn views_of(items: Seq<String>) -> Seq<Seq<char>> {
    items.map_values(|item: String| item@)
}

/// The sentence the permission dialog says for a capability.
pub open spec fn sentence_of(capability: Capability) -> Seq<char> {
    match capability {
        Capability::ReadSettings => "Read your settings"@,
        Capability::ReadTabs => "See what your tabs are called"@,
        Capability::ReadWorkingDirectory => "See which project each tab is in"@,
        Capability::Network(hosts) => "Reach "@ + comma_list(views_of(hosts@)),
        Capability::Clipboard => "Read and change your clipboard"@,
        Capability::Storage => "Keep notes of its own between sessions"@,
        Capability::ReadFiles(paths) => "Read "@ + comma_list(
            views_of(paths@).map_values(|path: Seq<char>| spoken_path(path)),
        ),
        Capability::WatchCommands => "Know when a command finishes"@,
        Capability::WatchBells => "Know when a pane rings its bell"@,
    }
}

/// Each of `items` with `prefix` in front of it.
pub open spec fn prefixed(prefix: Seq<char>, items: Seq<String>) -> Seq<Seq<char>> {
    items.map_values(|item: String| prefix + item@)
}

/// The keys a grant of a capability is written down as, one per thing
/// granted.
pub open spec fn keys_of(capability: Capability) -> Seq<Seq<char>> {
    match capability {
        Capability::ReadSettings => seq!["settings.read"@],
        Capability::ReadTabs => seq!["tabs.read"@],
        Capability::ReadWorkingDirectory => seq!["cwd.read"@],
        Capability::Network(hosts) => prefixed("net:"@, hosts@),
        Capability::Clipboard => seq!["clipboard"@],
        Capability::Storage => seq!["storage"@],
        Capability::ReadFiles(paths) => prefixed("file:"@, paths@),
        Capability::WatchCommands => seq!["commands.watch"@],
        Capability::WatchBells => seq!["bells.watch"@],
    }
}

/// How the comma list of the first `count + 1` items grows out of the list of
/// the first `count`.
proof fn lemma_comma_list_grows(items: Seq<Seq<char>>, count: int)
    requires
        0 <= count < items.len(),
    ensures
        comma_list(items.take(count + 1)) == if count == 0 {
            items[0]
        } else {
            comma_list(items.take(count)) + ", "@ + items[count]
        },
{
    assert(items.take(count + 1).drop_last() =~= items.take(count));
}

/// Whether a character is a capital letter.
pub open spec fn is_capital(letter: char) -> bool {
    'A' <= letter && letter <= 'Z'
}

/// Which of the capabilities this is, by its place in the list of them.
pub open spec fn kind_of(capability: Capability) -> int {
    match capability {
        Capability::ReadSettings => 0,
        Capability::ReadTabs => 1,
        Capability::ReadWorkingDirectory => 2,
        Capability::Network(_) => 3,
        Capability::Clipboard => 4,
        Capability::Storage => 5,
        Capability::ReadFiles(_) => 6,
        Capability::WatchCommands => 7,
        Capability::WatchBells => 8,
    }
}

/// How many separate things a capability grants: one per host, one per
/// path, and one for each of the others.
pub open spec fn things_granted(capability: Capability) -> nat {
    match capability {
        Capability::Network(hosts) => hosts@.len(),
        Capability::ReadFiles(paths) => paths@.len(),
        _ => 1,
    }
}

/// The host or path the key at `index` grants, for a capability that is a
/// list; nothing for the others.
pub open spec fn thing_granted(capability: Capability, index: int) -> Seq<char> {
    match capability {
        Capability::Network(hosts) => hosts@[index]@,
        Capability::ReadFiles(paths) => paths@[index]@,
        _ => Seq::empty(),
    }
}

/// Every capability says what it is in a sentence: never nothing, and
/// starting with a capital letter, because the dialog reads "This plugin
/// wants to: <sentence>".
pub proof fn every_capability_reads_as_a_sentence(capability: Capability)
    ensures
        sentence_of(capability).len() > 0,
        is_capital(sentence_of(capability)[0]),
{
    reveal_strlit("Read your settings");
    reveal_strlit("See what your tabs are called");
    reveal_strlit("See which project each tab is in");
    reveal_strlit("Reach ");
    reveal_strlit("Read and change your clipboard");
    reveal_strlit("Keep notes of its own between sessions");
    reveal_strlit("Read ");
    reveal_strlit("Know when a command finishes");
    reveal_strlit("Know when a pane rings its bell");
}

/// A grant is written down one thing at a time: a key per host, a key per
/// path, and exactly one key for each of the others, so every capability
/// answers with something a person can allow.
pub proof fn a_grant_is_one_key_per_thing(capability: Capability)
    ensures
        keys_of(capability).len() == things_granted(capability),
{
}

/// The key at each position names the host or path at that position, behind
/// the prefix of its kind, and there is one key for each of them.
pub proof fn each_key_names_its_host_or_path(hosts: Vec<String>, paths: Vec<String>)
    ensures
        keys_of(Capability::Network(hosts)).len() == hosts@.len(),
        forall|index: int|
            0 <= index < hosts@.len() ==> #[trigger] keys_of(Capability::Network(hosts))[index]
                == "net:"@ + hosts@[index]@,
        keys_of(Capability::ReadFiles(paths)).len() == paths@.len(),
        forall|index: int|
            0 <= index < paths@.len() ==> #[trigger] keys_of(Capability::ReadFiles(paths))[index]
                == "file:"@ + paths@[index]@,
{
}

/// A key names one grant and nothing else: two keys that are equal come
/// from the same capability and, for a list of hosts or paths, from the same
/// host or path. So allowing one host is never allowing another.
pub proof fn a_key_names_one_grant(first: Capability, i: int, second: Capability, j: int)
    requires
        0 <= i < keys_of(first).len(),
        0 <= j < keys_of(second).len(),
        keys_of(first)[i] == keys_of(second)[j],
    ensures
        kind_of(first) == kind_of(second),
        thing_granted(first, i) == thing_granted(second, j),
{
    reveal_strlit("settings.read");
    reveal_strlit("tabs.read");
    reveal_strlit("cwd.read");
    reveal_strlit("net:");
    reveal_strlit("clipboard");
    reveal_strlit("storage");
    reveal_strlit("file:");
    reveal_strlit("commands.watch");
    reveal_strlit("bells.watch");
    let key = keys_of(first)[i];
    assert(key[0] == keys_of(second)[j][0]);
    assert(key[1] == keys_of(second)[j][1]);
    match (first, second) {
        (Capability::Network(hosts), Capability::Network(others)) => {
            assert(hosts@[i]@ =~= key.subrange(4, key.len() as int));
            assert(others@[j]@ =~= key.subrange(4, key.len() as int));
        },
        (Capability::ReadFiles(paths), Capability::ReadFiles(others)) => {
            assert(paths@[i]@ =~= key.subrange(5, key.len() as int));
            assert(others@[j]@ =~= key.subrange(5, key.len() as int));
        },
        _ => {},
    }
}

/// A host added to a network capability asks for a key that was not granted
/// before, and a host that was already there asks for none that is new.
pub proof fn a_new_host_is_asked_about_anew(hosts: Vec<String>, host: String)
    ensures
        keys_of(Capability::Network(hosts)).contains("net:"@ + host@) <==> views_of(hosts@).contains(
            host@,
        ),
{
    let keys = keys_of(Capability::Network(hosts));
    if keys.contains("net:"@ + host@) {
        let index = choose|index: int| 0 <= index < keys.len() && keys[index] == "net:"@ + host@;
        assert(host@ =~= ("net:"@ + host@).subrange(4, ("net:"@ + host@).len() as int)) by {
            reveal_strlit("net:");
        }
        assert(hosts@[index]@ =~= keys[index].subrange(4, keys[index].len() as int)) by {
            reveal_strlit("net:");
        }
        assert(views_of(hosts@)[index] == host@);
    }
    if views_of(hosts@).contains(host@) {
        let index = choose|index: int|
            0 <= index < views_of(hosts@).len() && views_of(hosts@)[index] == host@;
        assert(keys[index] == "net:"@ + host@);
    }
}

/// Where the item at `index` starts in a list said with `", "` between its
/// items: the length of every item before it, and two for each separator.
pub open spec fn said_offset(items: Seq<Seq<char>>, index: int) -> int
    decreases index,
{
    if index <= 0 {
        0
    } else {
        said_offset(items, index - 1) + items[index - 1].len() + 2
    }
}

/// How long a list said with `", "` between its items is.
pub open spec fn said_length(items: Seq<Seq<char>>) -> int {
    if items.len() == 0 {
        0
    } else {
        said_offset(items, items.len() - 1) + items.last().len()
    }
}

/// Offsets only grow along a list, by at least the item and its separator.
proof fn lemma_said_offset_grows(items: Seq<Seq<char>>, i: int, j: int)
    requires
        0 <= i < j <= items.len(),
    ensures
        said_offset(items, i) + items[i].len() + 2 <= said_offset(items, j),
    decreases j - i,
{
    if j > i + 1 {
        lemma_said_offset_grows(items, i, j - 1);
    }
}

/// No offset is below zero.
proof fn lemma_said_offset_not_negative(items: Seq<Seq<char>>, index: int)
    ensures
        said_offset(items, index) >= 0,
        index > 0 ==> said_offset(items, index) >= 2,
    decreases index,
{
    if index > 0 {
        lemma_said_offset_not_negative(items, index - 1);
    }
}

/// Every item of a list said with separators lies inside it, past a
/// separator when it is not the first.
proof fn lemma_said_item_bounds(items: Seq<Seq<char>>, index: int)
    requires
        0 <= index < items.len(),
    ensures
        0 <= said_offset(items, index),
        index > 0 ==> said_offset(items, index) >= 2,
        said_offset(items, index) + items[index].len() <= said_length(items),
{
    lemma_said_offset_not_negative(items, index);
    if index < items.len() - 1 {
        lemma_said_offset_grows(items, index, items.len() - 1);
    }
}

/// Dropping the last item moves none of the others.
proof fn lemma_said_offset_without_last(items: Seq<Seq<char>>, index: int)
    requires
        0 <= index < items.len(),
    ensures
        said_offset(items.drop_last(), index) == said_offset(items, index),
    decreases index,
{
    if index > 0 {
        lemma_said_offset_without_last(items, index - 1);
    }
}

/// A comma list holds each item at its offset, a `", "` just before every
/// item but the first, and nothing after the last.
proof fn lemma_comma_list_layout(items: Seq<Seq<char>>)
    ensures
        comma_list(items).len() == said_length(items),
        forall|index: int|
            0 <= index < items.len() ==> #[trigger] comma_list(items).subrange(
                said_offset(items, index),
                said_offset(items, index) + items[index].len(),
            ) == items[index],
        forall|index: int|
            0 < index < items.len() ==> #[trigger] comma_list(items).subrange(
                said_offset(items, index) - 2,
                said_offset(items, index),
            ) == ", "@,
    decreases items.len(),
{
    reveal_strlit(", ");
    let list = comma_list(items);
    if items.len() == 0 {
    } else if items.len() == 1 {
        assert(list.subrange(0, items[0].len() as int) =~= items[0]);
    } else {
        let rest = items.drop_last();
        let last = items.len() - 1;
        lemma_comma_list_layout(rest);
        let head = comma_list(rest);
        assert(list == head + ", "@ + items.last());
        lemma_said_offset_without_last(items, last - 1);
        assert(said_offset(items, last) == head.len() + 2);
        assert forall|index: int| 0 <= index < items.len() implies #[trigger] list.subrange(
            said_offset(items, index),
            said_offset(items, index) + items[index].len(),
        ) == items[index] by {
            if index < last {
                lemma_said_offset_without_last(items, index);
                lemma_said_item_bounds(rest, index);
                let start = said_offset(items, index);
                let end = start + items[index].len();
                assert(head.subrange(start, end) == rest[index]);
                assert(list.subrange(start, end) =~= head.subrange(start, end));
            } else {
                assert(list.subrange(head.len() + 2int, list.len() as int) =~= items.last());
            }
        }
        assert forall|index: int| 0 < index < items.len() implies #[trigger] list.subrange(
            said_offset(items, index) - 2,
            said_offset(items, index),
        ) == ", "@ by {
            if index < last {
                lemma_said_offset_without_last(items, index);
                lemma_said_item_bounds(rest, index);
                let end = said_offset(items, index);
                assert(head.subrange(end - 2, end) == ", "@);
                assert(list.subrange(end - 2, end) =~= head.subrange(end - 2, end));
            } else {
                assert(list.subrange(head.len() as int, head.len() + 2int) =~= ", "@);
            }
        }
    }
}

/// A network capability is said as "Reach " and then every host, in the
/// order they were asked for, each at its place and with ", " before each
/// but the first, and nothing else: no host is left out of the dialog.
pub proof fn a_network_sentence_says_every_host_in_order(hosts: Vec<String>)
    ensures
        ({
            let sentence = sentence_of(Capability::Network(hosts));
            let start = "Reach "@.len();
            let items = hosts@.map_values(|host: String| host@);
            &&& sentence.subrange(0, start as int) == "Reach "@
            &&& sentence.len() == start + said_length(items)
            &&& forall|index: int|
                0 <= index < hosts@.len() ==> #[trigger] sentence.subrange(
                    start + said_offset(items, index),
                    start + said_offset(items, index) + items[index].len(),
                ) == hosts@[index]@
            &&& forall|index: int|
                0 < index < hosts@.len() ==> #[trigger] sentence.subrange(
                    start + said_offset(items, index) - 2,
                    start + said_offset(items, index),
                ) == ", "@
        }),
{
    let items = hosts@.map_values(|host: String| host@);
    assert(items =~= views_of(hosts@));
    said_after_a_prefix("Reach "@, items);
    assert forall|index: int| 0 <= index < hosts@.len() implies #[trigger] items[index]
        == hosts@[index]@ by {}
}

/// A file capability is said as "Read " and then every path, in order, each
/// at its place with ", " before each but the first: a path ending in `/**`
/// as "everything under" the directory in front of it, wherever it stands in
/// the list, and any other path as written.
pub proof fn a_file_sentence_says_every_path_in_order(paths: Vec<String>)
    ensures
        ({
            let sentence = sentence_of(Capability::ReadFiles(paths));
            let start = "Read "@.len();
            let items = paths@.map_values(
                |path: String|
                    if is_everything_under(path@) {
                        "everything under "@ + path@.subrange(0, path@.len() - 3)
                    } else {
                        path@
                    },
            );
            &&& sentence.subrange(0, start as int) == "Read "@
            &&& sentence.len() == start + said_length(items)
            &&& forall|index: int|
                0 <= index < paths@.len() ==> #[trigger] sentence.subrange(
                    start + said_offset(items, index),
                    start + said_offset(items, index) + items[index].len(),
                ) == if is_everything_under(paths@[index]@) {
                    "everything under "@ + paths@[index]@.subrange(0, paths@[index]@.len() - 3)
                } else {
                    paths@[index]@
                }
            &&& forall|index: int|
                0 < index < paths@.len() ==> #[trigger] sentence.subrange(
                    start + said_offset(items, index) - 2,
                    start + said_offset(items, index),
                ) == ", "@
        }),
{
    let items = paths@.map_values(
        |path: String|
            if is_everything_under(path@) {
                "everything under "@ + path@.subrange(0, path@.len() - 3)
            } else {
                path@
            },
    );
    assert(items =~= views_of(paths@).map_values(|path: Seq<char>| spoken_path(path)));
    said_after_a_prefix("Read "@, items);
}

/// A comma list after a prefix keeps the prefix in front and every item of
/// the list at its offset past it.
proof fn said_after_a_prefix(prefix: Seq<char>, items: Seq<Seq<char>>)
    ensures
        ({
            let sentence = prefix + comma_list(items);
            let start = prefix.len();
            &&& sentence.subrange(0, start as int) == prefix
            &&& sentence.len() == start + said_length(items)
            &&& forall|index: int|
                0 <= index < items.len() ==> #[trigger] sentence.subrange(
                    start + said_offset(items, index),
                    start + said_offset(items, index) + items[index].len(),
                ) == items[index]
            &&& forall|index: int|
                0 < index < items.len() ==> #[trigger] sentence.subrange(
                    start + said_offset(items, index) - 2,
                    start + said_offset(items, index),
                ) == ", "@
        }),
{
    lemma_comma_list_layout(items);
    let list = comma_list(items);
    let sentence = prefix + list;
    let start = prefix.len();
    assert(sentence.subrange(0, start as int) =~= prefix);
    assert forall|index: int| 0 <= index < items.len() implies #[trigger] sentence.subrange(
        start + said_offset(items, index),
        start + said_offset(items, index) + items[index].len(),
    ) == items[index] by {
        lemma_said_item_bounds(items, index);
        let from = said_offset(items, index);
        let to = from + items[index].len();
        assert(list.subrange(from, to) == items[index]);
        assert(sentence.subrange(start + from, start + to) =~= list.subrange(from, to));
    }
    assert forall|index: int| 0 < index < items.len() implies #[trigger] sentence.subrange(
        start + said_offset(items, index) - 2,
        start + said_offset(items, index),
    ) == ", "@ by {
        lemma_said_item_bounds(items, index);
        let to = said_offset(items, index);
        assert(list.subrange(to - 2, to) == ", "@);
        assert(sentence.subrange(start + to - 2, start + to) =~= list.subrange(to - 2, to));
    }
}

/// The directory a path names everything under, when it ends in `/**`.
fn directory_under(path: &str) -> (directory: Option<&str>)
    ensures
        directory is Some <==> is_everything_under(path@),
        directory matches Some(directory) ==> directory@ == path@.subrange(0, path@.len() - 3),
{
    let length = path.unicode_len();
    if length >= 3 && path.get_char(length - 3) == '/' && path.get_char(length - 2) == '*'
        && path.get_char(length - 1) == '*' {
        Some(path.substring_char(0, length - 3))
    } else {
        None
    }
}

/// Each of `items` with `prefix` in front of it, as new strings.
fn prefix_each(prefix: &str, items: &Vec<String>) -> (keys: Vec<String>)
    ensures
        keys@.len() == items@.len(),
        forall|index: int| 0 <= index < keys@.len() ==> #[trigger] keys@[index]@ == prefix@ + items@[index]@,
{
    let mut keys: Vec<String> = Vec::new();
    let mut index: usize = 0;
    while index < items.len()
        invariant
            index <= items@.len(),
            keys@.len() == index,
            forall|done: int| 0 <= done < index ==> #[trigger] keys@[done]@ == prefix@ + items@[done]@,
        decreases items@.len() - index,
    {
        let mut key = owned(prefix);
        key.append(items[index].as_str());
        keys.push(key);
        index = index + 1;
    }
    keys
}

/// A single key.
fn one_key(key: &str) -> (keys: Vec<String>)
    ensures
        keys@.len() == 1,
        keys@[0]@ == key@,
{
    let mut keys: Vec<String> = Vec::new();
    keys.push(owned(key));
    keys
}

impl Capability {
    /// The sentence a permission dialog says.
    ///
    /// A list of hosts or paths is said in order with `", "` between them,
    /// and a path ending in `/**` is said as `everything under` the
    /// directory in front of it, because a person reading a permission
    /// dialog should not have to know what two stars mean.
    pub fn sentence(&self) -> (sentence: String)
        ensures
            sentence@ == sentence_of(*self),
    {
        match self {
            Capability::ReadSettings => owned("Read your settings"),
            Capability::ReadTabs => owned("See what your tabs are called"),
            Capability::ReadWorkingDirectory => owned("See which project each tab is in"),
            Capability::Network(hosts) => {
                let ghost items = views_of(hosts@);
                let mut sentence = owned("Reach ");
                let mut index: usize = 0;
                while index < hosts.len()
                    invariant
                        index <= hosts@.len(),
                        items == views_of(hosts@),
                        sentence@ == "Reach "@ + comma_list(items.take(index as int)),
                    decreases hosts@.len() - index,
                {
                    proof {
                        lemma_comma_list_grows(items, index as int);
                    }
                    if index > 0 {
                        sentence.append(", ");
                    }
                    sentence.append(hosts[index].as_str());
                    assert(sentence@ =~= "Reach "@ + comma_list(items.take(index + 1)));
                    index = index + 1;
                }
                assert(items.take(hosts@.len() as int) =~= items);
                sentence
            },
            Capability::Clipboard => owned("Read and change your clipboard"),
            Capability::Storage => owned("Keep notes of its own between sessions"),
            Capability::ReadFiles(paths) => {
                let ghost items = views_of(paths@).map_values(
                    |path: Seq<char>| spoken_path(path),
                );
                let mut sentence = owned("Read ");
                let mut index: usize = 0;
                while index < paths.len()
                    invariant
                        index <= paths@.len(),
                        items == views_of(paths@).map_values(|path: Seq<char>| spoken_path(path)),
                        sentence@ == "Read "@ + comma_list(items.take(index as int)),
                    decreases paths@.len() - index,
                {
                    proof {
                        lemma_comma_list_grows(items, index as int);
                    }
                    if index > 0 {
                        sentence.append(", ");
                    }
                    let path = paths[index].as_str();
                    match directory_under(path) {
                        Some(directory) => {
                            sentence.append("everything under ");
                            sentence.append(directory);
                        },
                        None => sentence.append(path),
                    }
                    assert(sentence@ =~= "Read "@ + comma_list(items.take(index + 1)));
                    index = index + 1;
                }
                assert(items.take(paths@.len() as int) =~= items);
                sentence
            },
            Capability::WatchCommands => owned("Know when a command finishes"),
            Capability::WatchBells => owned("Know when a pane rings its bell"),
        }
    }

    /// What granting this is written down as, one string per thing granted.
    ///
    /// One key per host and per path, so that allowing one host is not
    /// allowing whatever a later version adds beside it: a plugin that adds a
    /// host asks for a key that is not in what a person allowed.
    pub fn keys(&self) -> (keys: Vec<String>)
        ensures
            keys@.len() == keys_of(*self).len(),
            forall|index: int| 0 <= index < keys@.len() ==> #[trigger] keys@[index]@ == keys_of(*self)[index],
    {
        match self {
            Capability::ReadSettings => one_key("settings.read"),
            Capability::ReadTabs => one_key("tabs.read"),
            Capability::ReadWorkingDirectory => one_key("cwd.read"),
            Capability::Network(hosts) => prefix_each("net:", hosts),
            Capability::Clipboard => one_key("clipboard"),
            Capability::Storage => one_key("storage"),
            Capability::ReadFiles(paths) => prefix_each("file:", paths),
            Capability::WatchCommands => one_key("commands.watch"),
            Capability::WatchBells => one_key("bells.watch"),
        }
    }
}

} // verus!
