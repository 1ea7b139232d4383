//! Keeping the choices made in the installer across updates.
//!
//! The client's package offers choices: the network (`jura` or `rotsee`) and
//! the log level (`info` or `debug`). An installation by hand records what was
//! chosen, and links the configuration to that of the chosen network. Run from
//! the command line, as the updater runs it, the installer takes the package's
//! defaults instead, which would flip a `rotsee` installation to `jura`. So
//! the updater detects the installed choices and pins them.

use vstd::prelude::*;
use vstd::string::{StrSliceExecFns, StringExecFns};

use crate::text::{
    after_prefix, chars_of, is_white_space, law_prefix_comes_off, law_trimming_takes_off_both_ends,
    lemma_one_piece, lemma_pieces_append, lines, lines_of, pieces, same_text, split, strip_prefix, trim, trim_end, trim_start, trimmed,
    without_carriage_return, CharClass,
};

verus! {

/// What was chosen in the installer, as far as it could be told.
#[derive(Debug, PartialEq, Eq)]
pub struct InstallerChoices {
    /// The network that the client is configured for.
    pub network: Option<String>,
    /// The log level chosen at installation.
    pub loglevel: Option<String>,
}

impl Clone for InstallerChoices {
    fn clone(&self) -> (r: InstallerChoices)
        ensures
            r.network.deep_view() == self.network.deep_view(),
            r.loglevel.deep_view() == self.loglevel.deep_view(),
    {
        InstallerChoices {
            network: match &self.network {
                Some(v) => Some(v.clone()),
                None => None,
            },
            loglevel: match &self.loglevel {
                Some(v) => Some(v.clone()),
                None => None,
            },
        }
    }
}

impl Default for InstallerChoices {
    fn default() -> (r: InstallerChoices)
        ensures
            r.network is None,
            r.loglevel is None,
    {
        InstallerChoices { network: None, loglevel: None }
    }
}

/// The networks that the package offers.
pub open spec fn network_ids() -> Seq<Seq<char>> {
    seq!["jura"@, "rotsee"@]
}

/// The log levels that the package offers.
pub open spec fn loglevel_ids() -> Seq<Seq<char>> {
    seq!["info"@, "debug"@]
}

/// Of the parts of a path, the last that names something: empty parts and `.`
/// do not.
pub open spec fn last_named(parts: Seq<Seq<char>>) -> Option<Seq<char>>
    decreases parts.len(),
{
    if parts.len() == 0 {
        None
    } else if parts.last() == ""@ || parts.last() == "."@ {
        last_named(parts.drop_last())
    } else {
        Some(parts.last())
    }
}

/// The name of the file that `path` leads to, if it ends in one.
pub open spec fn file_name(path: Seq<char>) -> Option<Seq<char>> {
    match last_named(pieces(path, CharClass::Only('/'))) {
        Some(name) => if name == ".."@ {
            None
        } else {
            Some(name)
        },
        None => None,
    }
}

/// The place of the last dot in `name`; minus one if there is none.
pub open spec fn last_dot(name: Seq<char>) -> int
    decreases name.len(),
{
    if name.len() == 0 {
        -1
    } else if name.last() == '.' {
        name.len() - 1
    } else {
        last_dot(name.drop_last())
    }
}

/// `name` without its extension. A dot at the very start begins no extension.
pub open spec fn stem(name: Seq<char>) -> Seq<char> {
    if last_dot(name) <= 0 {
        name
    } else {
        name.take(last_dot(name))
    }
}

/// The network that a configuration link to `target` stands for: the name of
/// the file linked to, without its extension.
pub open spec fn linked_network(target: Seq<char>) -> Option<Seq<char>> {
    match file_name(target) {
        Some(name) => Some(stem(name)),
        None => None,
    }
}

/// The name of a configuration's network, from the target of the link to it.
pub fn network_from_symlink(target: &str) -> (r: Option<String>)
    ensures
        r.deep_view() == linked_network(target@),
{
    let parts = split(target, CharClass::Only('/'));
    let ghost all = parts.deep_view();
    let mut n: usize = parts.len();
    assert(all.take(n as int) == all);
    while n > 0 && (parts[n - 1].is_empty() || same_text(parts[n - 1], "."))
        invariant
            n <= parts.len(),
            all == parts.deep_view(),
            last_named(all) == last_named(all.take(n as int)),
        decreases n,
    {
        proof {
            reveal_strlit("");
        }
        assert(parts[n - 1]@ == all[n - 1]);
        assert(parts[n - 1]@.len() == 0 ==> parts[n - 1]@ =~= ""@);
        assert(all.take(n as int).drop_last() == all.take(n - 1));
        n = n - 1;
    }
    if n == 0 {
        return None;
    }
    let name = parts[n - 1];
    proof {
        reveal_strlit("");
        assert(name@ == all[n - 1]);
        assert(all.take(n as int).last() == name@);
    }
    if same_text(name, "..") {
        return None;
    }
    let chars = chars_of(name);
    let mut dot: usize = chars.len();
    assert(name@.take(dot as int) == name@);
    while dot > 0 && chars[dot - 1] != '.'
        invariant
            dot <= chars.len(),
            chars@ == name@,
            last_dot(name@) == last_dot(name@.take(dot as int)),
        decreases dot,
    {
        assert(name@.take(dot as int).drop_last() == name@.take(dot - 1));
        dot = dot - 1;
    }
    if dot <= 1 {
        Some(name.to_owned())
    } else {
        assert(name@.subrange(0, dot - 1) == name@.take(dot - 1));
        Some(name.substring_char(0, dot - 1).to_owned())
    }
}

/// The value that `line` gives to `key`, written `key=value` with or without
/// quotes; nothing if it gives none or an empty one.
pub open spec fn line_choice(line: Seq<char>, key: Seq<char>) -> Option<Seq<char>> {
    match after_prefix(trimmed(line, CharClass::WhiteSpace), key) {
        Some(rest) => match after_prefix(rest, "="@) {
            Some(raw) => {
                let value = trimmed(
                    trimmed(trimmed(raw, CharClass::WhiteSpace), CharClass::Only('"')),
                    CharClass::Only('\''),
                );
                if value.len() > 0 {
                    Some(value)
                } else {
                    None
                }
            },
            None => None,
        },
        None => None,
    }
}

/// The value that the first of `all` gives to `key` that gives it one.
pub open spec fn first_choice(all: Seq<Seq<char>>, key: Seq<char>) -> Option<Seq<char>>
    decreases all.len(),
{
    if all.len() == 0 {
        None
    } else if line_choice(all[0], key) is Some {
        line_choice(all[0], key)
    } else {
        first_choice(all.skip(1), key)
    }
}

/// The value that `line` gives to `key`.
fn choice_from_line(line: &str, key: &str) -> (r: Option<String>)
    ensures
        r.deep_view() == line_choice(line@, key@),
{
    let rest = match strip_prefix(trim(line, CharClass::WhiteSpace), key) {
        Some(rest) => rest,
        None => return None,
    };
    let raw = match strip_prefix(rest, "=") {
        Some(raw) => raw,
        None => return None,
    };
    let value = trim(
        trim(trim(raw, CharClass::WhiteSpace), CharClass::Only('"')),
        CharClass::Only('\''),
    );
    if value.is_empty() {
        None
    } else {
        Some(value.to_owned())
    }
}

/// Reads the value of `key` out of a file of recorded choices: lines of the
/// form `key="value"`, the quotes optional.
pub fn choice_from_file(content: &str, key: &str) -> (r: Option<String>)
    ensures
        r.deep_view() == first_choice(lines_of(content@), key@),
{
    let all = lines(content);
    let ghost texts = all.deep_view();
    let mut i: usize = 0;
    assert(texts.skip(0) == texts);
    while i < all.len()
        invariant
            i <= all.len(),
            texts == all.deep_view(),
            texts == lines_of(content@),
            first_choice(texts, key@) == first_choice(texts.skip(i as int), key@),
        decreases all.len() - i,
    {
        assert(all[i as int]@ == texts[i as int]);
        assert(texts.skip(i as int)[0] == texts[i as int]);
        let value = choice_from_line(all[i], key);
        if value.is_some() {
            return value;
        }
        assert(texts.skip(i as int).skip(1) == texts.skip(i + 1));
        i = i + 1;
    }
    None
}

/// `value`, if it is one of `ids`.
pub open spec fn offered(value: Option<Seq<char>>, ids: Seq<Seq<char>>) -> Option<Seq<char>> {
    match value {
        Some(v) => if ids.contains(v) {
            Some(v)
        } else {
            None
        },
        None => None,
    }
}

/// The network that is installed: that of the configuration in use, if the
/// package offers it, or else the recorded choice, if the package offers that.
pub open spec fn installed_network(
    config_target: Option<Seq<char>>,
    network_record: Option<Seq<char>>,
) -> Option<Seq<char>> {
    let linked = match config_target {
        Some(target) => offered(linked_network(target), network_ids()),
        None => None,
    };
    if linked is Some {
        linked
    } else {
        match network_record {
            Some(content) => offered(
                first_choice(lines_of(content), "INSTALLER_CHOICE_NETWORK"@),
                network_ids(),
            ),
            None => None,
        }
    }
}

/// The log level that is installed: the recorded choice, if the package offers
/// it.
pub open spec fn installed_loglevel(loglevel_record: Option<Seq<char>>) -> Option<Seq<char>> {
    match loglevel_record {
        Some(content) => offered(
            first_choice(lines_of(content), "INSTALLER_CHOICE_LOGLEVEL"@),
            loglevel_ids(),
        ),
        None => None,
    }
}

/// Keeps a network that the package offers.
fn offered_network(value: Option<String>) -> (r: Option<String>)
    ensures
        r.deep_view() == offered(value.deep_view(), network_ids()),
{
    match value {
        Some(v) => {
            assert(network_ids()[0] == "jura"@ && network_ids()[1] == "rotsee"@);
            if same_text(v.as_str(), "jura") || same_text(v.as_str(), "rotsee") {
                Some(v)
            } else {
                None
            }
        },
        None => None,
    }
}

/// Keeps a log level that the package offers.
fn offered_loglevel(value: Option<String>) -> (r: Option<String>)
    ensures
        r.deep_view() == offered(value.deep_view(), loglevel_ids()),
{
    match value {
        Some(v) => {
            assert(loglevel_ids()[0] == "info"@ && loglevel_ids()[1] == "debug"@);
            if same_text(v.as_str(), "info") || same_text(v.as_str(), "debug") {
                Some(v)
            } else {
                None
            }
        },
        None => None,
    }
}

/// One entry of a choice-changes list: it selects or deselects choice `id`.
pub open spec fn choice_entry(id: Seq<char>, selected: bool) -> Seq<char> {
    "  <dict>\n    <key>choiceIdentifier</key>\n    <string>"@ + id
        + "</string>\n    <key>choiceAttribute</key>\n    <string>selected</string>\n    <key>attributeSetting</key>\n    <integer>"@
        + (if selected {
        "1"@
    } else {
        "0"@
    }) + "</integer>\n  </dict>\n"@
}

/// One entry of a choice-changes list.
pub fn choice_dict(id: &str, selected: bool) -> (r: String)
    ensures
        r@ == choice_entry(id@, selected),
{
    let flag = if selected {
        "1"
    } else {
        "0"
    };
    "  <dict>\n    <key>choiceIdentifier</key>\n    <string>".to_owned().concat(id).concat(
        "</string>\n    <key>choiceAttribute</key>\n    <string>selected</string>\n    <key>attributeSetting</key>\n    <integer>",
    ).concat(flag).concat("</integer>\n  </dict>\n")
}

/// The entries that deselect all of `ids` but `chosen`, in order.
pub open spec fn deselected(ids: Seq<Seq<char>>, chosen: Seq<char>) -> Seq<char>
    decreases ids.len(),
{
    if ids.len() == 0 {
        Seq::empty()
    } else if ids.last() == chosen {
        deselected(ids.drop_last(), chosen)
    } else {
        deselected(ids.drop_last(), chosen) + choice_entry(ids.last(), false)
    }
}

/// The entries that pin one group of choices: the others are deselected before
/// the chosen one is selected, which the package's script needs where the
/// chosen one is not the default.
pub open spec fn group_entries(chosen: Option<Seq<char>>, ids: Seq<Seq<char>>) -> Seq<char> {
    match chosen {
        Some(id) => deselected(ids, id) + choice_entry(id, true),
        None => Seq::empty(),
    }
}

/// The list that pins `network` and `loglevel`; nothing if neither is known,
/// so that the installer runs with its defaults.
pub open spec fn choice_changes(
    network: Option<Seq<char>>,
    loglevel: Option<Seq<char>>,
) -> Option<Seq<char>> {
    if network is None && loglevel is None {
        None
    } else {
        Some(
            "<?xml version=\"1.0\" encoding=\"UTF-8\"?>\n<!DOCTYPE plist PUBLIC \"-//Apple//DTD PLIST 1.0//EN\" \"http://www.apple.com/DTDs/PropertyList-1.0.dtd\">\n<plist version=\"1.0\">\n<array>\n"@
                + (group_entries(network, network_ids()) + group_entries(loglevel, loglevel_ids()))
                + "</array>\n</plist>\n"@,
        )
    }
}

/// The entries that pin one group of two choices.
fn pin_group(chosen: &Option<String>, first: &str, second: &str) -> (r: String)
    ensures
        r@ == group_entries(chosen.deep_view(), seq![first@, second@]),
{
    let mut out = String::new();
    match chosen {
        Some(id) => {
            proof {
                let ids = seq![first@, second@];
                reveal_with_fuel(deselected, 3);
                assert(ids.drop_last() == seq![first@]);
                assert(ids.drop_last().drop_last() == Seq::<Seq<char>>::empty());
                assert(ids.drop_last().last() == first@);
                assert(ids.last() == second@);
            }
            if !same_text(first, id.as_str()) {
                let entry = choice_dict(first, false);
                out.append(entry.as_str());
            }
            assert(out@ == deselected(seq![first@], id@)) by {
                reveal_with_fuel(deselected, 2);
                assert(seq![first@].drop_last() == Seq::<Seq<char>>::empty());
                assert(Seq::<char>::empty() + choice_entry(first@, false) == choice_entry(
                    first@,
                    false,
                ));
            }
            if !same_text(second, id.as_str()) {
                let entry = choice_dict(second, false);
                out.append(entry.as_str());
            }
            let entry = choice_dict(id.as_str(), true);
            out.append(entry.as_str());
        },
        None => {},
    }
    out
}

impl InstallerChoices {
    /// Tells the installed choices from what is on disk: the target of the
    /// configuration's link and the contents of the two records, each as far
    /// as it is there. What the package does not offer is left out.
    pub fn detect_from(
        config_target: Option<&str>,
        network_record: Option<&str>,
        loglevel_record: Option<&str>,
    ) -> (r: InstallerChoices)
        ensures
            r.network.deep_view() == installed_network(
                config_target.deep_view(),
                network_record.deep_view(),
            ),
            r.loglevel.deep_view() == installed_loglevel(loglevel_record.deep_view()),
    {
        let linked = match config_target {
            Some(target) => offered_network(network_from_symlink(target)),
            None => None,
        };
        let network = if linked.is_some() {
            linked
        } else {
            match network_record {
                Some(content) => offered_network(
                    choice_from_file(content, "INSTALLER_CHOICE_NETWORK"),
                ),
                None => None,
            }
        };
        let loglevel = match loglevel_record {
            Some(content) => offered_loglevel(
                choice_from_file(content, "INSTALLER_CHOICE_LOGLEVEL"),
            ),
            None => None,
        };
        InstallerChoices { network, loglevel }
    }

    /// Writes the list by which `installer(8)` pins the choices; nothing if
    /// there is none to pin.
    pub fn to_choice_changes_xml(&self) -> (r: Option<String>)
        ensures
            r.deep_view() == choice_changes(self.network.deep_view(), self.loglevel.deep_view()),
    {
        if self.network.is_none() && self.loglevel.is_none() {
            return None;
        }
        let networks = pin_group(&self.network, "jura", "rotsee");
        let loglevels = pin_group(&self.loglevel, "info", "debug");
        let entries = networks.concat(loglevels.as_str());
        Some(
            "<?xml version=\"1.0\" encoding=\"UTF-8\"?>\n<!DOCTYPE plist PUBLIC \"-//Apple//DTD PLIST 1.0//EN\" \"http://www.apple.com/DTDs/PropertyList-1.0.dtd\">\n<plist version=\"1.0\">\n<array>\n".to_owned().concat(
            entries.as_str()).concat("</array>\n</plist>\n"),
        )
    }
}

/// Whether a text can be a choice in a record: it is not empty, and has neither
/// quotes nor white space.
pub open spec fn is_word(s: Seq<char>) -> bool {
    &&& s.len() > 0
    &&& forall|i: int|
        0 <= i < s.len() ==> !is_white_space(#[trigger] s[i]) && s[i] != '"' && s[i] != '\''
}

/// Text that neither starts nor ends with a character of `class` is trimmed to
/// itself.
proof fn lemma_nothing_to_trim(s: Seq<char>, class: CharClass)
    requires
        s.len() > 0,
        !class.has(s[0]),
        !class.has(s.last()),
    ensures
        trimmed(s, class) == s,
{
}

/// A pair of quotes round a text that has none is trimmed away.
proof fn lemma_quotes_are_trimmed(s: Seq<char>)
    requires
        is_word(s),
    ensures
        trimmed(seq!['"'] + s + seq!['"'], CharClass::Only('"')) == s,
{
    let class = CharClass::Only('"');
    let quoted = seq!['"'] + s + seq!['"'];
    let rest = s + seq!['"'];
    reveal_with_fuel(trim_start, 2);
    reveal_with_fuel(trim_end, 2);
    assert(quoted.skip(1) =~= rest);
    assert(rest[0] == s[0]);
    assert(trim_start(quoted, class) == rest);
    assert(rest.drop_last() =~= s);
    assert(s.last() == s[s.len() - 1]);
}

/// A choice that was recorded is read back: for each key and each choice that
/// are single words, a file with the line `key="choice"` gives the choice.
pub proof fn law_recorded_choice_reads_back(key: Seq<char>, choice: Seq<char>)
    requires
        is_word(key),
        is_word(choice),
    ensures
        first_choice(lines_of(key + "=\""@ + choice + "\"\n"@), key) == Some(choice),
{
    reveal_strlit("=\"");
    reveal_strlit("\"\n");
    reveal_strlit("=");
    let class = CharClass::Only('\n');
    let content = key + "=\""@ + choice + "\"\n"@;
    let raw = seq!['"'] + choice + seq!['"'];
    let line = key + seq!['='] + raw;
    assert(content =~= line.push('\n') + Seq::<char>::empty());
    assert forall|i: int| 0 <= i < line.len() implies !class.has(#[trigger] line[i]) by {
        if i < key.len() {
            assert(line[i] == key[i]);
        } else if key.len() + 2 <= i < key.len() + 2 + choice.len() {
            assert(line[i] == choice[i - key.len() - 2]);
        }
    }
    lemma_one_piece(line, class);
    lemma_one_piece(Seq::empty(), class);
    lemma_pieces_append(line, '\n', Seq::empty(), class);
    assert(line.last() == '"');
    assert(without_carriage_return(line) == line);
    assert(seq![line] + seq![Seq::<char>::empty()] =~= seq![line, Seq::<char>::empty()]);
    assert(seq![line, Seq::<char>::empty()].drop_last() =~= seq![line]);
    assert(lines_of(content) =~= seq![line]);
    assert(line[0] == key[0]);
    lemma_nothing_to_trim(line, CharClass::WhiteSpace);
    assert(line.subrange(0, key.len() as int) =~= key);
    assert(line.skip(key.len() as int) =~= seq!['='] + raw);
    assert((seq!['='] + raw).subrange(0, 1) =~= "="@);
    assert((seq!['='] + raw).skip(1) =~= raw);
    lemma_nothing_to_trim(raw, CharClass::WhiteSpace);
    lemma_quotes_are_trimmed(choice);
    assert(choice.last() == choice[choice.len() - 1]);
    lemma_nothing_to_trim(choice, CharClass::Only('\''));
    assert(line_choice(line, key) == Some(choice));
}

/// Only what the package offers is ever pinned, whatever is on disk; so
/// nothing on disk can bring markup into the list.
pub proof fn law_only_offered_choices_are_pinned(
    config_target: Option<Seq<char>>,
    network_record: Option<Seq<char>>,
    loglevel_record: Option<Seq<char>>,
)
    ensures
        installed_network(config_target, network_record) matches Some(id) ==> {
            &&& network_ids().contains(id)
            &&& forall|i: int| 0 <= i < id.len() ==> 'a' <= #[trigger] id[i] <= 'z'
        },
        installed_loglevel(loglevel_record) matches Some(id) ==> {
            &&& loglevel_ids().contains(id)
            &&& forall|i: int| 0 <= i < id.len() ==> 'a' <= #[trigger] id[i] <= 'z'
        },
{
    reveal_strlit("jura");
    reveal_strlit("rotsee");
    reveal_strlit("info");
    reveal_strlit("debug");
}

/// The choices are told apart from what is on disk in this order: the
/// configuration in use decides on the network wherever it names one that the
/// package offers, whatever was recorded.
pub proof fn law_configuration_in_use_comes_first(
    config_target: Seq<char>,
    network_record: Option<Seq<char>>,
)
    requires
        linked_network(config_target) matches Some(id) && network_ids().contains(id),
    ensures
        installed_network(Some(config_target), network_record) == linked_network(config_target),
{
}

/// Of each group the choice that was not made is deselected before the one that
/// was made is selected.
pub proof fn law_other_choice_is_deselected_first(first: Seq<char>, second: Seq<char>)
    requires
        first != second,
    ensures
        group_entries(Some(first), seq![first, second]) == choice_entry(second, false)
            + choice_entry(first, true),
        group_entries(Some(second), seq![first, second]) == choice_entry(first, false)
            + choice_entry(second, true),
{
    reveal_with_fuel(deselected, 3);
    let ids = seq![first, second];
    assert(ids.drop_last() =~= seq![first]);
    assert(seq![first].drop_last() =~= Seq::<Seq<char>>::empty());
    assert(ids.last() == second && seq![first].last() == first);
    assert(Seq::<char>::empty() + choice_entry(second, false) =~= choice_entry(second, false));
    assert(Seq::<char>::empty() + choice_entry(first, false) =~= choice_entry(first, false));
}

/// The entry that deselects `id`, unless it is the chosen one.
pub open spec fn off_unless(id: Seq<char>, chosen: Seq<char>) -> Seq<char> {
    if id == chosen {
        Seq::empty()
    } else {
        choice_entry(id, false)
    }
}

/// The list selects just the choices that were detected: for each group with a
/// choice it deselects every other choice that the package offers, and then
/// selects that choice; for a group without one it has no entry, whatever the
/// other group has.
pub proof fn law_list_selects_what_was_detected(
    network: Option<Seq<char>>,
    loglevel: Option<Seq<char>>,
)
    ensures
        choice_changes(network, loglevel) is Some <==> network is Some || loglevel is Some,
        choice_changes(network, loglevel) matches Some(list) ==> list
            == "<?xml version=\"1.0\" encoding=\"UTF-8\"?>\n<!DOCTYPE plist PUBLIC \"-//Apple//DTD PLIST 1.0//EN\" \"http://www.apple.com/DTDs/PropertyList-1.0.dtd\">\n<plist version=\"1.0\">\n<array>\n"@
            + ((match network {
            Some(id) => off_unless("jura"@, id) + off_unless("rotsee"@, id) + choice_entry(
                id,
                true,
            ),
            None => Seq::empty(),
        }) + (match loglevel {
            Some(id) => off_unless("info"@, id) + off_unless("debug"@, id) + choice_entry(
                id,
                true,
            ),
            None => Seq::empty(),
        })) + "</array>\n</plist>\n"@,
{
    if let Some(id) = network {
        lemma_deselected("jura"@, "rotsee"@, id);
    }
    if let Some(id) = loglevel {
        lemma_deselected("info"@, "debug"@, id);
    }
}

proof fn lemma_deselected(first: Seq<char>, second: Seq<char>, chosen: Seq<char>)
    ensures
        deselected(seq![first, second], chosen) == off_unless(first, chosen) + off_unless(
            second,
            chosen,
        ),
{
    let ids = seq![first, second];
    reveal_with_fuel(deselected, 3);
    assert(ids.drop_last() =~= seq![first]);
    assert(seq![first].drop_last() =~= Seq::<Seq<char>>::empty());
    assert(ids.last() == second && seq![first].last() == first);
    let none = Seq::<char>::empty();
    assert(none + choice_entry(first, false) =~= choice_entry(first, false));
    assert(none + choice_entry(second, false) =~= choice_entry(second, false));
    assert(none + none =~= none);
    assert(choice_entry(first, false) + none =~= choice_entry(first, false));
}

/// An entry names its choice, and its number is one to select and zero to
/// deselect.
pub proof fn law_entry_names_its_choice(id: Seq<char>)
    ensures
        choice_entry(id, true) == "  <dict>\n    <key>choiceIdentifier</key>\n    <string>"@ + id
            + "</string>\n    <key>choiceAttribute</key>\n    <string>selected</string>\n    <key>attributeSetting</key>\n    <integer>"@
            + "1"@ + "</integer>\n  </dict>\n"@,
        choice_entry(id, false) == "  <dict>\n    <key>choiceIdentifier</key>\n    <string>"@ + id
            + "</string>\n    <key>choiceAttribute</key>\n    <string>selected</string>\n    <key>attributeSetting</key>\n    <integer>"@
            + "0"@ + "</integer>\n  </dict>\n"@,
        network_ids() == seq!["jura"@, "rotsee"@],
        loglevel_ids() == seq!["info"@, "debug"@],
{
}

/// The network is that of the link where the package offers it; else what the
/// record gives where the package offers that; and else unknown. The log level
/// is what its record gives where the package offers it.
pub proof fn law_record_comes_second(
    config_target: Option<Seq<char>>,
    network_record: Seq<char>,
    loglevel_record: Seq<char>,
)
    ensures
        ({
            let linked = config_target matches Some(target) && (linked_network(target) matches Some(
                id,
            ) && (id == "jura"@ || id == "rotsee"@));
            let recorded = first_choice(lines_of(network_record), "INSTALLER_CHOICE_NETWORK"@);
            &&& linked ==> installed_network(config_target, Some(network_record))
                == linked_network(config_target->Some_0)
            &&& linked ==> installed_network(config_target, None) == linked_network(
                config_target->Some_0,
            )
            &&& !linked && (recorded == Some("jura"@) || recorded == Some("rotsee"@))
                ==> installed_network(config_target, Some(network_record)) == recorded
            &&& !linked && recorded != Some("jura"@) && recorded != Some("rotsee"@)
                ==> installed_network(config_target, Some(network_record)) is None
            &&& !linked ==> installed_network(config_target, None) is None
        }),
        ({
            let recorded = first_choice(lines_of(loglevel_record), "INSTALLER_CHOICE_LOGLEVEL"@);
            &&& (recorded == Some("info"@) || recorded == Some("debug"@)) ==> installed_loglevel(
                Some(loglevel_record),
            ) == recorded
            &&& recorded != Some("info"@) && recorded != Some("debug"@) ==> installed_loglevel(
                Some(loglevel_record),
            ) is None
            &&& installed_loglevel(None) is None
        }),
{
    assert(network_ids()[0] == "jura"@ && network_ids()[1] == "rotsee"@);
    assert(loglevel_ids()[0] == "info"@ && loglevel_ids()[1] == "debug"@);
}

/// A record is read line by line, and the first line that gives the key a value
/// counts.
pub proof fn law_first_line_with_a_value_counts(
    line: Seq<char>,
    rest: Seq<Seq<char>>,
    key: Seq<char>,
)
    ensures
        first_choice(seq![line] + rest, key) == if line_choice(line, key) is Some {
            line_choice(line, key)
        } else {
            first_choice(rest, key)
        },
        first_choice(Seq::empty(), key) is None,
{
    assert((seq![line] + rest)[0] == line);
    assert((seq![line] + rest).skip(1) =~= rest);
}

/// A line gives a key the value behind the equals sign, with the quotes of
/// either kind and the blanks round it taken off; without the key, the sign or a
/// value it gives none.
pub proof fn law_line_gives_its_value(
    blank: (Seq<char>, Seq<char>),
    key: Seq<char>,
    inner: Seq<char>,
    quote: Seq<char>,
    value: Seq<char>,
)
    requires
        forall|i: int| 0 <= i < blank.0.len() ==> is_white_space(#[trigger] blank.0[i]),
        forall|i: int| 0 <= i < blank.1.len() ==> is_white_space(#[trigger] blank.1[i]),
        forall|i: int| 0 <= i < inner.len() ==> is_white_space(#[trigger] inner[i]),
        is_word(key),
        is_word(value),
        quote == seq!['"'] || quote == seq!['\''] || quote == Seq::<char>::empty(),
    ensures
        line_choice(blank.0 + (key + seq!['='] + inner + quote + value + quote) + blank.1, key)
            == Some(value),
        line_choice(blank.0 + (key + seq!['='] + inner + quote + quote) + blank.1, key) is None,
        line_choice(blank.0 + (key + value) + blank.1, key) is None || value[0] == '=',
{
    law_line_gives_what_the_quotes_hold(blank.0, key, inner, quote + value + quote, blank.1);
    let quoted = quote + value + quote;
    assert(key + seq!['='] + inner + quote + value + quote =~= key + seq!['='] + inner + quoted);
    lemma_unquoted(quote, value);
    law_line_gives_what_the_quotes_hold(blank.0, key, inner, quote + quote, blank.1);
    assert(key + seq!['='] + inner + quote + quote =~= key + seq!['='] + inner + (quote
        + quote));
    lemma_unquoted_nothing(quote);
    let line = key + value;
    assert(line[0] == key[0] && line.last() == value.last());
    assert(value.last() == value[value.len() - 1]);
    law_trimming_takes_off_both_ends(blank.0, line, blank.1, CharClass::WhiteSpace);
    law_prefix_comes_off(key, value);
    reveal_strlit("=");
    if value[0] != '=' {
        if "="@.is_prefix_of(value) {
            assert(value.subrange(0, 1)[0] == value[0]);
        }
    }
}

/// What is left of a value once its quotes are taken off.
pub open spec fn unquoted(raw: Seq<char>) -> Seq<char> {
    trimmed(trimmed(raw, CharClass::Only('"')), CharClass::Only('\''))
}

proof fn lemma_unquoted(quote: Seq<char>, value: Seq<char>)
    requires
        is_word(value),
        quote == seq!['"'] || quote == seq!['\''] || quote == Seq::<char>::empty(),
    ensures
        unquoted(quote + value + quote) == value,
{
    let none = Seq::<char>::empty();
    let raw = quote + value + quote;
    assert(value.last() == value[value.len() - 1]);
    assert(raw =~= none + raw + none);
    assert(value =~= none + value + none);
    if quote == seq!['"'] {
        law_trimming_takes_off_both_ends(quote, value, quote, CharClass::Only('"'));
        law_trimming_takes_off_both_ends(none, value, none, CharClass::Only('\''));
    } else {
        assert(quote.len() == 0 ==> raw =~= value);
        law_trimming_takes_off_both_ends(none, raw, none, CharClass::Only('"'));
        law_trimming_takes_off_both_ends(quote, value, quote, CharClass::Only('\''));
    }
}

proof fn lemma_unquoted_nothing(quote: Seq<char>)
    requires
        quote == seq!['"'] || quote == seq!['\''] || quote == Seq::<char>::empty(),
    ensures
        unquoted(quote + quote).len() == 0,
{
    let none = Seq::<char>::empty();
    let raw = quote + quote;
    assert(raw =~= quote + none + quote);
    assert(none =~= none + none + none);
    if quote == seq!['"'] {
        law_trimming_takes_off_both_ends(quote, none, quote, CharClass::Only('"'));
        law_trimming_takes_off_both_ends(none, none, none, CharClass::Only('\''));
    } else {
        assert(raw =~= none + raw + none);
        law_trimming_takes_off_both_ends(none, raw, none, CharClass::Only('"'));
        law_trimming_takes_off_both_ends(quote, none, quote, CharClass::Only('\''));
    }
}

/// A line gives no value unless, the blanks round it taken off, it starts with
/// the key and an equals sign; and never an empty one.
pub proof fn law_only_the_key_gets_a_value(line: Seq<char>, key: Seq<char>)
    ensures
        line_choice(line, key) matches Some(value) ==> value.len() > 0 && (key
            + seq!['=']).is_prefix_of(trimmed(line, CharClass::WhiteSpace)),
{
    reveal_strlit("=");
    assert(seq!['='] =~= "="@);
    let all = trimmed(line, CharClass::WhiteSpace);
    law_prefix_comes_off(key, all);
    if let Some(rest) = after_prefix(all, key) {
        law_prefix_comes_off("="@, rest);
        if let Some(raw) = after_prefix(rest, "="@) {
            assert(all =~= key + seq!['='] + raw);
            assert((key + seq!['=']) =~= all.subrange(0, key.len() as int + 1));
        }
    }
}

/// What a line gives that starts with the key and an equals sign, where blanks
/// may stand in front of the value, is the value without its quotes: first the
/// double ones are taken off both ends, and then the single ones.
pub proof fn law_line_gives_what_the_quotes_hold(
    before: Seq<char>,
    key: Seq<char>,
    inner: Seq<char>,
    raw: Seq<char>,
    after: Seq<char>,
)
    requires
        forall|i: int| 0 <= i < before.len() ==> is_white_space(#[trigger] before[i]),
        forall|i: int| 0 <= i < after.len() ==> is_white_space(#[trigger] after[i]),
        forall|i: int| 0 <= i < inner.len() ==> is_white_space(#[trigger] inner[i]),
        is_word(key),
        raw.len() > 0 ==> !is_white_space(raw[0]) && !is_white_space(raw.last()),
    ensures
        line_choice(before + (key + seq!['='] + inner + raw) + after, key) == if unquoted(raw).len()
            > 0 {
            Some(unquoted(raw))
        } else {
            None
        },
{
    let none = Seq::<char>::empty();
    let class = CharClass::WhiteSpace;
    reveal_strlit("=");
    let line = key + seq!['='] + inner + raw;
    if raw.len() > 0 {
        assert(line[0] == key[0] && line.last() == raw.last());
        law_trimming_takes_off_both_ends(before, line, after, class);
        law_prefix_comes_off(key, seq!['='] + (inner + raw));
        assert(line =~= key + (seq!['='] + (inner + raw)));
        assert(seq!['='] =~= "="@);
        law_prefix_comes_off("="@, inner + raw);
        assert(inner + raw =~= inner + raw + none);
        law_trimming_takes_off_both_ends(inner, raw, none, class);
    } else {
        let short = key + seq!['='];
        let tail = inner + after;
        assert(before + line + after =~= before + short + tail);
        assert forall|i: int| 0 <= i < tail.len() implies is_white_space(#[trigger] tail[i]) by {
            if i < inner.len() {
                assert(tail[i] == inner[i]);
            } else {
                assert(tail[i] == after[i - inner.len()]);
            }
        }
        assert(short[0] == key[0] && short.last() == '=');
        law_trimming_takes_off_both_ends(before, short, tail, class);
        law_prefix_comes_off(key, seq!['=']);
        assert(seq!['='] =~= "="@ + none);
        law_prefix_comes_off("="@, none);
        assert(none =~= none + none + none);
        law_trimming_takes_off_both_ends(none, none, none, class);
        assert(raw =~= none);
    }
}

/// Whether a text can be the name of a file in a path.
pub open spec fn is_file_name(name: Seq<char>) -> bool {
    name.len() > 0 && !name.contains('/') && name != "."@ && name != ".."@
}

/// The name that a path leads to is its last part, whatever comes before; a
/// slash behind it, or a dot behind that, makes no difference; and what ends in
/// two dots leads to no name.
pub proof fn law_path_leads_to_its_last_part(dir: Seq<char>, name: Seq<char>)
    ensures
        is_file_name(name) ==> file_name(name) == Some(name),
        is_file_name(name) ==> file_name(dir.push('/') + name) == Some(name),
        file_name(dir.push('/')) == file_name(dir),
        file_name(dir + "/."@) == file_name(dir),
        file_name(dir + "/.."@) is None,
        file_name(Seq::empty()) is None,
        file_name("."@) is None,
        file_name(".."@) is None,
{
    let class = CharClass::Only('/');
    let none = Seq::<char>::empty();
    reveal_strlit("");
    reveal_strlit(".");
    reveal_strlit("..");
    reveal_strlit("/.");
    reveal_strlit("/..");
    assert(none =~= ""@);
    lemma_one_piece(none, class);
    lemma_one_piece("."@, class);
    lemma_one_piece(".."@, class);
    let parts = pieces(dir, class);
    lemma_pieces_append(dir, '/', none, class);
    assert(dir.push('/') + none =~= dir.push('/'));
    assert((parts + seq![none]).drop_last() =~= parts);
    lemma_pieces_append(dir, '/', "."@, class);
    assert(dir.push('/') + "."@ =~= dir + "/."@);
    assert((parts + seq!["."@]).drop_last() =~= parts);
    lemma_pieces_append(dir, '/', ".."@, class);
    assert(dir.push('/') + ".."@ =~= dir + "/.."@);
    assert((parts + seq![".."@]).last() == ".."@);
    assert(seq![none].drop_last() =~= Seq::<Seq<char>>::empty());
    assert(seq!["."@].drop_last() =~= Seq::<Seq<char>>::empty());
    assert(seq!["."@].last() == "."@ && seq![".."@].last() == ".."@);
    reveal_with_fuel(last_named, 2);
    if is_file_name(name) {
        assert forall|i: int| 0 <= i < name.len() implies !class.has(#[trigger] name[i]) by {
            assert(name.contains(name[i]));
        }
        lemma_one_piece(name, class);
        lemma_pieces_append(dir, '/', name, class);
        assert((parts + seq![name]).last() == name);
        assert(seq![name].last() == name);
    }
}

proof fn lemma_last_dot(name: Seq<char>, extension: Seq<char>)
    requires
        !extension.contains('.'),
    ensures
        last_dot(name.push('.') + extension) == name.len(),
        last_dot(extension) == -1,
    decreases extension.len(),
{
    let all = name.push('.') + extension;
    if extension.len() == 0 {
        assert(all =~= name.push('.'));
    } else {
        let shorter = extension.drop_last();
        assert(extension.last() != '.') by {
            assert(extension.contains(extension[extension.len() - 1]));
        }
        assert(!shorter.contains('.')) by {
            if shorter.contains('.') {
                let i = choose|i: int| 0 <= i < shorter.len() && shorter[i] == '.';
                assert(extension[i] == '.');
            }
        }
        lemma_last_dot(name, shorter);
        assert(all.drop_last() =~= name.push('.') + shorter);
        assert(all.last() == extension.last());
    }
}

/// The network of a link is the name that it leads to without its extension:
/// `rotsee.toml` stands for `rotsee`, wherever it is.
pub proof fn law_link_names_its_network(
    dir: Seq<char>,
    network: Seq<char>,
    extension: Seq<char>,
)
    requires
        network.len() > 0,
        !network.contains('/'),
        !extension.contains('/'),
        !extension.contains('.'),
        is_file_name(network.push('.') + extension),
    ensures
        linked_network(network.push('.') + extension) == Some(network),
        linked_network(dir.push('/') + (network.push('.') + extension)) == Some(network),
        is_file_name(extension) ==> linked_network(dir.push('/') + extension) == Some(extension),
        is_file_name(seq!['.'] + extension) ==> linked_network(seq!['.'] + extension) == Some(
            seq!['.'] + extension,
        ),
{
    let none = Seq::<char>::empty();
    lemma_last_dot(none, extension);
    assert(none.push('.') + extension =~= seq!['.'] + extension);
    law_path_leads_to_its_last_part(dir, seq!['.'] + extension);
    let name = network.push('.') + extension;
    law_path_leads_to_its_last_part(dir, name);
    lemma_last_dot(network, extension);
    assert(name.take(network.len() as int) =~= network);
    if is_file_name(extension) {
        law_path_leads_to_its_last_part(dir, extension);
    }
}

} // verus!
