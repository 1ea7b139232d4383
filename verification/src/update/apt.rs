//! The apt source that a Linux host installs the client from: which channel it
//! follows, and how it is switched to another.
//!
//! The install script writes the source as a file of `Key: value` lines.

use vstd::prelude::*;
use vstd::string::StringExecFns;

use crate::manifest::Channel;
use crate::text::{
    after_prefix, chars_of, join, joined, law_lines_end_with_line_feeds, lemma_one_piece, lemma_pieces_append,
    lemma_pieces_have_no_separator, lemma_pieces_not_empty, lines, lines_of, pieces, same_text,
    strip_prefix, trim, trim_start, trimmed, without_carriage_return, CharClass,
};

verus! {

/// The apt suite and component that a channel is published under.
pub open spec fn suite_component(c: Channel) -> (Seq<char>, Seq<char>) {
    match c {
        Channel::Stable => ("stable"@, "main"@),
        Channel::Snapshot => ("snapshot"@, "snapshot"@),
        Channel::Experimental => ("experimental"@, "experimental"@),
    }
}

/// The apt suite and component that a channel is published under.
pub fn channel_suite_component(c: Channel) -> (r: (&'static str, &'static str))
    ensures
        (r.0@, r.1@) == suite_component(c),
{
    match c {
        Channel::Stable => ("stable", "main"),
        Channel::Snapshot => ("snapshot", "snapshot"),
        Channel::Experimental => ("experimental", "experimental"),
    }
}

/// What the first of `all` that starts with `prefix` says after it, without
/// the space around.
pub open spec fn first_value(all: Seq<Seq<char>>, prefix: Seq<char>) -> Option<Seq<char>>
    decreases all.len(),
{
    if all.len() == 0 {
        None
    } else {
        match after_prefix(all[0], prefix) {
            Some(rest) => Some(trimmed(rest, CharClass::WhiteSpace)),
            None => first_value(all.skip(1), prefix),
        }
    }
}

/// The value of field `key` in a source file.
pub open spec fn field_value(content: Seq<char>, key: Seq<char>) -> Option<Seq<char>> {
    first_value(lines_of(content), key + ":"@)
}

/// The value of field `key` in a source file.
pub fn field(content: &str, key: &str) -> (r: Option<String>)
    ensures
        r.deep_view() == field_value(content@, key@),
{
    let prefix = key.to_owned().concat(":");
    let all = lines(content);
    let ghost texts = all.deep_view();
    let mut i: usize = 0;
    assert(texts.skip(0) == texts);
    while i < all.len()
        invariant
            i <= all.len(),
            prefix@ == key@ + ":"@,
            texts == all.deep_view(),
            texts == lines_of(content@),
            first_value(texts, prefix@) == first_value(texts.skip(i as int), prefix@),
        decreases all.len() - i,
    {
        assert(all[i as int]@ == texts[i as int]);
        assert(texts.skip(i as int)[0] == texts[i as int]);
        match strip_prefix(all[i], prefix.as_str()) {
            Some(rest) => {
                return Some(trim(rest, CharClass::WhiteSpace).to_owned());
            },
            None => {},
        }
        assert(texts.skip(i as int).skip(1) == texts.skip(i + 1));
        i = i + 1;
    }
    None
}

/// `line`, or the line that gives `key` its new value if `line` is about it.
pub open spec fn rewritten_line(line: Seq<char>, key: Seq<char>, value: Seq<char>) -> Seq<char> {
    if (key + ":"@).is_prefix_of(line) {
        key + ": "@ + value
    } else {
        line
    }
}

/// The lines of a source file after field `key` was given `value`: every line
/// about it is replaced, and where there is none one is added at the end.
pub open spec fn rewritten_lines(
    all: Seq<Seq<char>>,
    key: Seq<char>,
    value: Seq<char>,
) -> Seq<Seq<char>> {
    let replaced = all.map_values(|line: Seq<char>| rewritten_line(line, key, value));
    if first_value(all, key + ":"@) is Some {
        replaced
    } else {
        replaced.push(key + ": "@ + value)
    }
}

/// A source file after field `key` was given `value`. It ends with a line feed
/// if it did before.
pub open spec fn rewritten(content: Seq<char>, key: Seq<char>, value: Seq<char>) -> Seq<char> {
    let text = joined(rewritten_lines(lines_of(content), key, value), "\n"@);
    if content.len() > 0 && content.last() == '\n' {
        text + "\n"@
    } else {
        text
    }
}

/// Gives field `key` of a source file the value `value`.
pub fn rewrite_field(content: &str, key: &str, value: &str) -> (r: String)
    ensures
        r@ == rewritten(content@, key@, value@),
{
    let prefix = key.to_owned().concat(":");
    let line = key.to_owned().concat(": ").concat(value);
    let chars = chars_of(content);
    let trailing_newline = chars.len() > 0 && chars[chars.len() - 1] == '\n';
    let all = lines(content);
    let ghost texts = all.deep_view();
    let ghost replaced = texts.map_values(|l: Seq<char>| rewritten_line(l, key@, value@));
    let mut out: Vec<String> = Vec::new();
    let mut found = false;
    let mut i: usize = 0;
    assert(texts.skip(0) == texts);
    while i < all.len()
        invariant
            i <= all.len(),
            prefix@ == key@ + ":"@,
            line@ == key@ + ": "@ + value@,
            texts == all.deep_view(),
            replaced == texts.map_values(|l: Seq<char>| rewritten_line(l, key@, value@)),
            out.deep_view() == replaced.take(i as int),
            found ==> first_value(texts, prefix@) is Some,
            !found ==> first_value(texts, prefix@) == first_value(texts.skip(i as int), prefix@),
        decreases all.len() - i,
    {
        let ghost before = out.deep_view();
        assert(all[i as int]@ == texts[i as int]);
        assert(texts.skip(i as int)[0] == texts[i as int]);
        assert(texts.skip(i as int).skip(1) == texts.skip(i + 1));
        match strip_prefix(all[i], prefix.as_str()) {
            Some(_) => {
                found = true;
                out.push(line.clone());
            },
            None => {
                out.push(all[i].to_owned());
            },
        }
        assert(out.deep_view() =~= before.push(replaced[i as int]));
        assert(replaced.take(i + 1) == replaced.take(i as int).push(replaced[i as int]));
        i = i + 1;
    }
    assert(replaced.take(i as int) == replaced);
    if !found {
        let ghost before = out.deep_view();
        out.push(line);
        assert(out.deep_view() =~= before.push(key@ + ": "@ + value@));
    }
    let mut text = join(&out, "\n");
    if trailing_newline {
        text.append("\n");
    }
    text
}

/// The apt source file of the client.
pub const SOURCES_PATH: &'static str = "/etc/apt/sources.list.d/gnosisvpn.sources";

/// The name of the client's package.
pub const PACKAGE_NAME: &'static str = "gnosisvpn";

/// Whether a source file follows `channel`.
pub open spec fn follows(content: Seq<char>, channel: Channel) -> bool {
    &&& field_value(content, "Suites"@) == Some(suite_component(channel).0)
    &&& field_value(content, "Components"@) == Some(suite_component(channel).1)
}

/// A source file after it was made to follow `channel`.
pub open spec fn switched(content: Seq<char>, channel: Channel) -> Seq<char> {
    rewritten(
        rewritten(content, "Suites"@, suite_component(channel).0),
        "Components"@,
        suite_component(channel).1,
    )
}

/// Tests whether an optional text is the one given.
fn is_text(value: &Option<String>, text: &str) -> (r: bool)
    ensures
        r == (value.deep_view() == Some(text@)),
{
    match value {
        Some(v) => same_text(v.as_str(), text),
        None => false,
    }
}

/// What to write to the source file so that it follows `channel`: nothing if
/// it does already. A file that could not be read is an error.
pub fn ensure_channel(channel: Channel, content: Result<String, String>) -> (r: Result<
    Option<String>,
    String,
>)
    ensures
        match content {
            Ok(text) => match r {
                Ok(None) => follows(text@, channel),
                Ok(Some(next)) => !follows(text@, channel) && next@ == switched(text@, channel),
                Err(_) => false,
            },
            Err(e) => r is Err && r->Err_0@
                == "apt sources file /etc/apt/sources.list.d/gnosisvpn.sources not found ("@ + e@
                + "); re-run the gnosisvpn install script"@,
        },
{
    let (suite, component) = channel_suite_component(channel);
    let text = match content {
        Ok(text) => text,
        Err(e) => {
            return Err(
                "apt sources file /etc/apt/sources.list.d/gnosisvpn.sources not found (".to_owned().concat(
                e.as_str()).concat("); re-run the gnosisvpn install script"),
            );
        },
    };
    let current_suite = field(text.as_str(), "Suites");
    let current_component = field(text.as_str(), "Components");
    if is_text(&current_suite, suite) && is_text(&current_component, component) {
        return Ok(None);
    }
    let next = rewrite_field(text.as_str(), "Suites", suite);
    Ok(Some(rewrite_field(next.as_str(), "Components", component)))
}

/// Whether `s` has no line feed.
pub open spec fn on_one_line(s: Seq<char>) -> bool {
    forall|i: int| 0 <= i < s.len() ==> #[trigger] s[i] != '\n'
}

/// Lines that are joined with line feeds are the pieces between line feeds.
proof fn lemma_pieces_of_joined(all: Seq<Seq<char>>)
    requires
        all.len() > 0,
        forall|i: int| 0 <= i < all.len() ==> on_one_line(#[trigger] all[i]),
    ensures
        pieces(joined(all, "\n"@), CharClass::Only('\n')) == all,
    decreases all.len(),
{
    let class = CharClass::Only('\n');
    reveal_strlit("\n");
    if all.len() == 1 {
        assert(on_one_line(all[0]));
        lemma_one_piece(all[0], class);
        assert(all =~= seq![all[0]]);
    } else {
        let rest = all.drop_last();
        assert forall|i: int| 0 <= i < rest.len() implies on_one_line(#[trigger] rest[i]) by {
            assert(on_one_line(all[i]));
        }
        lemma_pieces_of_joined(rest);
        assert(on_one_line(all[all.len() - 1]));
        lemma_one_piece(all.last(), class);
        lemma_pieces_append(joined(rest, "\n"@), '\n', all.last(), class);
        assert(joined(rest, "\n"@) + "\n"@ + all.last() =~= joined(rest, "\n"@).push('\n')
            + all.last());
        assert(rest + seq![all.last()] =~= all);
    }
}

/// No line has a line feed.
proof fn lemma_lines_on_one_line(content: Seq<char>)
    ensures
        forall|i: int|
            0 <= i < lines_of(content).len() ==> on_one_line(#[trigger] lines_of(content)[i]),
{
    let class = CharClass::Only('\n');
    lemma_pieces_have_no_separator(content, class);
    let parts = pieces(content, class);
    assert forall|i: int| 0 <= i < lines_of(content).len() implies on_one_line(
        #[trigger] lines_of(content)[i],
    ) by {
        assert forall|j: int| 0 <= j < lines_of(content)[i].len() implies lines_of(content)[i][j]
            != '\n' by {
            assert(!class.has(parts[i][j]));
        }
    }
}

/// Space at the end takes no part in what is left after trimming.
proof fn lemma_trim_ignores_last_space(s: Seq<char>, c: char)
    requires
        CharClass::WhiteSpace.has(c),
    ensures
        trimmed(s.push(c), CharClass::WhiteSpace) == trimmed(s, CharClass::WhiteSpace),
    decreases s.len(),
{
    let class = CharClass::WhiteSpace;
    if s.len() == 0 {
        assert(s.push(c).skip(1) == s);
        reveal_with_fuel(trim_start, 2);
    } else if class.has(s[0]) {
        assert(s.push(c).skip(1) == s.skip(1).push(c));
        lemma_trim_ignores_last_space(s.skip(1), c);
    } else {
        assert(s.push(c).drop_last() == s);
    }
}

/// A line tells the same whether or not a carriage return ends it.
proof fn lemma_carriage_return_tells_nothing(line: Seq<char>, key: Seq<char>)
    ensures
        ({
            let prefix = key + ":"@;
            let short = without_carriage_return(line);
            &&& prefix.is_prefix_of(line) == prefix.is_prefix_of(short)
            &&& prefix.is_prefix_of(line) ==> trimmed(
                line.skip(prefix.len() as int),
                CharClass::WhiteSpace,
            ) == trimmed(short.skip(prefix.len() as int), CharClass::WhiteSpace)
        }),
{
    reveal_strlit(":");
    let prefix = key + ":"@;
    let n = prefix.len() as int;
    let short = without_carriage_return(line);
    assert(prefix[n - 1] == ':');
    if line.len() > 0 && line.last() == '\r' {
        if prefix.is_prefix_of(line) {
            assert(line.subrange(0, n)[n - 1] == line[n - 1]);
            assert(n < line.len());
            assert(short.subrange(0, n) =~= line.subrange(0, n));
            assert(line.skip(n) =~= short.skip(n).push('\r'));
            lemma_trim_ignores_last_space(short.skip(n), '\r');
        }
        if prefix.is_prefix_of(short) {
            assert(short.subrange(0, n) =~= line.subrange(0, n));
        }
    }
}

/// Lines that differ in carriage returns at most have the same fields.
proof fn lemma_same_values(a: Seq<Seq<char>>, b: Seq<Seq<char>>, key: Seq<char>)
    requires
        a.len() == b.len(),
        forall|i: int|
            0 <= i < a.len() ==> #[trigger] b[i] == a[i] || b[i] == without_carriage_return(a[i]),
    ensures
        first_value(a, key + ":"@) == first_value(b, key + ":"@),
    decreases a.len(),
{
    if a.len() > 0 {
        lemma_carriage_return_tells_nothing(a[0], key);
        assert(b[0] == a[0] || b[0] == without_carriage_return(a[0]));
        assert forall|i: int| 0 <= i < a.skip(1).len() implies #[trigger] b.skip(1)[i] == a.skip(
            1,
        )[i] || b.skip(1)[i] == without_carriage_return(a.skip(1)[i]) by {
            assert(b[i + 1] == a[i + 1] || b[i + 1] == without_carriage_return(a[i + 1]));
        }
        lemma_same_values(a.skip(1), b.skip(1), key);
    }
}

/// The fields of a source file that was written line by line, with or without
/// a line feed at the end, are those of its lines.
proof fn lemma_written_lines_read_back(all: Seq<Seq<char>>, ended: bool, key: Seq<char>)
    requires
        all.len() > 0,
        forall|i: int| 0 <= i < all.len() ==> on_one_line(#[trigger] all[i]),
        ended || all.last().len() > 0,
    ensures
        ({
            let text = joined(all, "\n"@);
            let content = if ended {
                text + "\n"@
            } else {
                text
            };
            field_value(content, key) == first_value(all, key + ":"@)
        }),
{
    let class = CharClass::Only('\n');
    reveal_strlit("\n");
    lemma_pieces_of_joined(all);
    let text = joined(all, "\n"@);
    if ended {
        let content = text + "\n"@;
        assert(content =~= text.push('\n'));
        assert(content.drop_last() == text);
        let parts = pieces(content, class);
        assert(parts == all.push(Seq::empty()));
        assert(parts.drop_last() == all);
        lemma_same_values(all, lines_of(content), key);
    } else {
        lemma_same_values(all, lines_of(text), key);
    }
}

/// The lines of a rewritten file have no line feeds, and there is at least
/// one; the last is not empty where nothing ends it.
proof fn lemma_rewritten_lines(content: Seq<char>, key: Seq<char>, value: Seq<char>)
    requires
        on_one_line(key),
        on_one_line(value),
    ensures
        ({
            let all = rewritten_lines(lines_of(content), key, value);
            &&& all.len() > 0
            &&& forall|i: int| 0 <= i < all.len() ==> on_one_line(#[trigger] all[i])
            &&& (content.len() > 0 && content.last() == '\n') || all.last().len() > 0
        }),
{
    reveal_strlit(":");
    reveal_strlit(": ");
    let texts = lines_of(content);
    let all = rewritten_lines(texts, key, value);
    lemma_lines_on_one_line(content);
    assert(on_one_line(key + ": "@ + value));
    assert forall|i: int| 0 <= i < all.len() implies on_one_line(#[trigger] all[i]) by {
        if i < texts.len() {
            assert(on_one_line(texts[i]));
        }
    }
    if texts.len() == 0 {
        assert(first_value(texts, key + ":"@) is None);
    }
    if !(content.len() > 0 && content.last() == '\n') {
        let parts = pieces(content, CharClass::Only('\n'));
        if content.len() > 0 {
            lemma_pieces_not_empty(content.drop_last(), CharClass::Only('\n'));
            assert(parts.last().len() > 0);
            assert(texts.last() == parts.last());
        }
    }
}

/// What the rewritten lines say of the rewritten field.
proof fn lemma_rewritten_value(all: Seq<Seq<char>>, key: Seq<char>, value: Seq<char>)
    ensures
        first_value(rewritten_lines(all, key, value), key + ":"@) == Some(
            trimmed(value, CharClass::WhiteSpace),
        ),
    decreases all.len(),
{
    reveal_strlit(":");
    reveal_strlit(": ");
    let prefix = key + ":"@;
    let line = key + ": "@ + value;
    let after = rewritten_lines(all, key, value);
    assert(line.subrange(0, prefix.len() as int) =~= prefix);
    assert(prefix.is_prefix_of(line));
    assert(line.skip(prefix.len() as int) =~= seq![' '] + value);
    assert((seq![' '] + value).skip(1) =~= value);
    assert(trimmed(line.skip(prefix.len() as int), CharClass::WhiteSpace) == trimmed(
        value,
        CharClass::WhiteSpace,
    ));
    if all.len() == 0 {
        assert(after[0] == line);
    } else if prefix.is_prefix_of(all[0]) {
        assert(after[0] == line);
    } else {
        lemma_rewritten_value(all.skip(1), key, value);
        assert(after[0] == all[0]);
        assert(after.skip(1) =~= rewritten_lines(all.skip(1), key, value));
    }
}

/// A field that was rewritten reads as the value that it was given.
pub proof fn law_rewritten_field_reads_back(
    content: Seq<char>,
    key: Seq<char>,
    value: Seq<char>,
)
    requires
        on_one_line(key),
        on_one_line(value),
    ensures
        field_value(rewritten(content, key, value), key) == Some(
            trimmed(value, CharClass::WhiteSpace),
        ),
{
    let all = rewritten_lines(lines_of(content), key, value);
    lemma_rewritten_lines(content, key, value);
    lemma_written_lines_read_back(all, content.len() > 0 && content.last() == '\n', key);
    lemma_rewritten_value(lines_of(content), key, value);
}

/// Whether `key` has no colon.
pub open spec fn without_colon(key: Seq<char>) -> bool {
    forall|i: int| 0 <= i < key.len() ==> #[trigger] key[i] != ':'
}

/// A line is about one key at most.
proof fn lemma_one_key(line: Seq<char>, key: Seq<char>, other: Seq<char>)
    requires
        without_colon(key),
        without_colon(other),
        (key + ":"@).is_prefix_of(line),
        (other + ":"@).is_prefix_of(line),
    ensures
        key == other,
{
    reveal_strlit(":");
    let a = key + ":"@;
    let b = other + ":"@;
    assert(a =~= line.subrange(0, a.len() as int));
    assert(b =~= line.subrange(0, b.len() as int));
    assert(a[key.len() as int] == ':');
    assert(b[other.len() as int] == ':');
    assert(line[key.len() as int] == ':') by {
        assert(line.subrange(0, a.len() as int)[key.len() as int] == line[key.len() as int]);
    }
    assert(line[other.len() as int] == ':') by {
        assert(line.subrange(0, b.len() as int)[other.len() as int] == line[other.len() as int]);
    }
    if key.len() < other.len() {
        assert(b[key.len() as int] == other[key.len() as int]);
        assert(line.subrange(0, b.len() as int)[key.len() as int] == line[key.len() as int]);
    } else if other.len() < key.len() {
        assert(a[other.len() as int] == key[other.len() as int]);
        assert(line.subrange(0, a.len() as int)[other.len() as int] == line[other.len() as int]);
    } else {
        assert(key =~= line.subrange(0, key.len() as int)) by {
            assert forall|i: int| 0 <= i < key.len() implies key[i] == line[i] by {
                assert(a[i] == key[i]);
                assert(line.subrange(0, a.len() as int)[i] == line[i]);
            }
        }
        assert(other =~= line.subrange(0, other.len() as int)) by {
            assert forall|i: int| 0 <= i < other.len() implies other[i] == line[i] by {
                assert(b[i] == other[i]);
                assert(line.subrange(0, b.len() as int)[i] == line[i]);
            }
        }
    }
}

/// What replaced lines say of another field.
proof fn lemma_replaced_value(
    all: Seq<Seq<char>>,
    key: Seq<char>,
    value: Seq<char>,
    other: Seq<char>,
)
    requires
        without_colon(key),
        without_colon(other),
        key != other,
    ensures
        first_value(
            all.map_values(|l: Seq<char>| rewritten_line(l, key, value)),
            other + ":"@,
        ) == first_value(all, other + ":"@),
    decreases all.len(),
{
    reveal_strlit(":");
    reveal_strlit(": ");
    let line = key + ": "@ + value;
    let replaced = all.map_values(|l: Seq<char>| rewritten_line(l, key, value));
    assert(line.subrange(0, (key + ":"@).len() as int) =~= key + ":"@);
    if (other + ":"@).is_prefix_of(line) {
        lemma_one_key(line, key, other);
    }
    if all.len() > 0 {
        if (key + ":"@).is_prefix_of(all[0]) && (other + ":"@).is_prefix_of(all[0]) {
            lemma_one_key(all[0], key, other);
        }
        lemma_replaced_value(all.skip(1), key, value, other);
        assert(replaced.skip(1) =~= all.skip(1).map_values(
            |l: Seq<char>| rewritten_line(l, key, value),
        ));
    }
}

/// A line at the end that is not about a field does not change it.
proof fn lemma_line_added(all: Seq<Seq<char>>, line: Seq<char>, prefix: Seq<char>)
    requires
        !prefix.is_prefix_of(line),
    ensures
        first_value(all.push(line), prefix) == first_value(all, prefix),
    decreases all.len(),
{
    if all.len() == 0 {
        reveal_with_fuel(first_value, 2);
        assert(all.push(line).skip(1) =~= all);
    } else {
        lemma_line_added(all.skip(1), line, prefix);
        assert(all.push(line).skip(1) =~= all.skip(1).push(line));
    }
}

/// What the rewritten lines say of another field.
proof fn lemma_other_value(
    all: Seq<Seq<char>>,
    key: Seq<char>,
    value: Seq<char>,
    other: Seq<char>,
)
    requires
        without_colon(key),
        without_colon(other),
        key != other,
    ensures
        first_value(rewritten_lines(all, key, value), other + ":"@) == first_value(
            all,
            other + ":"@,
        ),
{
    reveal_strlit(":");
    reveal_strlit(": ");
    let line = key + ": "@ + value;
    assert(line.subrange(0, (key + ":"@).len() as int) =~= key + ":"@);
    if (other + ":"@).is_prefix_of(line) {
        lemma_one_key(line, key, other);
    }
    lemma_replaced_value(all, key, value, other);
    lemma_line_added(
        all.map_values(|l: Seq<char>| rewritten_line(l, key, value)),
        line,
        other + ":"@,
    );
}

/// Rewriting a field leaves the others as they are.
pub proof fn law_rewrite_keeps_other_fields(
    content: Seq<char>,
    key: Seq<char>,
    value: Seq<char>,
    other: Seq<char>,
)
    requires
        on_one_line(key),
        on_one_line(value),
        without_colon(key),
        without_colon(other),
        key != other,
    ensures
        field_value(rewritten(content, key, value), other) == field_value(content, other),
{
    let all = rewritten_lines(lines_of(content), key, value);
    lemma_rewritten_lines(content, key, value);
    lemma_written_lines_read_back(all, content.len() > 0 && content.last() == '\n', other);
    lemma_other_value(lines_of(content), key, value, other);
}

/// A file that was made to follow a channel follows it, so that nothing is
/// written the next time.
pub proof fn law_switched_source_follows_channel(content: Seq<char>, channel: Channel)
    ensures
        follows(switched(content, channel), channel),
{
    reveal_strlit("Suites");
    reveal_strlit("Components");
    reveal_strlit("stable");
    reveal_strlit("main");
    reveal_strlit("snapshot");
    reveal_strlit("experimental");
    let (suite, component) = suite_component(channel);
    let first = rewritten(content, "Suites"@, suite);
    law_rewritten_field_reads_back(content, "Suites"@, suite);
    law_rewritten_field_reads_back(first, "Components"@, component);
    assert("Suites"@.len() != "Components"@.len());
    law_rewrite_keeps_other_fields(first, "Components"@, component, "Suites"@);
    assert(trimmed(suite, CharClass::WhiteSpace) == suite);
    assert(trimmed(component, CharClass::WhiteSpace) == component);
}

/// A field is looked for line by line: the first line that starts with its key
/// and a colon gives its value, which is what follows, without the space
/// around.
pub proof fn law_first_line_with_the_key_counts(line: Seq<char>, rest: Seq<char>, key: Seq<char>)
    requires
        !line.contains('\n'),
        line.len() == 0 || line.last() != '\r',
    ensures
        field_value(line.push('\n') + rest, key) == if (key + ":"@).is_prefix_of(line) {
            Some(trimmed(line.skip(key.len() as int + 1), CharClass::WhiteSpace))
        } else {
            field_value(rest, key)
        },
        field_value(line, key) == if (key + ":"@).is_prefix_of(line) {
            Some(trimmed(line.skip(key.len() as int + 1), CharClass::WhiteSpace))
        } else {
            None
        },
{
    reveal_strlit(":");
    let prefix = key + ":"@;
    assert(prefix.len() == key.len() + 1);
    law_lines_end_with_line_feeds(line, rest);
    let all = seq![line] + lines_of(rest);
    assert(all[0] == line);
    assert(all.skip(1) =~= lines_of(rest));
    reveal_with_fuel(first_value, 2);
    assert(seq![line].skip(1) =~= Seq::<Seq<char>>::empty());
    if line.len() == 0 {
        assert(!prefix.is_prefix_of(line));
    }
}

/// Rewriting a field changes the lines that start with its key and a colon and
/// leaves the others as they are, in their places; where there is no such line
/// one is added at the end; and the text ends with a line feed just where it
/// did.
pub proof fn law_rewrite_changes_its_lines_only(
    content: Seq<char>,
    key: Seq<char>,
    value: Seq<char>,
)
    ensures
        ({
            let before = lines_of(content);
            let after = rewritten_lines(before, key, value);
            let found = exists|i: int|
                0 <= i < before.len() && (key + ":"@).is_prefix_of(#[trigger] before[i]);
            &&& after.len() == if found {
                before.len()
            } else {
                before.len() + 1
            }
            &&& forall|i: int|
                0 <= i < before.len() ==> #[trigger] after[i] == if (key + ":"@).is_prefix_of(
                    before[i],
                ) {
                    key + ": "@ + value
                } else {
                    before[i]
                }
            &&& !found ==> after.last() == key + ": "@ + value
            &&& rewritten(content, key, value) == joined(after, "\n"@) + (if content.len() > 0
                && content.last() == '\n' {
                "\n"@
            } else {
                Seq::empty()
            })
        }),
{
    let before = lines_of(content);
    lemma_found(before, key + ":"@);
    let text = joined(rewritten_lines(before, key, value), "\n"@);
    assert(text + Seq::<char>::empty() =~= text);
}

/// There is a value just where a line starts with the prefix.
proof fn lemma_found(all: Seq<Seq<char>>, prefix: Seq<char>)
    ensures
        first_value(all, prefix) is Some <==> exists|i: int|
            0 <= i < all.len() && prefix.is_prefix_of(#[trigger] all[i]),
    decreases all.len(),
{
    if all.len() > 0 {
        let rest = all.skip(1);
        lemma_found(rest, prefix);
        if prefix.is_prefix_of(all[0]) {
            assert(first_value(all, prefix) is Some);
        } else {
            if exists|i: int| 0 <= i < all.len() && prefix.is_prefix_of(#[trigger] all[i]) {
                let i = choose|i: int| 0 <= i < all.len() && prefix.is_prefix_of(#[trigger] all[i]);
                assert(rest[i - 1] == all[i]);
            }
            if exists|i: int| 0 <= i < rest.len() && prefix.is_prefix_of(#[trigger] rest[i]) {
                let i = choose|i: int|
                    0 <= i < rest.len() && prefix.is_prefix_of(#[trigger] rest[i]);
                assert(all[i + 1] == rest[i]);
            }
        }
    }
}

/// A source follows a channel just when its suite and its component are those
/// of the channel, and no source follows two channels.
pub proof fn law_source_follows_one_channel(content: Seq<char>, a: Channel, b: Channel)
    ensures
        follows(content, Channel::Stable) <==> field_value(content, "Suites"@) == Some("stable"@)
            && field_value(content, "Components"@) == Some("main"@),
        follows(content, Channel::Snapshot) <==> field_value(content, "Suites"@) == Some(
            "snapshot"@,
        ) && field_value(content, "Components"@) == Some("snapshot"@),
        follows(content, Channel::Experimental) <==> field_value(content, "Suites"@) == Some(
            "experimental"@,
        ) && field_value(content, "Components"@) == Some("experimental"@),
        follows(content, a) && follows(content, b) ==> a == b,
{
    reveal_strlit("stable");
    reveal_strlit("snapshot");
    reveal_strlit("experimental");
    assert("stable"@.len() == 6 && "snapshot"@.len() == 8 && "experimental"@.len() == 12);
}

/// Switching to a channel is rewriting the suite and then the component to those
/// of the channel, and nothing else.
pub proof fn law_switch_rewrites_two_fields(content: Seq<char>)
    ensures
        switched(content, Channel::Stable) == rewritten(
            rewritten(content, "Suites"@, "stable"@),
            "Components"@,
            "main"@,
        ),
        switched(content, Channel::Snapshot) == rewritten(
            rewritten(content, "Suites"@, "snapshot"@),
            "Components"@,
            "snapshot"@,
        ),
        switched(content, Channel::Experimental) == rewritten(
            rewritten(content, "Suites"@, "experimental"@),
            "Components"@,
            "experimental"@,
        ),
{
}

/// Switching to a channel changes the suite and the component alone.
pub proof fn law_switch_keeps_other_fields(content: Seq<char>, channel: Channel, other: Seq<char>)
    requires
        without_colon(other),
        other != "Suites"@,
        other != "Components"@,
    ensures
        field_value(switched(content, channel), other) == field_value(content, other),
{
    reveal_strlit("Suites");
    reveal_strlit("Components");
    reveal_strlit("stable");
    reveal_strlit("main");
    reveal_strlit("snapshot");
    reveal_strlit("experimental");
    let (suite, component) = suite_component(channel);
    let first = rewritten(content, "Suites"@, suite);
    law_rewrite_keeps_other_fields(content, "Suites"@, suite, other);
    law_rewrite_keeps_other_fields(first, "Components"@, component, other);
}

} // verus!
