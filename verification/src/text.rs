//! Text as sequences of characters: trimming, splitting, lines and decimal
//! numbers.
//!
//! Every executable function here is stated over the `Seq<char>` view of its
//! arguments, so that the modules above can speak of text without bytes.

use vstd::prelude::*;
use vstd::string::{StrSliceExecFns, StringExecFns};

verus! {

/// The classes of characters that text is trimmed of or split at.
#[derive(Clone, Copy, Debug)]
pub enum CharClass {
    /// The characters with the Unicode property `White_Space`.
    WhiteSpace,
    /// The separators of a version: `.`, `-` and `+`.
    VersionSeparator,
    /// One character.
    Only(char),
}

/// The characters with the Unicode property `White_Space`.
pub open spec fn is_white_space(c: char) -> bool {
    ||| '\u{9}' <= c <= '\u{d}'
    ||| c == '\u{20}'
    ||| c == '\u{85}'
    ||| c == '\u{a0}'
    ||| c == '\u{1680}'
    ||| '\u{2000}' <= c <= '\u{200a}'
    ||| c == '\u{2028}'
    ||| c == '\u{2029}'
    ||| c == '\u{202f}'
    ||| c == '\u{205f}'
    ||| c == '\u{3000}'
}

impl CharClass {
    /// Whether `c` belongs to the class.
    pub open spec fn has(self, c: char) -> bool {
        match self {
            CharClass::WhiteSpace => is_white_space(c),
            CharClass::VersionSeparator => c == '.' || c == '-' || c == '+',
            CharClass::Only(d) => c == d,
        }
    }

    /// Tests whether `c` belongs to the class.
    pub fn contains(self, c: char) -> (r: bool)
        ensures
            r == self.has(c),
    {
        match self {
            CharClass::WhiteSpace => {
                ('\u{9}' <= c && c <= '\u{d}') || c == '\u{20}' || c == '\u{85}' || c == '\u{a0}'
                    || c == '\u{1680}' || ('\u{2000}' <= c && c <= '\u{200a}') || c == '\u{2028}'
                    || c == '\u{2029}' || c == '\u{202f}' || c == '\u{205f}' || c == '\u{3000}'
            },
            CharClass::VersionSeparator => c == '.' || c == '-' || c == '+',
            CharClass::Only(d) => c == d,
        }
    }
}

/// The characters of `s`, in order.
pub fn chars_of(s: &str) -> (r: Vec<char>)
    ensures
        r@ == s@,
{
    let mut out: Vec<char> = Vec::new();
    for c in it: s.chars()
        invariant
            it.seq() == s@,
            out@ == s@.take(it.index() as int),
    {
        out.push(c);
        assert(s@.take(it.index() + 1) == s@.take(it.index() as int).push(c));
    }
    assert(s@.take(s@.len() as int) == s@);
    out
}

/// `s` without its leading characters of `class`.
pub open spec fn trim_start(s: Seq<char>, class: CharClass) -> Seq<char>
    decreases s.len(),
{
    if s.len() > 0 && class.has(s[0]) {
        trim_start(s.skip(1), class)
    } else {
        s
    }
}

/// `s` without its trailing characters of `class`.
pub open spec fn trim_end(s: Seq<char>, class: CharClass) -> Seq<char>
    decreases s.len(),
{
    if s.len() > 0 && class.has(s.last()) {
        trim_end(s.drop_last(), class)
    } else {
        s
    }
}

/// `s` without its leading and trailing characters of `class`.
pub open spec fn trimmed(s: Seq<char>, class: CharClass) -> Seq<char> {
    trim_end(trim_start(s, class), class)
}

/// Trims the characters of `class` off both ends of `s`.
pub fn trim<'a>(s: &'a str, class: CharClass) -> (r: &'a str)
    ensures
        r@ == trimmed(s@, class),
{
    let chars = chars_of(s);
    let mut lo: usize = 0;
    assert(s@.skip(0) == s@);
    while lo < chars.len() && class.contains(chars[lo])
        invariant
            lo <= chars.len(),
            chars@ == s@,
            trim_start(s@, class) == trim_start(s@.skip(lo as int), class),
        decreases chars.len() - lo,
    {
        assert(s@.skip(lo as int).skip(1) == s@.skip(lo + 1));
        lo = lo + 1;
    }
    let mut hi: usize = chars.len();
    assert(s@.subrange(lo as int, hi as int) == s@.skip(lo as int));
    while lo < hi && class.contains(chars[hi - 1])
        invariant
            lo <= hi <= chars.len(),
            chars@ == s@,
            trimmed(s@, class) == trim_end(s@.subrange(lo as int, hi as int), class),
        decreases hi,
    {
        assert(s@.subrange(lo as int, hi as int).drop_last() == s@.subrange(lo as int, hi - 1));
        hi = hi - 1;
    }
    s.substring_char(lo, hi)
}

/// The pieces of `s` between the characters of `class`: always one more than
/// there are such characters in `s`.
pub open spec fn pieces(s: Seq<char>, class: CharClass) -> Seq<Seq<char>>
    decreases s.len(),
{
    if s.len() == 0 {
        seq![Seq::empty()]
    } else {
        let before = pieces(s.drop_last(), class);
        if class.has(s.last()) {
            before.push(Seq::empty())
        } else {
            before.drop_last().push(before.last().push(s.last()))
        }
    }
}

/// There is always at least one piece.
pub proof fn lemma_pieces_not_empty(s: Seq<char>, class: CharClass)
    ensures
        pieces(s, class).len() > 0,
    decreases s.len(),
{
    if s.len() > 0 {
        lemma_pieces_not_empty(s.drop_last(), class);
    }
}

/// Text without a character of `class` is one piece.
pub proof fn lemma_one_piece(s: Seq<char>, class: CharClass)
    requires
        forall|i: int| 0 <= i < s.len() ==> !class.has(#[trigger] s[i]),
    ensures
        pieces(s, class) == seq![s],
    decreases s.len(),
{
    if s.len() > 0 {
        lemma_one_piece(s.drop_last(), class);
        assert(s.drop_last().push(s.last()) == s);
        assert(pieces(s, class) =~= seq![s]);
    } else {
        assert(s == Seq::<char>::empty());
    }
}

/// The pieces of two texts with a separator between them are those of the one
/// and then those of the other.
pub proof fn lemma_pieces_append(a: Seq<char>, sep: char, b: Seq<char>, class: CharClass)
    requires
        class.has(sep),
    ensures
        pieces(a.push(sep) + b, class) == pieces(a, class) + pieces(b, class),
    decreases b.len(),
{
    let s = a.push(sep) + b;
    if b.len() == 0 {
        assert(s == a.push(sep));
        assert(s.drop_last() == a);
        assert(pieces(s, class) =~= pieces(a, class) + pieces(b, class));
    } else {
        lemma_pieces_append(a, sep, b.drop_last(), class);
        lemma_pieces_not_empty(b.drop_last(), class);
        assert(s.drop_last() == a.push(sep) + b.drop_last());
        let before = pieces(b.drop_last(), class);
        assert((pieces(a, class) + before).drop_last() == pieces(a, class) + before.drop_last());
        assert(pieces(s, class) =~= pieces(a, class) + pieces(b, class));
    }
}

/// No piece has a character of `class`.
pub proof fn lemma_pieces_have_no_separator(s: Seq<char>, class: CharClass)
    ensures
        forall|i: int, j: int|
            0 <= i < pieces(s, class).len() && 0 <= j < pieces(s, class)[i].len() ==> !class.has(
                #[trigger] pieces(s, class)[i][j],
            ),
    decreases s.len(),
{
    if s.len() > 0 {
        lemma_pieces_have_no_separator(s.drop_last(), class);
        lemma_pieces_not_empty(s.drop_last(), class);
    }
}

/// Splits `s` at every character of `class`.
pub fn split<'a>(s: &'a str, class: CharClass) -> (r: Vec<&'a str>)
    ensures
        r.deep_view() == pieces(s@, class),
        r@.len() > 0,
{
    let chars = chars_of(s);
    let mut out: Vec<&'a str> = Vec::new();
    let mut start: usize = 0;
    let mut i: usize = 0;
    assert(s@.subrange(0, 0) == Seq::<char>::empty());
    assert(out.deep_view().push(s@.subrange(0, 0)) == seq![Seq::<char>::empty()]);
    assert(s@.take(0) == Seq::<char>::empty());
    while i < chars.len()
        invariant
            start <= i <= chars.len(),
            chars@ == s@,
            out.deep_view().push(s@.subrange(start as int, i as int)) == pieces(
                s@.take(i as int),
                class,
            ),
        decreases chars.len() - i,
    {
        let ghost before = out.deep_view();
        let ghost done = s@.take(i as int);
        let ghost piece = s@.subrange(start as int, i as int);
        assert(s@.take(i + 1).drop_last() == done);
        assert(before.push(piece).drop_last() == before);
        if class.contains(chars[i]) {
            out.push(s.substring_char(start, i));
            start = i + 1;
            assert(out.deep_view() =~= before.push(piece));
            assert(s@.subrange(start as int, i + 1) == Seq::<char>::empty());
        } else {
            assert(s@.subrange(start as int, i + 1) == piece.push(s@[i as int]));
        }
        i = i + 1;
    }
    let ghost before = out.deep_view();
    out.push(s.substring_char(start, i));
    assert(out.deep_view() =~= before.push(s@.subrange(start as int, i as int)));
    assert(s@.take(i as int) == s@);
    out
}

/// `s` without the carriage return at its end, if it has one.
pub open spec fn without_carriage_return(s: Seq<char>) -> Seq<char> {
    if s.len() > 0 && s.last() == '\r' {
        s.drop_last()
    } else {
        s
    }
}

/// The lines of `s`. A line ends with a line feed, before which one carriage
/// return is dropped; the last line feed may be missing.
pub open spec fn lines_of(s: Seq<char>) -> Seq<Seq<char>> {
    let parts = pieces(s, CharClass::Only('\n'));
    let ended = parts.drop_last().map_values(|l: Seq<char>| without_carriage_return(l));
    if parts.last().len() == 0 {
        ended
    } else {
        ended.push(parts.last())
    }
}

/// Splits `s` into its lines.
pub fn lines<'a>(s: &'a str) -> (r: Vec<&'a str>)
    ensures
        r.deep_view() == lines_of(s@),
{
    let parts = split(s, CharClass::Only('\n'));
    let ghost all = parts.deep_view();
    let ghost ended = all.drop_last().map_values(|l: Seq<char>| without_carriage_return(l));
    let mut out: Vec<&'a str> = Vec::new();
    let mut i: usize = 0;
    while i + 1 < parts.len()
        invariant
            i < parts.len(),
            all == parts.deep_view(),
            ended == all.drop_last().map_values(|l: Seq<char>| without_carriage_return(l)),
            out.deep_view() == ended.take(i as int),
        decreases parts.len() - i,
    {
        let part = parts[i];
        let chars = chars_of(part);
        let ghost before = out.deep_view();
        assert(part@ == all[i as int]);
        if chars.len() > 0 && chars[chars.len() - 1] == '\r' {
            out.push(part.substring_char(0, chars.len() - 1));
            assert(part@.subrange(0, part@.len() - 1) == part@.drop_last());
        } else {
            out.push(part);
        }
        assert(out.deep_view() =~= before.push(ended[i as int]));
        assert(ended.take(i + 1) == ended.take(i as int).push(ended[i as int]));
        i = i + 1;
    }
    let last = parts[i];
    assert(last@ == all.last());
    assert(ended.take(i as int) == ended);
    if !last.is_empty() {
        let ghost before = out.deep_view();
        out.push(last);
        assert(out.deep_view() =~= before.push(last@));
    }
    out
}

/// Tests whether the characters of `a` and `b` are the same.
pub fn same_text(a: &str, b: &str) -> (r: bool)
    ensures
        r == (a@ == b@),
{
    let x = chars_of(a);
    let y = chars_of(b);
    if x.len() != y.len() {
        return false;
    }
    let mut i: usize = 0;
    while i < x.len()
        invariant
            i <= x.len(),
            x.len() == y.len(),
            x@ == a@,
            y@ == b@,
            forall|j: int| 0 <= j < i ==> a@[j] == b@[j],
        decreases x.len() - i,
    {
        if x[i] != y[i] {
            assert(a@[i as int] != b@[i as int]);
            return false;
        }
        i = i + 1;
    }
    assert(a@ =~= b@);
    true
}

/// What follows `prefix` in `s`, or nothing if `s` does not start with it.
pub open spec fn after_prefix(s: Seq<char>, prefix: Seq<char>) -> Option<Seq<char>> {
    if prefix.is_prefix_of(s) {
        Some(s.skip(prefix.len() as int))
    } else {
        None
    }
}

/// Strips `prefix` off the start of `s`.
pub fn strip_prefix<'a>(s: &'a str, prefix: &str) -> (r: Option<&'a str>)
    ensures
        r.deep_view() == after_prefix(s@, prefix@),
{
    let x = chars_of(s);
    let y = chars_of(prefix);
    if x.len() < y.len() {
        return None;
    }
    let mut i: usize = 0;
    while i < y.len()
        invariant
            i <= y.len() <= x.len(),
            x@ == s@,
            y@ == prefix@,
            forall|j: int| 0 <= j < i ==> s@[j] == prefix@[j],
        decreases y.len() - i,
    {
        if x[i] != y[i] {
            assert(s@.subrange(0, prefix@.len() as int)[i as int] == s@[i as int]);
            return None;
        }
        i = i + 1;
    }
    assert(prefix@ =~= s@.subrange(0, prefix@.len() as int));
    assert(s@.subrange(prefix@.len() as int, s@.len() as int) == s@.skip(prefix@.len() as int));
    Some(s.substring_char(y.len(), x.len()))
}

/// The texts of `parts` one after the other, with `sep` between them.
pub open spec fn joined(parts: Seq<Seq<char>>, sep: Seq<char>) -> Seq<char>
    decreases parts.len(),
{
    if parts.len() == 0 {
        Seq::empty()
    } else if parts.len() == 1 {
        parts[0]
    } else {
        joined(parts.drop_last(), sep) + sep + parts.last()
    }
}

/// Joins `parts` with `sep` between them.
pub fn join(parts: &Vec<String>, sep: &str) -> (r: String)
    ensures
        r@ == joined(parts.deep_view(), sep@),
{
    let mut out = String::new();
    let mut i: usize = 0;
    let ghost all = parts.deep_view();
    while i < parts.len()
        invariant
            i <= parts.len(),
            all == parts.deep_view(),
            out@ == joined(all.take(i as int), sep@),
        decreases parts.len() - i,
    {
        assert(all.take(i + 1).drop_last() == all.take(i as int));
        if i > 0 {
            out.append(sep);
        }
        out.append(parts[i].as_str());
        assert(parts[i as int]@ == all[i as int]);
        if i == 0 {
            assert(all.take(0).len() == 0);
            assert(out@ == all[0]);
        }
        i = i + 1;
    }
    assert(all.take(i as int) == all);
    out
}

/// `s` on one line: with a space for each line feed.
pub open spec fn flattened(s: Seq<char>) -> Seq<char> {
    s.map_values(
        |c: char|
            if c == '\n' {
                ' '
            } else {
                c
            },
    )
}

/// Puts `s` on one line.
pub fn one_line(s: &str) -> (r: String)
    ensures
        r@ == flattened(s@),
{
    let chars = chars_of(s);
    let mut out = String::new();
    let mut start: usize = 0;
    let mut i: usize = 0;
    while i < chars.len()
        invariant
            start <= i <= chars.len(),
            chars@ == s@,
            out@ == flattened(s@).take(start as int),
            forall|j: int| start <= j < i ==> #[trigger] s@[j] != '\n',
        decreases chars.len() - i,
    {
        if chars[i] == '\n' {
            out.append(s.substring_char(start, i));
            out.append(" ");
            proof {
                reveal_strlit(" ");
                assert(out@ =~= flattened(s@).take(i + 1));
            }
            start = i + 1;
        }
        i = i + 1;
    }
    out.append(s.substring_char(start, i));
    assert(out@ =~= flattened(s@));
    out
}

/// Whether `c` is one of `0` to `9`.
pub open spec fn is_digit(c: char) -> bool {
    '0' <= c <= '9'
}

/// The value of a digit.
pub open spec fn digit_value(c: char) -> nat {
    if is_digit(c) {
        (c as int - '0' as int) as nat
    } else {
        0
    }
}

/// Whether `s` consists of digits, at least one.
pub open spec fn is_number(s: Seq<char>) -> bool {
    s.len() > 0 && forall|i: int| 0 <= i < s.len() ==> is_digit(#[trigger] s[i])
}

/// The number that the digits `s` stand for, in base ten.
pub open spec fn number(s: Seq<char>) -> nat
    decreases s.len(),
{
    if s.len() == 0 {
        0
    } else {
        number(s.drop_last()) * 10 + digit_value(s.last())
    }
}

/// Reads `s` as a number in base ten: digits only, at least one, and no more
/// than fits in the result.
pub fn parse_number(s: &str) -> (r: Option<u64>)
    ensures
        r is Some <==> is_number(s@) && number(s@) <= u64::MAX,
        r matches Some(n) ==> n == number(s@),
{
    let chars = chars_of(s);
    if chars.len() == 0 {
        return None;
    }
    let mut value: Option<u64> = Some(0);
    let mut i: usize = 0;
    assert(s@.take(0) == Seq::<char>::empty());
    while i < chars.len()
        invariant
            i <= chars.len(),
            chars@ == s@,
            forall|j: int| 0 <= j < i ==> is_digit(s@[j]),
            value is Some <==> number(s@.take(i as int)) <= u64::MAX,
            value matches Some(n) ==> n == number(s@.take(i as int)),
        decreases chars.len() - i,
    {
        let c = chars[i];
        if !('0' <= c && c <= '9') {
            assert(!is_digit(s@[i as int]));
            return None;
        }
        let d: u64 = (c as u32 - '0' as u32) as u64;
        assert(s@.take(i + 1).drop_last() == s@.take(i as int));
        value = match value {
            Some(n) => match n.checked_mul(10) {
                Some(m) => m.checked_add(d),
                None => None,
            },
            None => None,
        };
        i = i + 1;
    }
    assert(s@.take(i as int) == s@);
    value
}

/// The digit that stands for `n`.
pub open spec fn digit(n: nat) -> char {
    ('0' as int + n) as char
}

/// `n` in base ten, without leading zeros.
pub open spec fn decimal(n: nat) -> Seq<char>
    decreases n,
{
    if n < 10 {
        seq![digit(n)]
    } else {
        decimal(n / 10).push(digit(n % 10))
    }
}

/// The digit that stands for `n`, as text.
fn digit_text(n: u64) -> (r: &'static str)
    requires
        n < 10,
    ensures
        r@ == seq![digit(n as nat)],
{
    proof {
        reveal_strlit("0");
        reveal_strlit("1");
        reveal_strlit("2");
        reveal_strlit("3");
        reveal_strlit("4");
        reveal_strlit("5");
        reveal_strlit("6");
        reveal_strlit("7");
        reveal_strlit("8");
        reveal_strlit("9");
    }
    let r = match n {
        0 => "0",
        1 => "1",
        2 => "2",
        3 => "3",
        4 => "4",
        5 => "5",
        6 => "6",
        7 => "7",
        8 => "8",
        _ => "9",
    };
    assert(r@ =~= seq![digit(n as nat)]);
    r
}

/// Writes `n` in base ten.
pub fn decimal_text(n: u64) -> (r: String)
    ensures
        r@ == decimal(n as nat),
    decreases n,
{
    if n < 10 {
        digit_text(n).to_owned()
    } else {
        let mut out = decimal_text(n / 10);
        let last = digit_text(n % 10);
        out.append(last);
        assert(out@ =~= decimal((n / 10) as nat).push(digit((n % 10) as nat)));
        out
    }
}

/// Reading back what `decimal` wrote gives the number again.
pub proof fn law_decimal_reads_back(n: nat)
    ensures
        is_number(decimal(n)),
        number(decimal(n)) == n,
    decreases n,
{
    if n < 10 {
        let s = decimal(n);
        assert(s.drop_last() == Seq::<char>::empty());
        assert(number(s.drop_last()) == 0);
    } else {
        law_decimal_reads_back(n / 10);
        let s = decimal(n);
        assert(s.drop_last() == decimal(n / 10));
    }
}

/// Which characters are in a class.
pub proof fn law_classes_hold_their_characters(c: char, d: char)
    ensures
        CharClass::Only(d).has(c) <==> c == d,
        CharClass::VersionSeparator.has(c) <==> seq!['.', '-', '+'].contains(c),
        is_digit(c) <==> '0' <= c <= '9',
{
    let separators = seq!['.', '-', '+'];
    assert(separators[0] == '.' && separators[1] == '-' && separators[2] == '+');
}

proof fn lemma_trim_start_skips(a: Seq<char>, s: Seq<char>, class: CharClass)
    requires
        forall|i: int| 0 <= i < a.len() ==> class.has(#[trigger] a[i]),
        s.len() > 0 ==> !class.has(s[0]),
    ensures
        trim_start(a + s, class) == s,
    decreases a.len(),
{
    if a.len() == 0 {
        assert(a + s =~= s);
    } else {
        assert((a + s)[0] == a[0]);
        assert((a + s).skip(1) =~= a.skip(1) + s);
        assert forall|i: int| 0 <= i < a.skip(1).len() implies class.has(#[trigger] a.skip(1)[i]) by {
            assert(a.skip(1)[i] == a[i + 1]);
        }
        lemma_trim_start_skips(a.skip(1), s, class);
    }
}

proof fn lemma_trim_end_skips(s: Seq<char>, b: Seq<char>, class: CharClass)
    requires
        forall|i: int| 0 <= i < b.len() ==> class.has(#[trigger] b[i]),
        s.len() > 0 ==> !class.has(s.last()),
    ensures
        trim_end(s + b, class) == s,
    decreases b.len(),
{
    if b.len() == 0 {
        assert(s + b =~= s);
    } else {
        assert((s + b).last() == b[b.len() - 1]);
        assert((s + b).drop_last() =~= s + b.drop_last());
        assert forall|i: int| 0 <= i < b.drop_last().len() implies class.has(
            #[trigger] b.drop_last()[i],
        ) by {
            assert(b.drop_last()[i] == b[i]);
        }
        lemma_trim_end_skips(s, b.drop_last(), class);
    }
}

/// What is trimmed away is what a text starts and ends with of the class, and
/// nothing else.
pub proof fn law_trimming_takes_off_both_ends(
    before: Seq<char>,
    middle: Seq<char>,
    after: Seq<char>,
    class: CharClass,
)
    requires
        forall|i: int| 0 <= i < before.len() ==> class.has(#[trigger] before[i]),
        forall|i: int| 0 <= i < after.len() ==> class.has(#[trigger] after[i]),
        middle.len() > 0 ==> !class.has(middle[0]) && !class.has(middle.last()),
    ensures
        trimmed(before + middle + after, class) == middle,
{
    if middle.len() == 0 {
        let all = before + after;
        assert(before + middle + after =~= all + Seq::<char>::empty());
        assert forall|i: int| 0 <= i < all.len() implies class.has(#[trigger] all[i]) by {
            if i < before.len() {
                assert(all[i] == before[i]);
            } else {
                assert(all[i] == after[i - before.len()]);
            }
        }
        lemma_trim_start_skips(all, Seq::empty(), class);
        assert(middle =~= Seq::<char>::empty());
    } else {
        assert(before + middle + after =~= before + (middle + after));
        assert((middle + after)[0] == middle[0]);
        lemma_trim_start_skips(before, middle + after, class);
        lemma_trim_end_skips(middle, after, class);
    }
}

/// A text is split into pieces that have no separator, and joining them with
/// the separator gives the text again.
pub proof fn law_pieces_join_to_the_text(s: Seq<char>, sep: char)
    ensures
        joined(pieces(s, CharClass::Only(sep)), seq![sep]) == s,
        forall|i: int|
            0 <= i < pieces(s, CharClass::Only(sep)).len() ==> !(#[trigger] pieces(
                s,
                CharClass::Only(sep),
            )[i]).contains(sep),
    decreases s.len(),
{
    let class = CharClass::Only(sep);
    let all = pieces(s, class);
    lemma_pieces_have_no_separator(s, class);
    assert forall|i: int| 0 <= i < all.len() implies !(#[trigger] all[i]).contains(sep) by {
        if all[i].contains(sep) {
            let j = choose|j: int| 0 <= j < all[i].len() && all[i][j] == sep;
            assert(!class.has(all[i][j]));
        }
    }
    if s.len() == 0 {
        assert(all =~= seq![Seq::<char>::empty()]);
        assert(s =~= Seq::<char>::empty());
    } else {
        let before = pieces(s.drop_last(), class);
        law_pieces_join_to_the_text(s.drop_last(), sep);
        lemma_pieces_not_empty(s.drop_last(), class);
        assert(s.drop_last().push(s.last()) =~= s);
        if class.has(s.last()) {
            assert(all.drop_last() =~= before);
            assert(joined(before, seq![sep]) + seq![sep] + Seq::<char>::empty() =~= s);
        } else {
            assert(all.drop_last() =~= before.drop_last());
            if before.len() == 1 {
                assert(all[0] == before[0].push(s.last()));
            } else {
                assert(joined(before, seq![sep]).push(s.last()) =~= joined(
                    before.drop_last(),
                    seq![sep],
                ) + seq![sep] + before.last().push(s.last()));
            }
        }
    }
}

/// The pieces of a text that goes on after a separator are those of its first
/// part and those of its second; a text without a separator is one piece.
pub proof fn law_pieces_of_texts_in_a_row(
    a: Seq<char>,
    sep: char,
    b: Seq<char>,
    class: CharClass,
)
    requires
        class.has(sep),
    ensures
        pieces(a.push(sep) + b, class) == pieces(a, class) + pieces(b, class),
        (forall|i: int| 0 <= i < a.len() ==> !class.has(#[trigger] a[i])) ==> pieces(a, class)
            == seq![a],
{
    lemma_pieces_append(a, sep, b, class);
    if forall|i: int| 0 <= i < a.len() ==> !class.has(#[trigger] a[i]) {
        lemma_one_piece(a, class);
    }
}

/// A line ends with a line feed, and with a carriage return before that if
/// there is one; what comes after the last line feed is a line unless it is
/// empty.
pub proof fn law_lines_end_with_line_feeds(line: Seq<char>, rest: Seq<char>)
    requires
        !line.contains('\n'),
    ensures
        lines_of(line.push('\n') + rest) == seq![
            if line.len() > 0 && line.last() == '\r' {
                line.drop_last()
            } else {
                line
            },
        ] + lines_of(rest),
        lines_of(line) == if line.len() == 0 {
            Seq::<Seq<char>>::empty()
        } else {
            seq![line]
        },
{
    let class = CharClass::Only('\n');
    assert forall|i: int| 0 <= i < line.len() implies !class.has(#[trigger] line[i]) by {
        assert(line.contains(line[i]));
    }
    lemma_one_piece(line, class);
    lemma_pieces_append(line, '\n', rest, class);
    lemma_pieces_not_empty(rest, class);
    let parts = pieces(rest, class);
    let all = seq![line] + parts;
    assert(all.last() == parts.last());
    assert(all.drop_last() =~= seq![line] + parts.drop_last());
    assert(lines_of(line.push('\n') + rest) =~= seq![without_carriage_return(line)] + lines_of(
        rest,
    ));
    assert(seq![line].drop_last() =~= Seq::<Seq<char>>::empty());
    assert(lines_of(line) =~= if line.len() == 0 {
        Seq::<Seq<char>>::empty()
    } else {
        seq![line]
    });
}

/// Stripping a prefix undoes putting it in front, and does nothing else.
pub proof fn law_prefix_comes_off(prefix: Seq<char>, s: Seq<char>)
    ensures
        after_prefix(prefix + s, prefix) == Some(s),
        after_prefix(s, prefix) matches Some(rest) ==> s == prefix + rest,
{
    assert((prefix + s).subrange(0, prefix.len() as int) =~= prefix);
    assert((prefix + s).skip(prefix.len() as int) =~= s);
    if let Some(rest) = after_prefix(s, prefix) {
        assert(s =~= prefix + rest);
    }
}

/// Joined texts stand in their order with the separator between each two.
pub proof fn law_joining_puts_the_separator_between(
    a: Seq<Seq<char>>,
    last: Seq<char>,
    sep: Seq<char>,
)
    ensures
        joined(seq![last], sep) == last,
        a.len() > 0 ==> joined(a.push(last), sep) == joined(a, sep) + sep + last,
{
    assert(a.push(last).drop_last() =~= a);
}

/// On one line each character stays in its place; only line feeds become
/// spaces.
pub proof fn law_one_line_keeps_the_rest(s: Seq<char>)
    ensures
        flattened(s).len() == s.len(),
        !flattened(s).contains('\n'),
        forall|i: int|
            0 <= i < s.len() ==> #[trigger] flattened(s)[i] == if s[i] == '\n' {
                ' '
            } else {
                s[i]
            },
{
}

/// The digits of a number count by their places: one more digit makes ten times
/// the number, and the digit; a zero in front makes no difference.
pub proof fn law_digits_count_by_place(s: Seq<char>, n: nat)
    requires
        n < 10,
    ensures
        number(seq!["0123456789"@[n as int]]) == n,
        number(s.push("0123456789"@[n as int])) == 10 * number(s) + n,
        is_number(s) ==> is_number(s.push("0123456789"@[n as int])),
        number(seq!['0'] + s) == number(s),
    decreases s.len(),
{
    reveal_strlit("0123456789");
    let c = "0123456789"@[n as int];
    assert(c == digit(n));
    assert(s.push(c).drop_last() =~= s);
    assert(seq![c].drop_last() =~= Seq::<char>::empty());
    assert(number(Seq::<char>::empty()) == 0);
    let zeros = seq!['0'] + s;
    if s.len() == 0 {
        assert(zeros.drop_last() =~= Seq::<char>::empty());
    } else {
        law_digits_count_by_place(s.drop_last(), n);
        assert(zeros.drop_last() =~= seq!['0'] + s.drop_last());
        assert(zeros.last() == s.last());
    }
}

/// A number is written with the digits that stand for it by their places, and
/// without zeros in front.
pub proof fn law_decimal_is_written_by_place(n: nat)
    ensures
        n < 10 ==> decimal(n) == seq!["0123456789"@[n as int]],
        n >= 10 ==> decimal(n) == decimal(n / 10).push("0123456789"@[(n % 10) as int]),
        n > 0 ==> decimal(n)[0] != '0',
    decreases n,
{
    reveal_strlit("0123456789");
    if n >= 10 {
        law_decimal_is_written_by_place(n / 10);
        law_decimal_reads_back(n / 10);
        assert(decimal(n)[0] == decimal(n / 10)[0]);
    }
}

} // verus!
