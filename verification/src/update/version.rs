//! Version strings: componentwise comparison and the release channel that a
//! version was published on.

use std::cmp::Ordering;

use vstd::prelude::*;

use crate::manifest::Channel;
use crate::text::{
    chars_of, decimal, is_digit, is_number, law_decimal_reads_back, law_digits_count_by_place,
    lemma_one_piece, lemma_pieces_append, lemma_pieces_not_empty, number, parse_number, pieces,
    same_text, split, CharClass,
};

verus! {

/// What one component of a version counts for: its number, or zero where it is
/// not a number or does not fit in 64 bits.
pub open spec fn component_value(component: Seq<char>) -> u64 {
    if is_number(component) && number(component) <= u64::MAX {
        number(component) as u64
    } else {
        0
    }
}

/// The components of a version: what stands between its separators.
pub open spec fn components(version: Seq<char>) -> Seq<u64> {
    pieces(version, CharClass::VersionSeparator).map_values(|c: Seq<char>| component_value(c))
}

/// The components of `version`, in order.
fn parts(version: &str) -> (r: Vec<u64>)
    ensures
        r@ == components(version@),
{
    let texts = split(version, CharClass::VersionSeparator);
    let ghost all = texts.deep_view();
    let mut out: Vec<u64> = Vec::new();
    let mut i: usize = 0;
    while i < texts.len()
        invariant
            i <= texts.len(),
            all == texts.deep_view(),
            all == pieces(version@, CharClass::VersionSeparator),
            out@ == components(version@).take(i as int),
        decreases texts.len() - i,
    {
        assert(texts[i as int]@ == all[i as int]);
        let value: u64 = match parse_number(texts[i]) {
            Some(n) => n,
            None => 0,
        };
        out.push(value);
        assert(components(version@).take(i + 1) == components(version@).take(i as int).push(
            components(version@)[i as int],
        ));
        i = i + 1;
    }
    assert(components(version@).take(i as int) == components(version@));
    out
}

/// The component at place `i`, where the components go on with zeros for ever.
pub open spec fn component_at(c: Seq<u64>, i: int) -> u64 {
    if 0 <= i < c.len() {
        c[i]
    } else {
        0
    }
}

/// Whether `a` and `b` have the same components.
pub open spec fn same_components(a: Seq<u64>, b: Seq<u64>) -> bool {
    forall|i: int| 0 <= i ==> component_at(a, i) == component_at(b, i)
}

/// Whether `a` and `b` first differ at place `i`, and `a` is lower there.
pub open spec fn lower_first_at(a: Seq<u64>, b: Seq<u64>, i: int) -> bool {
    &&& 0 <= i
    &&& component_at(a, i) < component_at(b, i)
    &&& forall|j: int| 0 <= j < i ==> component_at(a, j) == component_at(b, j)
}

/// Whether `a` is lower than `b` at the first place where they differ.
pub open spec fn lower(a: Seq<u64>, b: Seq<u64>) -> bool {
    exists|i: int| lower_first_at(a, b, i)
}

/// How version `a` compares with version `b`.
pub open spec fn version_order(a: Seq<char>, b: Seq<char>) -> Ordering {
    if lower(components(a), components(b)) {
        Ordering::Less
    } else if lower(components(b), components(a)) {
        Ordering::Greater
    } else {
        Ordering::Equal
    }
}

/// The component at place `i`, or zero beyond the last.
fn component(c: &Vec<u64>, i: usize) -> (r: u64)
    ensures
        r == component_at(c@, i as int),
{
    if i < c.len() {
        c[i]
    } else {
        0
    }
}

/// Of two lists that agree before `i` and differ there, one is lower.
proof fn lemma_differ_at(a: Seq<u64>, b: Seq<u64>, i: int)
    requires
        0 <= i,
        component_at(a, i) < component_at(b, i),
        forall|j: int| 0 <= j < i ==> component_at(a, j) == component_at(b, j),
    ensures
        lower(a, b),
        !lower(b, a),
{
    assert(lower_first_at(a, b, i));
    if lower(b, a) {
        let k = choose|k: int| lower_first_at(b, a, k);
        if k < i {
            assert(component_at(a, k) == component_at(b, k));
        } else if i < k {
            assert(component_at(b, i) == component_at(a, i));
        }
    }
}

/// Whether `x` is the lower of the two at the first place where they differ;
/// nothing if they differ nowhere.
fn first_is_lower(x: &Vec<u64>, y: &Vec<u64>) -> (r: Option<bool>)
    ensures
        r is None <==> same_components(x@, y@),
        r is None ==> !lower(x@, y@) && !lower(y@, x@),
        r matches Some(first) ==> lower(x@, y@) == first && lower(y@, x@) == !first,
{
    let n: usize = if x.len() < y.len() {
        y.len()
    } else {
        x.len()
    };
    let mut i: usize = 0;
    while i < n
        invariant
            i <= n,
            n >= x.len(),
            n >= y.len(),
            forall|j: int| 0 <= j < i ==> component_at(x@, j) == component_at(y@, j),
        decreases n - i,
    {
        let xi = component(x, i);
        let yi = component(y, i);
        if xi < yi {
            proof {
                lemma_differ_at(x@, y@, i as int);
            }
            return Some(true);
        }
        if xi > yi {
            proof {
                lemma_differ_at(y@, x@, i as int);
            }
            return Some(false);
        }
        i = i + 1;
    }
    None
}

/// Compares two versions component by component, from the left.
///
/// The components are what stands between `.`, `-` and `+`; one that is not a
/// number counts as zero, and the shorter version goes on with zeros. What
/// follows a `+` takes part, so that a newer build of the same day sorts
/// higher. A pre-release suffix has no order of its own.
pub fn compare_components(a: &str, b: &str) -> (r: Ordering)
    ensures
        r == version_order(a@, b@),
        r is Equal <==> same_components(components(a@), components(b@)),
{
    let x = parts(a);
    let y = parts(b);
    match first_is_lower(&x, &y) {
        Some(true) => Ordering::Less,
        Some(false) => Ordering::Greater,
        None => Ordering::Equal,
    }
}

/// Whether `version` is a plain release: numbers with dots between them and
/// nothing else.
pub open spec fn is_plain_release(version: Seq<char>) -> bool {
    let parts = pieces(version, CharClass::Only('.'));
    forall|i: int| 0 <= i < parts.len() ==> is_number(#[trigger] parts[i])
}

/// Whether one of the components of `version` reads `experimental`.
pub open spec fn has_experimental_segment(version: Seq<char>) -> bool {
    pieces(version, CharClass::VersionSeparator).contains("experimental"@)
}

/// The channel that `version` was published on.
pub open spec fn channel_of(version: Seq<char>) -> Channel {
    if is_plain_release(version) {
        Channel::Stable
    } else if has_experimental_segment(version) {
        Channel::Experimental
    } else {
        Channel::Snapshot
    }
}

/// Tests whether `s` consists of digits, at least one.
fn all_digits(s: &str) -> (r: bool)
    ensures
        r == is_number(s@),
{
    let chars = chars_of(s);
    let mut i: usize = 0;
    while i < chars.len()
        invariant
            i <= chars.len(),
            chars@ == s@,
            forall|j: int| 0 <= j < i ==> is_digit(s@[j]),
        decreases chars.len() - i,
    {
        let c = chars[i];
        if !('0' <= c && c <= '9') {
            assert(!is_digit(s@[i as int]));
            return false;
        }
        i = i + 1;
    }
    chars.len() > 0
}

/// Infers which channel a version was published on.
///
/// A stable release is a plain dotted number such as `0.81.2`. Every other
/// build carries something more (`+build.…`, `+pr.…`, `+commit.…`, or the same
/// with `-` where a registry does not take `+`). Of those, one with an
/// `experimental` segment is an experimental build, and the rest are
/// snapshot-line builds.
pub fn channel_of_version(version: &str) -> (r: Channel)
    ensures
        r == channel_of(version@),
{
    let dotted = split(version, CharClass::Only('.'));
    let ghost dotted_texts = dotted.deep_view();
    let mut plain = true;
    let mut i: usize = 0;
    while i < dotted.len()
        invariant
            i <= dotted.len(),
            dotted_texts == dotted.deep_view(),
            plain == forall|j: int| 0 <= j < i ==> is_number(#[trigger] dotted_texts[j]),
        decreases dotted.len() - i,
    {
        assert(dotted[i as int]@ == dotted_texts[i as int]);
        if !all_digits(dotted[i]) {
            plain = false;
        }
        i = i + 1;
    }
    if plain {
        return Channel::Stable;
    }
    let segments = split(version, CharClass::VersionSeparator);
    let ghost segment_texts = segments.deep_view();
    let mut i: usize = 0;
    while i < segments.len()
        invariant
            i <= segments.len(),
            segment_texts == segments.deep_view(),
            segment_texts == pieces(version@, CharClass::VersionSeparator),
            !is_plain_release(version@),
            forall|j: int| 0 <= j < i ==> segment_texts[j] != "experimental"@,
        decreases segments.len() - i,
    {
        assert(segments[i as int]@ == segment_texts[i as int]);
        if same_text(segments[i], "experimental") {
            return Channel::Experimental;
        }
        i = i + 1;
    }
    Channel::Snapshot
}

/// Two lists of components either first differ somewhere, and then one of them
/// is lower, or are the same.
proof fn lemma_lower_or_same(a: Seq<u64>, b: Seq<u64>)
    ensures
        same_components(a, b) <==> !lower(a, b) && !lower(b, a),
        !(lower(a, b) && lower(b, a)),
{
    if lower(a, b) {
        let i = choose|i: int| lower_first_at(a, b, i);
        lemma_differ_at(a, b, i);
        assert(component_at(a, i) != component_at(b, i));
    } else if lower(b, a) {
        let i = choose|i: int| lower_first_at(b, a, i);
        lemma_differ_at(b, a, i);
        assert(component_at(a, i) != component_at(b, i));
    } else {
        assert forall|i: int| 0 <= i implies component_at(a, i) == component_at(b, i) by {
            lemma_same_up_to(a, b, i);
        }
    }
}

/// Where neither list is lower they agree up to every place.
proof fn lemma_same_up_to(a: Seq<u64>, b: Seq<u64>, i: int)
    requires
        0 <= i,
        !lower(a, b),
        !lower(b, a),
    ensures
        forall|j: int| 0 <= j <= i ==> component_at(a, j) == component_at(b, j),
    decreases i,
{
    if i > 0 {
        lemma_same_up_to(a, b, i - 1);
    }
    if component_at(a, i) < component_at(b, i) {
        assert(lower_first_at(a, b, i));
    }
    if component_at(b, i) < component_at(a, i) {
        assert(lower_first_at(b, a, i));
    }
}

/// Every version compares equal with itself.
pub proof fn law_order_is_reflexive(a: Seq<char>)
    ensures
        version_order(a, a) is Equal,
{
    lemma_lower_or_same(components(a), components(a));
}

/// Comparing the other way round gives the opposite order.
pub proof fn law_order_is_antisymmetric(a: Seq<char>, b: Seq<char>)
    ensures
        version_order(a, b) is Less <==> version_order(b, a) is Greater,
        version_order(a, b) is Equal <==> version_order(b, a) is Equal,
{
    lemma_lower_or_same(components(a), components(b));
}

/// What is lower than a version is lower than everything above that version.
pub proof fn law_order_is_transitive(a: Seq<char>, b: Seq<char>, c: Seq<char>)
    requires
        version_order(a, b) is Less,
        version_order(b, c) is Less,
    ensures
        version_order(a, c) is Less,
{
    let (x, y, z) = (components(a), components(b), components(c));
    let i = choose|i: int| lower_first_at(x, y, i);
    let j = choose|j: int| lower_first_at(y, z, j);
    if i < j {
        assert(component_at(y, i) == component_at(z, i));
        assert(lower_first_at(x, z, i));
    } else {
        assert(j < i ==> component_at(x, j) == component_at(y, j));
        assert(lower_first_at(x, z, j));
    }
}

/// Versions that compare equal compare alike with every other version.
pub proof fn law_equal_versions_order_alike(a: Seq<char>, b: Seq<char>, c: Seq<char>)
    requires
        version_order(a, b) is Equal,
    ensures
        version_order(a, c) == version_order(b, c),
        version_order(c, a) == version_order(c, b),
{
    let (x, y, z) = (components(a), components(b), components(c));
    lemma_lower_or_same(x, y);
    assert forall|i: int| lower_first_at(x, z, i) == lower_first_at(y, z, i) by {
        assert(0 <= i ==> component_at(x, i) == component_at(y, i));
        assert forall|j: int| 0 <= j < i implies component_at(x, j) == component_at(y, j) by {}
    }
    assert forall|i: int| lower_first_at(z, x, i) == lower_first_at(z, y, i) by {
        assert(0 <= i ==> component_at(x, i) == component_at(y, i));
        assert forall|j: int| 0 <= j < i implies component_at(x, j) == component_at(y, j) by {}
    }
    assert(lower(x, z) ==> lower(y, z)) by {
        if lower(x, z) {
            let i = choose|i: int| lower_first_at(x, z, i);
            assert(lower_first_at(y, z, i));
        }
    }
    assert(lower(y, z) ==> lower(x, z)) by {
        if lower(y, z) {
            let i = choose|i: int| lower_first_at(y, z, i);
            assert(lower_first_at(x, z, i));
        }
    }
    assert(lower(z, x) ==> lower(z, y)) by {
        if lower(z, x) {
            let i = choose|i: int| lower_first_at(z, x, i);
            assert(lower_first_at(z, y, i));
        }
    }
    assert(lower(z, y) ==> lower(z, x)) by {
        if lower(z, y) {
            let i = choose|i: int| lower_first_at(z, y, i);
            assert(lower_first_at(z, x, i));
        }
    }
}

/// The components of a text that goes on after a separator.
proof fn lemma_components_append(a: Seq<char>, sep: char, b: Seq<char>)
    requires
        CharClass::VersionSeparator.has(sep),
    ensures
        components(a.push(sep) + b) == components(a) + components(b),
{
    lemma_pieces_append(a, sep, b, CharClass::VersionSeparator);
    assert(components(a.push(sep) + b) =~= components(a) + components(b));
}

/// A version stays the same when a separator and a component that counts for
/// nothing are put behind it.
pub proof fn law_trailing_zero_counts_for_nothing(a: Seq<char>, sep: char, zero: Seq<char>)
    requires
        CharClass::VersionSeparator.has(sep),
        forall|i: int|
            0 <= i < zero.len() ==> !CharClass::VersionSeparator.has(#[trigger] zero[i]),
        component_value(zero) == 0,
    ensures
        version_order(a, a.push(sep) + zero) is Equal,
{
    lemma_components_append(a, sep, zero);
    lemma_one_piece(zero, CharClass::VersionSeparator);
    let (x, y) = (components(a), components(a.push(sep) + zero));
    assert(components(zero) =~= seq![0u64]);
    assert(y == x + seq![0u64]);
    assert(same_components(x, y));
    lemma_lower_or_same(x, y);
}

/// Of two versions that begin alike, the one whose next component is lower is
/// lower.
proof fn lemma_next_component_decides(
    common: Seq<char>,
    sep: char,
    low: Seq<char>,
    high: Seq<char>,
)
    requires
        CharClass::VersionSeparator.has(sep),
        component_at(components(low), 0) < component_at(components(high), 0),
    ensures
        lower(components(common.push(sep) + low), components(common.push(sep) + high)),
{
    lemma_components_append(common, sep, low);
    lemma_components_append(common, sep, high);
    lemma_components_not_empty(low);
    lemma_components_not_empty(high);
    let (x, y) = (components(common.push(sep) + low), components(common.push(sep) + high));
    assert(lower_first_at(x, y, components(common).len() as int));
}

/// A higher component decides, whatever follows it: of two versions that begin
/// alike, a newer build sorts higher.
pub proof fn law_higher_component_sorts_higher(
    common: Seq<char>,
    sep: char,
    low: Seq<char>,
    high: Seq<char>,
)
    requires
        CharClass::VersionSeparator.has(sep),
        component_at(components(low), 0) < component_at(components(high), 0),
    ensures
        version_order(common.push(sep) + low, common.push(sep) + high) is Less,
{
    lemma_next_component_decides(common, sep, low, high);
}

/// Every version has a component.
proof fn lemma_components_not_empty(a: Seq<char>)
    ensures
        components(a).len() > 0,
{
    lemma_pieces_not_empty(a, CharClass::VersionSeparator);
}

/// `version` in the form that registries take which do not accept `+`: each
/// `+` written `-`.
pub open spec fn slugged(version: Seq<char>) -> Seq<char> {
    version.map_values(
        |c: char|
            if c == '+' {
                '-'
            } else {
                c
            },
    )
}

/// Writing `-` for `+` leaves the pieces between separators as they are.
proof fn lemma_slug_keeps_pieces(version: Seq<char>)
    ensures
        pieces(slugged(version), CharClass::VersionSeparator) == pieces(
            version,
            CharClass::VersionSeparator,
        ),
    decreases version.len(),
{
    if version.len() > 0 {
        lemma_slug_keeps_pieces(version.drop_last());
        assert(slugged(version).drop_last() == slugged(version.drop_last()));
    } else {
        assert(slugged(version) == version);
    }
}

/// Where every piece between dots holds digits only, the text holds digits and
/// dots only.
proof fn lemma_digits_and_dots(s: Seq<char>)
    requires
        forall|i: int, j: int|
            0 <= i < pieces(s, CharClass::Only('.')).len() && 0 <= j < pieces(
                s,
                CharClass::Only('.'),
            )[i].len() ==> is_digit(#[trigger] pieces(s, CharClass::Only('.'))[i][j]),
    ensures
        forall|k: int| 0 <= k < s.len() ==> is_digit(#[trigger] s[k]) || s[k] == '.',
    decreases s.len(),
{
    if s.len() > 0 {
        let class = CharClass::Only('.');
        let all = pieces(s, class);
        let before = pieces(s.drop_last(), class);
        lemma_pieces_not_empty(s.drop_last(), class);
        if s.last() == '.' {
            assert forall|i: int, j: int|
                0 <= i < before.len() && 0 <= j < before[i].len() implies is_digit(
                #[trigger] before[i][j],
            ) by {
                assert(all[i][j] == before[i][j]);
            }
        } else {
            let last = all.len() - 1;
            assert(all[last] == before.last().push(s.last()));
            assert(is_digit(all[last][before.last().len() as int]));
            assert forall|i: int, j: int|
                0 <= i < before.len() && 0 <= j < before[i].len() implies is_digit(
                #[trigger] before[i][j],
            ) by {
                assert(all[i][j] == before[i][j]);
            }
        }
        lemma_digits_and_dots(s.drop_last());
        assert forall|k: int| 0 <= k < s.len() implies is_digit(#[trigger] s[k]) || s[k] == '.' by {
            if k < s.len() - 1 {
                assert(s.drop_last()[k] == s[k]);
            }
        }
    }
}

/// A stable version holds digits and dots only: whatever carries build
/// metadata is on another channel.
pub proof fn law_stable_is_digits_and_dots(version: Seq<char>)
    requires
        channel_of(version) == Channel::Stable,
    ensures
        version.len() > 0,
        forall|k: int| 0 <= k < version.len() ==> is_digit(#[trigger] version[k]) || version[k] == '.',
{
    let parts = pieces(version, CharClass::Only('.'));
    assert forall|i: int, j: int| 0 <= i < parts.len() && 0 <= j < parts[i].len() implies is_digit(
        #[trigger] parts[i][j],
    ) by {
        assert(is_number(parts[i]));
    }
    lemma_digits_and_dots(version);
    if version.len() == 0 {
        assert(is_number(parts[0]));
    }
}

/// A version belongs to the same channel whether its metadata is set off with
/// `+` or with `-`.
pub proof fn law_slug_keeps_channel(version: Seq<char>)
    ensures
        channel_of(slugged(version)) == channel_of(version),
{
    lemma_slug_keeps_pieces(version);
    if version.contains('+') {
        let k = version.index_of('+');
        assert(version[k] == '+');
        assert(slugged(version)[k] == '-');
        if channel_of(version) == Channel::Stable {
            law_stable_is_digits_and_dots(version);
        }
        if channel_of(slugged(version)) == Channel::Stable {
            law_stable_is_digits_and_dots(slugged(version));
        }
    } else {
        assert(slugged(version) =~= version) by {
            assert forall|k: int| 0 <= k < version.len() implies version[k] != '+' by {
                if version[k] == '+' {
                    assert(version.contains('+'));
                }
            }
        }
    }
}

/// A version compares the same whether its metadata is set off with `+` or
/// with `-`.
pub proof fn law_slug_keeps_order(a: Seq<char>, b: Seq<char>)
    ensures
        version_order(slugged(a), b) == version_order(a, b),
        version_order(a, slugged(b)) == version_order(a, b),
{
    lemma_slug_keeps_pieces(a);
    lemma_slug_keeps_pieces(b);
}

/// Whether text can stand behind a component: nothing, or what a separator sets
/// off.
pub open spec fn is_set_off(rest: Seq<char>) -> bool {
    rest.len() == 0 || rest[0] == '.' || rest[0] == '-' || rest[0] == '+'
}

/// Whether text consists of zeros.
pub open spec fn is_zeros(s: Seq<char>) -> bool {
    forall|i: int| 0 <= i < s.len() ==> #[trigger] s[i] == '0'
}

/// Zeros in front make no difference to a number.
proof fn lemma_zeros_in_front(zeros: Seq<char>, s: Seq<char>)
    requires
        is_zeros(zeros),
        is_number(s),
    ensures
        is_number(zeros + s),
        number(zeros + s) == number(s),
    decreases zeros.len(),
{
    if zeros.len() == 0 {
        assert(zeros + s =~= s);
    } else {
        let fewer = zeros.skip(1);
        assert forall|i: int| 0 <= i < fewer.len() implies #[trigger] fewer[i] == '0' by {
            assert(fewer[i] == zeros[i + 1]);
        }
        lemma_zeros_in_front(fewer, s);
        assert(zeros[0] == '0');
        assert(zeros + s =~= seq!['0'] + (fewer + s));
        law_digits_count_by_place(fewer + s, 0);
        assert forall|i: int| 0 <= i < (zeros + s).len() implies is_digit(
            #[trigger] (zeros + s)[i],
        ) by {
            if i > 0 {
                assert((zeros + s)[i] == (fewer + s)[i - 1]);
            }
        }
    }
}

/// The first component of a version that starts with a word and goes on after
/// a separator, if at all, is that of the word.
proof fn lemma_first_component(word: Seq<char>, rest: Seq<char>)
    requires
        forall|i: int|
            0 <= i < word.len() ==> !CharClass::VersionSeparator.has(#[trigger] word[i]),
        is_set_off(rest),
    ensures
        components(word + rest).len() > 0,
        components(word + rest)[0] == component_value(word),
{
    let class = CharClass::VersionSeparator;
    lemma_one_piece(word, class);
    assert(components(word) =~= seq![component_value(word)]);
    if rest.len() == 0 {
        assert(word + rest =~= word);
    } else {
        assert(word + rest =~= word.push(rest[0]) + rest.skip(1));
        lemma_components_append(word, rest[0], rest.skip(1));
    }
}

/// A number with zeros in front counts for that number.
proof fn lemma_number_counts(zeros: Seq<char>, n: nat, rest: Seq<char>)
    requires
        is_zeros(zeros),
        n <= u64::MAX,
        is_set_off(rest),
    ensures
        components(zeros + decimal(n) + rest).len() > 0,
        components(zeros + decimal(n) + rest)[0] == n,
        component_value(zeros + decimal(n)) == n,
        forall|i: int|
            0 <= i < (zeros + decimal(n)).len() ==> !CharClass::VersionSeparator.has(
                #[trigger] (zeros + decimal(n))[i],
            ),
{
    law_decimal_reads_back(n);
    lemma_zeros_in_front(zeros, decimal(n));
    let word = zeros + decimal(n);
    assert forall|i: int| 0 <= i < word.len() implies !CharClass::VersionSeparator.has(
        #[trigger] word[i],
    ) by {
        assert(is_digit(word[i]));
    }
    lemma_first_component(word, rest);
}

/// Components are ordered as the numbers that their digits stand for: of two
/// versions that begin alike, the one that goes on with the lower number is
/// lower, whatever follows, and however many zeros are in front of either
/// number.
pub proof fn law_components_are_ordered_as_numbers(
    common: Seq<char>,
    sep: char,
    low: (Seq<char>, nat, Seq<char>),
    high: (Seq<char>, nat, Seq<char>),
)
    requires
        sep == '.' || sep == '-' || sep == '+',
        is_zeros(low.0),
        is_zeros(high.0),
        low.1 < high.1 <= u64::MAX,
        is_set_off(low.2),
        is_set_off(high.2),
    ensures
        version_order(
            common.push(sep) + (low.0 + decimal(low.1) + low.2),
            common.push(sep) + (high.0 + decimal(high.1) + high.2),
        ) is Less,
        version_order(
            low.0 + decimal(low.1) + low.2,
            high.0 + decimal(high.1) + high.2,
        ) is Less,
{
    lemma_number_counts(low.0, low.1, low.2);
    lemma_number_counts(high.0, high.1, high.2);
    let a = low.0 + decimal(low.1) + low.2;
    let b = high.0 + decimal(high.1) + high.2;
    lemma_next_component_decides(common, sep, a, b);
    assert(lower_first_at(components(a), components(b), 0));
}

/// What comes before a component and after it decides as far as the component
/// does not: equal numbers leave the order to what follows.
pub proof fn law_equal_components_leave_the_order_to_the_rest(
    zeros: (Seq<char>, Seq<char>),
    n: nat,
    sep: (char, char),
    rest: (Seq<char>, Seq<char>),
)
    requires
        is_zeros(zeros.0),
        is_zeros(zeros.1),
        n <= u64::MAX,
        sep.0 == '.' || sep.0 == '-' || sep.0 == '+',
        sep.1 == '.' || sep.1 == '-' || sep.1 == '+',
    ensures
        version_order(zeros.0 + decimal(n), zeros.1 + decimal(n)) is Equal,
        version_order(
            (zeros.0 + decimal(n)).push(sep.0) + rest.0,
            (zeros.1 + decimal(n)).push(sep.1) + rest.1,
        ) == version_order(rest.0, rest.1),
{
    let (w0, w1) = (zeros.0 + decimal(n), zeros.1 + decimal(n));
    let none = Seq::<char>::empty();
    lemma_number_counts(zeros.0, n, none);
    lemma_number_counts(zeros.1, n, none);
    lemma_one_piece(w0, CharClass::VersionSeparator);
    lemma_one_piece(w1, CharClass::VersionSeparator);
    assert(components(w0) =~= components(w1));
    lemma_lower_or_same(components(w0), components(w1));
    lemma_components_append(w0, sep.0, rest.0);
    lemma_components_append(w1, sep.1, rest.1);
    lemma_common_first(components(w0), components(rest.0), components(rest.1));
}

/// Components in common at the start make no difference to which list is lower.
proof fn lemma_common_first(first: Seq<u64>, a: Seq<u64>, b: Seq<u64>)
    ensures
        lower(first + a, first + b) <==> lower(a, b),
        lower(first + b, first + a) <==> lower(b, a),
{
    lemma_common_first_lower(first, a, b);
    lemma_common_first_lower(first, b, a);
}

proof fn lemma_common_first_lower(first: Seq<u64>, a: Seq<u64>, b: Seq<u64>)
    ensures
        lower(first + a, first + b) <==> lower(a, b),
{
    let (x, y) = (first + a, first + b);
    let k = first.len();
    assert forall|i: int| 0 <= i implies component_at(x, i + k) == component_at(a, i)
        && component_at(y, i + k) == component_at(b, i) by {}
    assert forall|i: int| 0 <= i < k implies component_at(x, i) == component_at(y, i) by {}
    if lower(a, b) {
        let i = choose|i: int| lower_first_at(a, b, i);
        assert forall|j: int| 0 <= j < i + k implies component_at(x, j) == component_at(y, j) by {
            if j >= k {
                assert(component_at(a, j - k) == component_at(b, j - k));
                assert(component_at(x, (j - k) + k) == component_at(a, j - k));
                assert(component_at(y, (j - k) + k) == component_at(b, j - k));
            }
        }
        assert(component_at(x, i + k) == component_at(a, i));
        assert(component_at(y, i + k) == component_at(b, i));
        assert(lower_first_at(x, y, i + k));
    }
    if lower(x, y) {
        let i = choose|i: int| lower_first_at(x, y, i);
        assert(i >= k);
        assert(component_at(x, (i - k) + k) == component_at(a, i - k));
        assert(component_at(y, (i - k) + k) == component_at(b, i - k));
        assert forall|j: int| 0 <= j < i - k implies component_at(a, j) == component_at(b, j) by {
            assert(component_at(x, j + k) == component_at(y, j + k));
        }
        assert(lower_first_at(a, b, i - k));
    }
}

/// A beginning in common makes no difference to how two versions compare.
pub proof fn law_common_beginning_makes_no_difference(
    common: Seq<char>,
    sep: char,
    a: Seq<char>,
    b: Seq<char>,
)
    requires
        sep == '.' || sep == '-' || sep == '+',
    ensures
        version_order(common.push(sep) + a, common.push(sep) + b) == version_order(a, b),
{
    lemma_components_append(common, sep, a);
    lemma_components_append(common, sep, b);
    lemma_common_first(components(common), components(a), components(b));
}

/// What is no number, or none that fits 64 bits, counts as zero, and so does
/// what is missing.
pub proof fn law_what_is_no_number_counts_as_zero(common: Seq<char>, sep: char, word: Seq<char>)
    requires
        sep == '.' || sep == '-' || sep == '+',
        !word.contains('.') && !word.contains('-') && !word.contains('+'),
        word.len() == 0 || number(word) > u64::MAX || exists|i: int|
            0 <= i < word.len() && !('0' <= #[trigger] word[i] <= '9'),
    ensures
        version_order(common.push(sep) + word, common.push(sep) + seq!['0']) is Equal,
        version_order(common.push(sep) + word, common) is Equal,
        version_order(word, seq!['0']) is Equal,
        forall|rest: Seq<char>|
            version_order(#[trigger] (word.push(sep) + rest), seq!['0'].push(sep) + rest) is Equal,
{
    let zero = seq!['0'];
    let class = CharClass::VersionSeparator;
    assert forall|i: int| 0 <= i < word.len() implies !class.has(#[trigger] word[i]) by {
        assert(word.contains(word[i]));
    }
    law_digits_count_by_place(Seq::empty(), 0);
    reveal_strlit("0123456789");
    assert(component_value(zero) == 0);
    assert(component_value(word) == 0);
    law_trailing_zero_counts_for_nothing(common, sep, word);
    law_trailing_zero_counts_for_nothing(common, sep, zero);
    law_order_is_antisymmetric(common, common.push(sep) + word);
    law_equal_versions_order_alike(common.push(sep) + word, common, common.push(sep) + zero);
    lemma_one_piece(word, class);
    lemma_one_piece(zero, class);
    assert(components(word) =~= components(zero));
    lemma_lower_or_same(components(word), components(zero));
    assert forall|rest: Seq<char>|
        version_order(#[trigger] (word.push(sep) + rest), zero.push(sep) + rest) is Equal by {
        lemma_components_append(word, sep, rest);
        lemma_components_append(zero, sep, rest);
        let all = components(word.push(sep) + rest);
        lemma_lower_or_same(all, all);
    }
}

/// Whether a version looks like a stable one, character by character: digits,
/// and dots between them that stand alone.
pub open spec fn looks_stable(version: Seq<char>) -> bool {
    &&& version.len() > 0
    &&& forall|i: int| 0 <= i < version.len() ==> '0' <= #[trigger] version[i] <= '9' || version[i]
        == '.'
    &&& version[0] != '.'
    &&& version.last() != '.'
    &&& forall|i: int|
        0 <= i < version.len() - 1 ==> !(#[trigger] version[i] == '.' && version[i + 1] == '.')
}

/// Of a text of digits and dots that does not start with a dot and has no two
/// dots in a row, all pieces are numbers, but for the last where the text ends
/// with a dot.
proof fn lemma_pieces_are_numbers(s: Seq<char>)
    requires
        s.len() > 0,
        forall|i: int| 0 <= i < s.len() ==> '0' <= #[trigger] s[i] <= '9' || s[i] == '.',
        s[0] != '.',
        forall|i: int| 0 <= i < s.len() - 1 ==> !(#[trigger] s[i] == '.' && s[i + 1] == '.'),
    ensures
        ({
            let parts = pieces(s, CharClass::Only('.'));
            &&& parts.len() > 0
            &&& forall|i: int| 0 <= i < parts.len() - 1 ==> is_number(#[trigger] parts[i])
            &&& s.last() != '.' ==> is_number(parts.last())
            &&& s.last() == '.' ==> parts.last().len() == 0
        }),
    decreases s.len(),
{
    let class = CharClass::Only('.');
    let shorter = s.drop_last();
    let before = pieces(shorter, class);
    let parts = pieces(s, class);
    if s.len() == 1 {
        assert(shorter =~= Seq::<char>::empty());
        assert(before =~= seq![Seq::<char>::empty()]);
        assert(parts[0] =~= seq![s[0]]);
    } else {
        assert forall|i: int| 0 <= i < shorter.len() implies '0' <= #[trigger] shorter[i] <= '9'
            || shorter[i] == '.' by {
            assert(shorter[i] == s[i]);
        }
        assert forall|i: int| 0 <= i < shorter.len() - 1 implies !(#[trigger] shorter[i] == '.'
            && shorter[i + 1] == '.') by {
            assert(shorter[i] == s[i]);
        }
        lemma_pieces_are_numbers(shorter);
        assert(shorter.last() == s[s.len() - 2]);
        if s.last() == '.' {
            assert(!(s[s.len() - 2] == '.' && s[s.len() - 2 + 1] == '.'));
            assert(parts =~= before.push(Seq::empty()));
        } else {
            let last = before.last().push(s.last());
            assert(parts =~= before.drop_last().push(last));
            assert forall|j: int| 0 <= j < last.len() implies is_digit(#[trigger] last[j]) by {
                if j < before.last().len() {
                    assert(last[j] == before.last()[j]);
                }
            }
        }
    }
}

/// An empty piece is no number: text with a dot at `i` before another dot or
/// before its end is no plain release, nor is one that starts with a dot.
proof fn lemma_lone_dot(version: Seq<char>, i: int)
    requires
        0 <= i < version.len(),
        version[i] == '.',
        i == 0 || i == version.len() - 1 || version[i + 1] == '.',
    ensures
        !is_plain_release(version),
{
    let class = CharClass::Only('.');
    let a = version.take(i);
    let b = version.skip(i + 1);
    assert(version =~= a.push('.') + b);
    lemma_pieces_append(a, '.', b, class);
    lemma_pieces_not_empty(a, class);
    lemma_pieces_not_empty(b, class);
    let parts = pieces(version, class);
    let none = Seq::<char>::empty();
    if i == 0 {
        assert(a =~= none);
        assert(parts[0] == none);
        assert(!is_number(parts[0]));
    } else if i == version.len() - 1 {
        assert(b =~= none);
        assert(parts[parts.len() - 1] == none);
        assert(!is_number(parts[parts.len() - 1]));
    } else {
        assert(b =~= none.push('.') + b.skip(1));
        lemma_pieces_append(none, '.', b.skip(1), class);
        let k = pieces(a, class).len() as int;
        assert(parts[k] == pieces(b, class)[0]);
        assert(pieces(none, class)[0] == none);
        assert(!is_number(parts[k]));
    }
}

/// A version is of the stable channel just when it is made of digits, with
/// single dots between them and nowhere else.
pub proof fn law_stable_versions_look_stable(version: Seq<char>)
    ensures
        channel_of(version) == Channel::Stable <==> looks_stable(version),
{
    if looks_stable(version) {
        lemma_pieces_are_numbers(version);
        let parts = pieces(version, CharClass::Only('.'));
        assert forall|i: int| 0 <= i < parts.len() implies is_number(#[trigger] parts[i]) by {
            if i == parts.len() - 1 {
                assert(parts[i] == parts.last());
            }
        }
    }
    if channel_of(version) == Channel::Stable {
        law_stable_is_digits_and_dots(version);
        if version[0] == '.' {
            lemma_lone_dot(version, 0);
        }
        if version.last() == '.' {
            lemma_lone_dot(version, version.len() - 1);
        }
        assert forall|i: int| 0 <= i < version.len() - 1 implies !(#[trigger] version[i] == '.'
            && version[i + 1] == '.') by {
            if version[i] == '.' && version[i + 1] == '.' {
                lemma_lone_dot(version, i);
            }
        }
    }
}

/// Whether text can stand in front of a component: nothing, or what ends with a
/// separator.
pub open spec fn sets_off(before: Seq<char>) -> bool {
    before.len() == 0 || before.last() == '.' || before.last() == '-' || before.last() == '+'
}

/// Whether `version` is a word with what sets it off on both sides.
pub open spec fn is_framed(
    version: Seq<char>,
    before: Seq<char>,
    word: Seq<char>,
    after: Seq<char>,
) -> bool {
    version == before + word + after && sets_off(before) && is_set_off(after)
}

/// Each piece of a version stands in it with what sets it off on both sides.
proof fn lemma_piece_is_framed(version: Seq<char>, i: int)
    requires
        0 <= i < pieces(version, CharClass::VersionSeparator).len(),
    ensures
        exists|before: Seq<char>, after: Seq<char>| #[trigger]
            is_framed(
                version,
                before,
                pieces(version, CharClass::VersionSeparator)[i],
                after,
            ) && (after.len() == 0 <==> i == pieces(version, CharClass::VersionSeparator).len()
                - 1),
    decreases version.len(),
{
    let class = CharClass::VersionSeparator;
    let all = pieces(version, class);
    let none = Seq::<char>::empty();
    if version.len() == 0 {
        assert(all[i] == none);
        assert(none + none + none =~= version);
        assert(is_framed(version, none, all[i], none));
    } else {
        let shorter = version.drop_last();
        let c = version.last();
        let parts = pieces(shorter, class);
        lemma_pieces_not_empty(shorter, class);
        assert(shorter.push(c) =~= version);
        if class.has(c) && i == all.len() - 1 {
            assert(version + none + none =~= version);
            assert(is_framed(version, version, all[i], none));
        } else {
            lemma_piece_is_framed(shorter, i);
            let (before, after) = choose|before: Seq<char>, after: Seq<char>| #[trigger]
                is_framed(shorter, before, parts[i], after) && (after.len() == 0 <==> i
                    == parts.len() - 1);
            if i < all.len() - 1 {
                assert(all[i] == parts[i]);
                assert(before + parts[i] + after.push(c) =~= version);
                assert(is_framed(version, before, all[i], after.push(c)));
            } else {
                assert(all[i] == parts[i].push(c));
                assert(after =~= none);
                assert(before + all[i] + none =~= version);
                assert(is_framed(version, before, all[i], none));
            }
        }
    }
}

/// A version is of the experimental channel just when one of its components,
/// as the separators set them off, reads `experimental`; any other that does
/// not look stable is of the snapshot channel.
pub proof fn law_experimental_versions_say_so(version: Seq<char>)
    ensures
        channel_of(version) == Channel::Experimental <==> exists|
            before: Seq<char>,
            after: Seq<char>,
        | #[trigger] is_framed(version, before, "experimental"@, after),
        channel_of(version) == Channel::Snapshot <==> !looks_stable(version) && !exists|
            before: Seq<char>,
            after: Seq<char>,
        | #[trigger] is_framed(version, before, "experimental"@, after),
{
    let class = CharClass::VersionSeparator;
    let word = "experimental"@;
    let all = pieces(version, class);
    reveal_strlit("experimental");
    law_stable_versions_look_stable(version);
    if all.contains(word) {
        let i = choose|i: int| 0 <= i < all.len() && all[i] == word;
        lemma_piece_is_framed(version, i);
    }
    if exists|before: Seq<char>, after: Seq<char>| #[trigger]
        is_framed(version, before, word, after) {
        let (before, after) = choose|before: Seq<char>, after: Seq<char>| #[trigger]
            is_framed(version, before, word, after);
        lemma_one_piece(word, class);
        let tail = word + after;
        if after.len() == 0 {
            assert(tail =~= word);
        } else {
            assert(tail =~= word.push(after[0]) + after.skip(1));
            lemma_pieces_append(word, after[0], after.skip(1), class);
        }
        assert(pieces(tail, class)[0] == word);
        if before.len() == 0 {
            assert(version =~= tail);
            assert(all[0] == word);
        } else {
            let front = before.drop_last();
            assert(version =~= front.push(before.last()) + tail);
            lemma_pieces_append(front, before.last(), tail, class);
            assert(all[pieces(front, class).len() as int] == word);
        }
        assert(version[before.len() as int] == 'e');
        assert(!looks_stable(version));
    }
}

} // verus!
