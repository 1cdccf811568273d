//! Text operations that the rest of the crate is written in terms of.

use vstd::prelude::*;
use vstd::string::*;
use vstd::utf8::*;

verus! {

/// `String::push` appends one character.
pub assume_specification[ String::push ](s: &mut String, c: char)
    ensures
        final(s)@ == old(s)@.push(c),
;

/// Texts, as values.
pub open spec fn text_views(texts: Seq<String>) -> Seq<Seq<char>> {
    texts.map_values(|text: String| text@)
}

/// An optional text, as a value.
pub open spec fn optional_text(text: Option<String>) -> Option<Seq<char>> {
    match text {
        Some(text) => Some(text@),
        None => None,
    }
}

/// The decimal digit with value `d`.
pub open spec fn digit(d: nat) -> char {
    (48 + d) as char
}

/// `n` in decimal, without leading zeros.
pub open spec fn decimal(n: nat) -> Seq<char>
    decreases n,
{
    if n < 10 {
        seq![digit(n)]
    } else {
        decimal(n / 10).push(digit(n % 10))
    }
}

/// A number in decimal has at least one digit, and digits only.
pub proof fn law_decimal_is_digits(n: nat)
    ensures
        decimal(n).len() > 0,
        forall|i: int| 0 <= i < decimal(n).len() ==> '0' <= #[trigger] decimal(n)[i] <= '9',
    decreases n,
{
    if n >= 10 {
        law_decimal_is_digits(n / 10);
    }
}

/// Different numbers differ in decimal.
pub proof fn law_decimal_is_injective(a: nat, b: nat)
    requires
        decimal(a) == decimal(b),
    ensures
        a == b,
    decreases a,
{
    law_decimal_is_digits(a / 10);
    law_decimal_is_digits(b / 10);
    if a >= 10 && b >= 10 {
        assert(decimal(a).drop_last() =~= decimal(a / 10));
        assert(decimal(b).drop_last() =~= decimal(b / 10));
        assert(decimal(a).last() == digit(a % 10));
        assert(decimal(b).last() == digit(b % 10));
        law_decimal_is_injective(a / 10, b / 10);
        assert(a % 10 == b % 10);
    } else if a < 10 && b < 10 {
        assert(decimal(a)[0] == digit(a));
        assert(decimal(b)[0] == digit(b));
    } else {
        let (long, short) = if a >= 10 {
            (a, b)
        } else {
            (b, a)
        };
        assert(decimal(long).len() == decimal(long / 10).len() + 1);
        assert(decimal(short).len() == 1);
    }
}

/// Writes `n` in decimal.
pub fn to_decimal(n: u64) -> (text: String)
    ensures
        text@ == decimal(n as nat),
    decreases n,
{
    if n < 10 {
        let mut text = String::new();
        text.push((48u8 + n as u8) as char);
        assert(text@ =~= decimal(n as nat));
        text
    } else {
        let mut text = to_decimal(n / 10);
        text.push((48u8 + (n % 10) as u8) as char);
        text
    }
}

/// Whether two texts hold the same characters.
pub fn same_text(a: &str, b: &str) -> (same: bool)
    ensures
        same == (a@ == b@),
{
    a.to_owned() == b.to_owned()
}

/// `text` with every `.` replaced by `_`.
pub open spec fn underscored(text: Seq<char>) -> Seq<char> {
    text.map_values(|c: char| if c == '.' { '_' } else { c })
}

pub fn underscore_dots(text: &str) -> (result: String)
    ensures
        result@ == underscored(text@),
{
    let mut result = String::new();
    for c in iter: text.chars()
        invariant
            iter.seq() == text@,
            result@ == underscored(text@.take(iter.index() as int)),
    {
        result.push(if c == '.' { '_' } else { c });
        assert(text@.take(iter.index() + 1) =~= text@.take(iter.index() as int).push(c));
    }
    assert(text@.take(text@.len() as int) =~= text@);
    result
}

/// Whether `text` ends with `suffix`.
pub fn ends_with(text: &str, suffix: &str) -> (result: bool)
    ensures
        result == suffix@.is_suffix_of(text@),
{
    let text_len: usize = text.unicode_len();
    let suffix_len: usize = suffix.unicode_len();
    suffix_len <= text_len && same_text(text.substring_char(text_len - suffix_len, text_len), suffix)
}

/// The order of strings: by code points, the first difference decides, and a
/// proper prefix comes first.
pub open spec fn comes_before(a: Seq<char>, b: Seq<char>) -> bool
    decreases a.len(),
{
    if b.len() == 0 {
        false
    } else if a.len() == 0 {
        true
    } else if a[0] != b[0] {
        (a[0] as u32) < (b[0] as u32)
    } else {
        comes_before(a.drop_first(), b.drop_first())
    }
}

/// The characters of `text`.
fn characters(text: &str) -> (result: Vec<char>)
    ensures
        result@ == text@,
{
    let mut result: Vec<char> = Vec::new();
    for c in iter: text.chars()
        invariant
            iter.seq() == text@,
            result@ == text@.take(iter.index() as int),
    {
        result.push(c);
        assert(text@.take(iter.index() + 1) =~= text@.take(iter.index() as int).push(c));
    }
    assert(text@.take(text@.len() as int) =~= text@);
    result
}

/// Whether `a` sorts strictly before `b`.
pub fn sorts_before(a: &str, b: &str) -> (result: bool)
    ensures
        result == comes_before(a@, b@),
{
    let left = characters(a);
    let right = characters(b);
    let mut i: usize = 0;
    assert(a@.skip(0) =~= a@ && b@.skip(0) =~= b@);
    while i < left.len() && i < right.len() && left[i] == right[i]
        invariant
            left@ == a@,
            right@ == b@,
            i <= left.len(),
            i <= right.len(),
            comes_before(a@, b@) == comes_before(a@.skip(i as int), b@.skip(i as int)),
        decreases left.len() - i,
    {
        assert(a@.skip(i as int).drop_first() =~= a@.skip(i + 1));
        assert(b@.skip(i as int).drop_first() =~= b@.skip(i + 1));
        i += 1;
    }
    if i == right.len() {
        false
    } else if i == left.len() {
        true
    } else {
        (left[i] as u32) < (right[i] as u32)
    }
}

/// The lowercase form of `text`, as `str::to_lowercase` computes it.
pub uninterp spec fn lowercase(text: Seq<char>) -> Seq<char>;

/// The lowercase form of an ASCII character.
pub open spec fn ascii_lower(c: char) -> char {
    if 'A' <= c <= 'Z' {
        (c as u32 + 32) as char
    } else {
        c
    }
}

/// `str::to_lowercase` depends on its argument alone. Of a text that is all
/// ASCII it maps the letters `A` to `Z` to `a` to `z` and keeps the rest; what
/// it does to other characters is named and not spelled out.
pub assume_specification[ str::to_lowercase ](s: &str) -> (result: String)
    ensures
        result@ == lowercase(s@),
        is_ascii_chars(s@) ==> result@ == s@.map_values(|c: char| ascii_lower(c)),
;

/// The characters with the Unicode property `White_Space`.
pub open spec fn white_space(c: char) -> bool {
    let v = c as u32;
    ||| 0x09 <= v <= 0x0d
    ||| v == 0x20
    ||| v == 0x85
    ||| v == 0xa0
    ||| v == 0x1680
    ||| 0x2000 <= v <= 0x200a
    ||| v == 0x2028
    ||| v == 0x2029
    ||| v == 0x202f
    ||| v == 0x205f
    ||| v == 0x3000
}

/// `text` without the white space at its two ends.
pub open spec fn trimmed(text: Seq<char>) -> Seq<char>
    decreases text.len(),
{
    if text.len() > 0 && white_space(text.first()) {
        trimmed(text.drop_first())
    } else if text.len() > 0 && white_space(text.last()) {
        trimmed(text.drop_last())
    } else {
        text
    }
}

fn is_white_space(c: char) -> (result: bool)
    ensures
        result == white_space(c),
{
    let v: u32 = c as u32;
    (0x09 <= v && v <= 0x0d) || v == 0x20 || v == 0x85 || v == 0xa0 || v == 0x1680 || (0x2000 <= v
        && v <= 0x200a) || v == 0x2028 || v == 0x2029 || v == 0x202f || v == 0x205f || v == 0x3000
}

/// `text` without the white space at its two ends.
pub fn trim(text: &str) -> (result: &str)
    ensures
        result@ == trimmed(text@),
{
    let all = characters(text);
    let mut from: usize = 0;
    assert(text@.skip(0) =~= text@);
    while from < all.len() && is_white_space(all[from])
        invariant
            all@ == text@,
            from <= all.len(),
            trimmed(text@) == trimmed(text@.skip(from as int)),
        decreases all.len() - from,
    {
        assert(text@.skip(from as int).drop_first() =~= text@.skip(from + 1));
        from += 1;
    }
    let mut to: usize = all.len();
    assert(text@.subrange(from as int, to as int) =~= text@.skip(from as int));
    while from < to && is_white_space(all[to - 1])
        invariant
            all@ == text@,
            from <= to <= all.len(),
            from < all.len() ==> !white_space(text@[from as int]),
            trimmed(text@) == trimmed(text@.subrange(from as int, to as int)),
        decreases to - from,
    {
        assert(text@.subrange(from as int, to as int).drop_last() =~= text@.subrange(
            from as int,
            to - 1,
        ));
        to -= 1;
    }
    text.substring_char(from, to)
}

/// A list of texts shows each of its texts, in order, and an optional text shows
/// the text that there is.
pub proof fn law_texts_are_shown(texts: Seq<String>, text: Option<String>)
    ensures
        text_views(texts).len() == texts.len(),
        forall|i: int| 0 <= i < texts.len() ==> #[trigger] text_views(texts)[i] == texts[i]@,
        optional_text(text) is Some <==> text is Some,
        text is Some ==> optional_text(text)->0 == text->0@,
{
}

/// The number that digits stand for.
pub open spec fn value_of(digits: Seq<char>) -> nat
    decreases digits.len(),
{
    if digits.len() == 0 {
        0
    } else {
        value_of(digits.drop_last()) * 10 + (digits.last() as nat - '0' as nat) as nat
    }
}

/// A number in decimal reads as that number, and does not begin with a zero
/// unless it is zero.
pub proof fn law_decimal_reads_back(n: nat)
    ensures
        value_of(decimal(n)) == n,
        decimal(n)[0] == '0' ==> decimal(n).len() == 1,
    decreases n,
{
    reveal_with_fuel(value_of, 2);
    law_decimal_is_digits(n / 10);
    if n >= 10 {
        law_decimal_reads_back(n / 10);
        assert(decimal(n).drop_last() =~= decimal(n / 10));
        if decimal(n / 10)[0] == '0' {
            assert(decimal(n / 10) =~= seq!['0']);
            assert(decimal(n / 10).drop_last() =~= Seq::empty());
        }
    } else {
        assert(decimal(n).drop_last() =~= Seq::empty());
    }
}

/// Each dot becomes an underscore, and all else stays where it is.
pub proof fn law_dots_become_underscores(text: Seq<char>)
    ensures
        underscored(text).len() == text.len(),
        forall|i: int|
            0 <= i < text.len() && text[i] == '.' ==> #[trigger] underscored(text)[i] == '_',
        forall|i: int|
            0 <= i < text.len() && text[i] != '.' ==> #[trigger] underscored(text)[i] == text[i],
{
}

/// Whether `a` and `b` are equal up to `at`, and there `a` ends or has the lesser
/// character.
pub open spec fn precedes_at(a: Seq<char>, b: Seq<char>, at: int) -> bool {
    &&& 0 <= at <= a.len()
    &&& at < b.len()
    &&& a.take(at) == b.take(at)
    &&& at == a.len() || (a[at] as u32) < (b[at] as u32)
}

/// A text comes before another if and only if, where they first differ, it ends
/// or has the lesser character.
pub proof fn law_first_difference_decides(a: Seq<char>, b: Seq<char>)
    ensures
        comes_before(a, b) <==> exists|at: int| #[trigger] precedes_at(a, b, at),
    decreases a.len(),
{
    if a.len() == 0 {
        if b.len() > 0 {
            assert(a.take(0) =~= b.take(0));
            assert(precedes_at(a, b, 0));
        }
    } else if b.len() > 0 {
        let rest_a = a.drop_first();
        let rest_b = b.drop_first();
        law_first_difference_decides(rest_a, rest_b);
        if comes_before(a, b) {
            if a[0] != b[0] {
                assert(a.take(0) =~= b.take(0));
                assert(precedes_at(a, b, 0));
            } else {
                let at = choose|at: int| #[trigger] precedes_at(rest_a, rest_b, at);
                assert(a.take(at + 1) =~= seq![a[0]] + rest_a.take(at));
                assert(b.take(at + 1) =~= seq![b[0]] + rest_b.take(at));
                assert(precedes_at(a, b, at + 1));
            }
        }
        if exists|at: int| #[trigger] precedes_at(a, b, at) {
            let at = choose|at: int| #[trigger] precedes_at(a, b, at);
            if at > 0 {
                assert(a.take(at)[0] == b.take(at)[0]);
                assert(rest_a.take(at - 1) =~= a.take(at).drop_first());
                assert(rest_b.take(at - 1) =~= b.take(at).drop_first());
                assert(precedes_at(rest_a, rest_b, at - 1));
            }
        }
    }
}

/// Of two different texts exactly one comes before the other, and none comes
/// before itself.
pub proof fn law_order_of_texts_is_total(a: Seq<char>, b: Seq<char>)
    ensures
        a == b ==> !comes_before(a, b),
        a != b ==> comes_before(a, b) != comes_before(b, a),
    decreases a.len(),
{
    if a.len() > 0 && b.len() > 0 {
        law_order_of_texts_is_total(a.drop_first(), b.drop_first());
        if a[0] == b[0] {
            if a.drop_first() == b.drop_first() {
                assert(a =~= seq![a[0]] + a.drop_first());
                assert(b =~= seq![b[0]] + b.drop_first());
                assert(a == b);
            }
        } else {
            vstd::utf8::char_u32_cast(a[0], a[0] as u32);
            vstd::utf8::char_u32_cast(b[0], b[0] as u32);
        }
    } else if a.len() == b.len() {
        assert(a =~= b);
    }
}

/// Whether `text` is nothing but white space.
pub open spec fn is_blank(text: Seq<char>) -> bool {
    forall|i: int| 0 <= i < text.len() ==> white_space(#[trigger] text[i])
}

proof fn lemma_blank_is_trimmed_away(text: Seq<char>)
    requires
        is_blank(text),
    ensures
        trimmed(text) == Seq::<char>::empty(),
    decreases text.len(),
{
    if text.len() > 0 {
        assert(white_space(text[0]));
        let rest = text.drop_first();
        assert forall|i: int| 0 <= i < rest.len() implies white_space(#[trigger] rest[i]) by {
            assert(white_space(text[i + 1]));
        }
        lemma_blank_is_trimmed_away(rest);
    } else {
        assert(text =~= Seq::<char>::empty());
    }
}

/// Trimming takes away the white space at both ends and nothing else: what is
/// between blanks, and neither begins nor ends with white space, is left.
pub proof fn law_trimming_keeps_what_is_between_blanks(
    lead: Seq<char>,
    core: Seq<char>,
    trail: Seq<char>,
)
    requires
        is_blank(lead),
        is_blank(trail),
        core.len() > 0 ==> !white_space(core.first()) && !white_space(core.last()),
    ensures
        trimmed(lead + core + trail) == core,
    decreases lead.len() + trail.len(),
{
    let text = lead + core + trail;
    if core.len() == 0 {
        assert forall|i: int| 0 <= i < text.len() implies white_space(#[trigger] text[i]) by {
            if i < lead.len() {
                assert(white_space(lead[i]));
            } else {
                assert(white_space(trail[i - lead.len()]));
            }
        }
        lemma_blank_is_trimmed_away(text);
        assert(core =~= Seq::<char>::empty());
    } else if lead.len() > 0 {
        let rest = lead.drop_first();
        assert(white_space(lead[0]));
        assert forall|i: int| 0 <= i < rest.len() implies white_space(#[trigger] rest[i]) by {
            assert(white_space(lead[i + 1]));
        }
        law_trimming_keeps_what_is_between_blanks(rest, core, trail);
        assert(text.drop_first() =~= rest + core + trail);
        assert(text.first() == lead[0]);
    } else if trail.len() > 0 {
        let rest = trail.drop_last();
        assert(white_space(trail[trail.len() - 1]));
        assert forall|i: int| 0 <= i < rest.len() implies white_space(#[trigger] rest[i]) by {
            assert(white_space(trail[i]));
        }
        law_trimming_keeps_what_is_between_blanks(lead, core, rest);
        assert(text.drop_last() =~= lead + core + rest);
        assert(text.first() == core.first());
        assert(text.last() == trail.last());
    } else {
        assert(text =~= core);
    }
}

/// White space is what Unicode calls so: tabs, line breaks, and spaces of all
/// widths, and no other character.
pub proof fn law_white_space(c: char)
    ensures
        c == '\t' || c == '\n' || c == '\u{b}' || c == '\u{c}' || c == '\r' || c == ' ' ==> white_space(
            c,
        ),
        c == '\u{85}' || c == '\u{a0}' || c == '\u{1680}' || c == '\u{2028}' || c == '\u{2029}'
            || c == '\u{202f}' || c == '\u{205f}' || c == '\u{3000}' ==> white_space(c),
        '\u{2000}' <= c <= '\u{200a}' ==> white_space(c),
        white_space(c) ==> c <= ' ' || '\u{85}' <= c,
        white_space(c) && c < ' ' ==> '\t' <= c <= '\r',
        white_space(c) && '\u{85}' <= c < '\u{2000}' ==> c == '\u{85}' || c == '\u{a0}' || c
            == '\u{1680}',
        white_space(c) && '\u{200a}' < c ==> c == '\u{2028}' || c == '\u{2029}' || c == '\u{202f}'
            || c == '\u{205f}' || c == '\u{3000}',
{
}

/// Lowercasing moves each capital letter of ASCII to the small letter at the same
/// place of the alphabet, and leaves all other characters.
pub proof fn law_ascii_lower(c: char)
    ensures
        'A' <= c <= 'Z' ==> 'a' <= ascii_lower(c) <= 'z' && ascii_lower(c) as u32 - 'a' as u32
            == c as u32 - 'A' as u32,
        !('A' <= c <= 'Z') ==> ascii_lower(c) == c,
{
}

} // verus!
