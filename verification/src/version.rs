//! Versions of plugins.

use crate::text;
use vstd::prelude::*;

verus! {

/// A version, as the crate `semver` holds it.
#[verifier::external_type_specification]
#[verifier::external_body]
pub struct ExVersion(semver::Version);

/// The reason why a text is not a version.
#[verifier::external_type_specification]
#[verifier::external_body]
pub struct ExVersionError(semver::Error);

/// Whether `text` is a version, as `semver::Version::parse` decides it.
pub uninterp spec fn is_version(text: Seq<char>) -> bool;

/// Whether the version `a` is less than the version `b`, as the order of
/// `semver::Version` decides it. Both are versions.
pub uninterp spec fn version_less(a: Seq<char>, b: Seq<char>) -> bool;

/// Whether the version `a` is older than the version `b`. None is older than
/// itself.
pub open spec fn older(a: Seq<char>, b: Seq<char>) -> bool {
    a != b && version_less(a, b)
}

/// The version with three numbers and nothing else.
pub open spec fn release(major: u64, minor: u64, patch: u64) -> Seq<char> {
    text::decimal(major as nat) + "."@ + text::decimal(minor as nat) + "."@ + text::decimal(
        patch as nat,
    )
}

/// Whether the first of two versions with three numbers and nothing else is the
/// lesser one: the first number that differs decides.
pub open spec fn release_less(a: (u64, u64, u64), b: (u64, u64, u64)) -> bool {
    if a.0 != b.0 {
        a.0 < b.0
    } else if a.1 != b.1 {
        a.1 < b.1
    } else {
        a.2 < b.2
    }
}

/// Two texts of digits with a dot after them are equal only if what stands
/// before the dot is, and what stands after it.
proof fn lemma_first_dot(a: Seq<char>, rest_a: Seq<char>, b: Seq<char>, rest_b: Seq<char>)
    requires
        forall|i: int| 0 <= i < a.len() ==> '0' <= #[trigger] a[i] <= '9',
        forall|i: int| 0 <= i < b.len() ==> '0' <= #[trigger] b[i] <= '9',
        a + "."@ + rest_a == b + "."@ + rest_b,
    ensures
        a == b,
        rest_a == rest_b,
{
    reveal_strlit(".");
    let whole_a = a + "."@ + rest_a;
    let whole_b = b + "."@ + rest_b;
    assert(whole_a[a.len() as int] == '.');
    assert(whole_b[b.len() as int] == '.');
    if a.len() < b.len() {
        assert(whole_b[a.len() as int] == b[a.len() as int]);
    } else if b.len() < a.len() {
        assert(whole_a[b.len() as int] == a[b.len() as int]);
    }
    assert(a =~= whole_a.take(a.len() as int));
    assert(b =~= whole_b.take(b.len() as int));
    assert(rest_a =~= whole_a.skip(a.len() as int + 1));
    assert(rest_b =~= whole_b.skip(b.len() as int + 1));
}

/// Two texts that begin with a number and a dot are equal only if the numbers
/// are, and what stands after the dots.
proof fn lemma_first_number(a: nat, rest_a: Seq<char>, b: nat, rest_b: Seq<char>)
    requires
        text::decimal(a) + "."@ + rest_a == text::decimal(b) + "."@ + rest_b,
    ensures
        a == b,
        rest_a == rest_b,
{
    text::law_decimal_is_digits(a);
    text::law_decimal_is_digits(b);
    lemma_first_dot(text::decimal(a), rest_a, text::decimal(b), rest_b);
    text::law_decimal_is_injective(a, b);
}

/// The last two numbers of a version with three.
spec fn minor_and_patch(minor: u64, patch: u64) -> Seq<char> {
    text::decimal(minor as nat) + "."@ + text::decimal(patch as nat)
}

proof fn lemma_release_parts(major: u64, minor: u64, patch: u64)
    ensures
        release(major, minor, patch) == text::decimal(major as nat) + "."@ + minor_and_patch(
            minor,
            patch,
        ),
{
    assert(release(major, minor, patch) =~= text::decimal(major as nat) + "."@ + minor_and_patch(
        minor,
        patch,
    ));
}

/// A version with three numbers and nothing else is that of one triple only.
pub proof fn law_release_is_injective(a: (u64, u64, u64), b: (u64, u64, u64))
    requires
        release(a.0, a.1, a.2) == release(b.0, b.1, b.2),
    ensures
        a == b,
{
    lemma_release_parts(a.0, a.1, a.2);
    lemma_release_parts(b.0, b.1, b.2);
    lemma_first_number(
        a.0 as nat,
        minor_and_patch(a.1, a.2),
        b.0 as nat,
        minor_and_patch(b.1, b.2),
    );
    lemma_first_number(
        a.1 as nat,
        text::decimal(a.2 as nat),
        b.1 as nat,
        text::decimal(b.2 as nat),
    );
    text::law_decimal_is_injective(a.2 as nat, b.2 as nat);
}

/// A version. Its view is the text that it was read from.
pub struct PluginVersion {
    parsed: semver::Version,
    source: Ghost<Seq<char>>,
}

impl View for PluginVersion {
    type V = Seq<char>;

    closed spec fn view(&self) -> Seq<char> {
        self.source@
    }
}

/// `semver::Version::parse` reads a version. Which texts are versions is named
/// and not spelled out, except that three decimal numbers with dots between them
/// are one.
#[verifier::external_body]
pub(crate) fn parse_version(s: &str) -> (result: Result<PluginVersion, semver::Error>)
    ensures
        result is Ok <==> is_version(s@),
        result matches Ok(version) ==> version@ == s@,
        forall|major: u64, minor: u64, patch: u64|
            s@ == #[trigger] release(major, minor, patch) ==> result is Ok,
{
    match semver::Version::parse(s) {
        Ok(parsed) => Ok(PluginVersion { parsed, source: Ghost(s@) }),
        Err(error) => Err(error),
    }
}

impl PluginVersion {
    /// The order of `semver::Version` depends on the two versions alone, is
    /// irreflexive and asymmetric, and compares versions with three numbers and
    /// nothing else number by number. How it treats pre-releases and build
    /// metadata is named and not spelled out.
    #[verifier::external_body]
    pub(crate) fn precedes(&self, other: &PluginVersion) -> (result: bool)
        ensures
            result == version_less(self@, other@),
            result ==> !version_less(other@, self@),
            self@ == other@ ==> !result,
            forall|a: (u64, u64, u64), b: (u64, u64, u64)|
                #![trigger release(a.0, a.1, a.2), release(b.0, b.1, b.2)]
                self@ == release(a.0, a.1, a.2) && other@ == release(b.0, b.1, b.2) ==> result
                    == release_less(a, b),
    {
        self.parsed < other.parsed
    }
}

/// Versions of three numbers are ordered by the first number, then the second,
/// then the third.
pub proof fn law_first_different_number_decides(a: (u64, u64, u64), b: (u64, u64, u64))
    ensures
        a.0 < b.0 ==> release_less(a, b) && !release_less(b, a),
        a.0 == b.0 && a.1 < b.1 ==> release_less(a, b) && !release_less(b, a),
        a.0 == b.0 && a.1 == b.1 && a.2 < b.2 ==> release_less(a, b) && !release_less(b, a),
        a == b ==> !release_less(a, b),
{
}

/// A version of three numbers has them in order, with one dot after each of the
/// first two.
pub proof fn law_release_is_three_numbers(major: u64, minor: u64, patch: u64)
    ensures
        ({
            let first = text::decimal(major as nat);
            let second = text::decimal(minor as nat);
            let whole = release(major, minor, patch);
            &&& text::value_of(whole.take(first.len() as int)) == major
            &&& whole[first.len() as int] == '.'
            &&& text::value_of(
                whole.subrange(first.len() as int + 1, (first.len() + 1 + second.len()) as int),
            ) == minor
            &&& whole[(first.len() + 1 + second.len()) as int] == '.'
            &&& text::value_of(whole.skip((first.len() + second.len() + 2) as int)) == patch
        }),
{
    reveal_strlit(".");
    let first = text::decimal(major as nat);
    let second = text::decimal(minor as nat);
    let third = text::decimal(patch as nat);
    let whole = release(major, minor, patch);
    text::law_decimal_reads_back(major as nat);
    text::law_decimal_reads_back(minor as nat);
    text::law_decimal_reads_back(patch as nat);
    assert("."@.len() == 1);
    assert(whole.take(first.len() as int) =~= first);
    assert(whole.subrange(first.len() as int + 1, (first.len() + 1 + second.len()) as int)
        =~= second);
    assert(whole.skip((first.len() + second.len() + 2) as int) =~= third);
}

/// A version is older than another if it is less and not the same text.
pub proof fn law_no_version_is_older_than_itself(a: Seq<char>, b: Seq<char>)
    ensures
        !older(a, a),
        a != b ==> older(a, b) == version_less(a, b),
{
}

} // verus!
