//! Versions of the program, as semantic versioning writes them.
use crate::text::{
    decimal, is_digit, law_decimal_has_digits_alone, law_decimal_is_unambiguous, lemma_split_at,
};
use vstd::prelude::*;

verus! {

/// The failure of `semver` to read a part of a version.
#[verifier::external_type_specification]
#[verifier::external_body]
pub struct ExSemverError(semver::Error);

/// A character that an identifier may hold.
pub open spec fn is_identifier_char(c: char) -> bool {
    is_digit(c) || 'A' <= c <= 'Z' || 'a' <= c <= 'z' || c == '-'
}

/// Whether `from..to` is one of the stretches that the dots divide `s` into.
pub open spec fn is_stretch(s: Seq<char>, from: int, to: int) -> bool {
    &&& 0 <= from <= to <= s.len()
    &&& from == 0 || s[from - 1] == '.'
    &&& to == s.len() || s[to] == '.'
    &&& forall|i: int| from <= i < to ==> s[i] != '.'
}

/// Whether the stretch `from..to` is a number.
pub open spec fn is_numeric(s: Seq<char>, from: int, to: int) -> bool {
    forall|i: int| from <= i < to ==> is_digit(#[trigger] s[i])
}

/// Build metadata: nothing, or identifiers with dots between them.
pub open spec fn is_build_metadata(s: Seq<char>) -> bool {
    s.len() > 0 ==> {
        &&& forall|i: int| 0 <= i < s.len() ==> #[trigger] s[i] == '.' || is_identifier_char(s[i])
        &&& forall|from: int, to: int| #[trigger] is_stretch(s, from, to) ==> from < to
    }
}

/// A pre-release: as build metadata, and no number in it has a leading zero.
pub open spec fn is_prerelease(s: Seq<char>) -> bool {
    &&& is_build_metadata(s)
    &&& forall|from: int, to: int| #[trigger]
        is_stretch(s, from, to) && from + 1 < to && is_numeric(s, from, to) ==> s[from] != '0'
}

/// The parts of a version.
#[verifier::ext_equal]
pub struct VersionView {
    pub major: nat,
    pub minor: nat,
    pub patch: nat,
    pub pre: Seq<char>,
    pub build: Seq<char>,
}

/// The most characters that a pre-release or build metadata can hold on every machine.
pub const MAX_IDENTIFIERS: usize = 0x7fff_0000;

/// The version with these parts.
pub open spec fn version_parts(
    major: u64,
    minor: u64,
    patch: u64,
    pre: Seq<char>,
    build: Seq<char>,
) -> VersionView {
    VersionView { major: major as nat, minor: minor as nat, patch: patch as nat, pre, build }
}

/// Whether the pre-release and the build metadata of a version have their form.
pub open spec fn is_version(version: VersionView) -> bool {
    is_prerelease(version.pre) && is_build_metadata(version.build)
}

/// `mark` and `s` behind it, or nothing where `s` is empty.
pub open spec fn marked(mark: Seq<char>, s: Seq<char>) -> Seq<char> {
    if s.len() > 0 {
        mark + s
    } else {
        Seq::empty()
    }
}

/// A version as semantic versioning writes it.
pub open spec fn version_text(version: VersionView) -> Seq<char> {
    decimal(version.major) + "."@ + decimal(version.minor) + "."@ + decimal(version.patch)
        + marked("-"@, version.pre) + marked("+"@, version.build)
}

/// Different versions are written differently.
pub proof fn law_version_text_is_unambiguous(one: VersionView, other: VersionView)
    requires
        is_version(one),
        is_version(other),
        version_text(one) == version_text(other),
    ensures
        one == other,
{
    lemma_parts(one);
    lemma_parts(other);
    lemma_split_at(
        '.',
        decimal(one.major),
        behind_major(one),
        decimal(other.major),
        behind_major(other),
    );
    lemma_split_at(
        '.',
        decimal(one.minor),
        behind_minor(one) + marked(seq!['+'], one.build),
        decimal(other.minor),
        behind_minor(other) + marked(seq!['+'], other.build),
    );
    lemma_split_marked('+', behind_minor(one), one.build, behind_minor(other), other.build);
    lemma_split_marked('-', decimal(one.patch), one.pre, decimal(other.patch), other.pre);
    law_decimal_is_unambiguous(one.major, other.major);
    law_decimal_is_unambiguous(one.minor, other.minor);
    law_decimal_is_unambiguous(one.patch, other.patch);
}

/// What stands between the second dot of a version and its build metadata.
spec fn behind_minor(version: VersionView) -> Seq<char> {
    decimal(version.patch) + marked(seq!['-'], version.pre)
}

/// What stands behind the first dot of a version.
spec fn behind_major(version: VersionView) -> Seq<char> {
    decimal(version.minor) + seq!['.'] + (behind_minor(version) + marked(
        seq!['+'],
        version.build,
    ))
}

proof fn lemma_parts(version: VersionView)
    requires
        is_version(version),
    ensures
        version_text(version) == decimal(version.major) + seq!['.'] + behind_major(version),
        !decimal(version.major).contains('.'),
        !decimal(version.minor).contains('.'),
        !decimal(version.patch).contains('-'),
        !behind_minor(version).contains('+'),
{
    reveal_strlit(".");
    reveal_strlit("-");
    reveal_strlit("+");
    assert("."@ =~= seq!['.']);
    assert("-"@ =~= seq!['-']);
    assert("+"@ =~= seq!['+']);
    assert(version_text(version) =~= decimal(version.major) + seq!['.'] + behind_major(version));
    law_decimal_has_digits_alone(version.major);
    law_decimal_has_digits_alone(version.minor);
    law_decimal_has_digits_alone(version.patch);
    let s = behind_minor(version);
    let at = decimal(version.patch).len();
    assert forall|i: int| 0 <= i < s.len() implies s[i] != '+' by {
        if i < at {
            assert(is_digit(decimal(version.patch)[i]));
        } else if i > at {
            assert(s[i] == version.pre[i - at - 1]);
        }
    }
}

proof fn lemma_split_marked(mark: char, a: Seq<char>, x: Seq<char>, b: Seq<char>, y: Seq<char>)
    requires
        !a.contains(mark),
        !b.contains(mark),
        a + marked(seq![mark], x) == b + marked(seq![mark], y),
    ensures
        a == b,
        x == y,
{
    if x.len() > 0 && y.len() > 0 {
        assert(a + marked(seq![mark], x) =~= a + seq![mark] + x);
        assert(b + marked(seq![mark], y) =~= b + seq![mark] + y);
        lemma_split_at(mark, a, x, b, y);
    } else if x.len() > 0 {
        assert(b =~= b + marked(seq![mark], y));
        assert((a + marked(seq![mark], x))[a.len() as int] == mark);
        assert(b[a.len() as int] == mark);
    } else if y.len() > 0 {
        assert(a =~= a + marked(seq![mark], x));
        assert((b + marked(seq![mark], y))[b.len() as int] == mark);
        assert(a[b.len() as int] == mark);
    } else {
        assert(a =~= a + marked(seq![mark], x));
        assert(b =~= b + marked(seq![mark], y));
        assert(x =~= y);
    }
}

/// Why there is no such version.
#[derive(Debug, PartialEq, Eq)]
pub enum VersionError {
    /// The pre-release or the build metadata does not have its form.
    InvalidIdentifiers,
}

/// The text of `semver::Version` with these parts, as its `Display` writes it.
///
/// The pre-release goes through `semver::Prerelease::new` and the build metadata through
/// `semver::BuildMetadata::new`. The contract claims that these two accept the texts of
/// `is_prerelease` and `is_build_metadata` and no others, and that the version then shows its
/// numbers in decimal with dots between them, the pre-release behind a hyphen and the build
/// metadata behind a plus sign, each left out where it is empty. The two panic on texts that
/// come near to filling the address space, which the bound on the lengths keeps out.
#[verifier::external_body]
fn semver_text(
    major: u64,
    minor: u64,
    patch: u64,
    pre: &str,
    build: &str,
) -> (shown: Result<String, semver::Error>)
    requires
        pre@.len() <= MAX_IDENTIFIERS,
        build@.len() <= MAX_IDENTIFIERS,
    ensures
        shown is Ok <==> is_version(version_parts(major, minor, patch, pre@, build@)),
        shown is Ok ==> shown->Ok_0@ == version_text(
            version_parts(major, minor, patch, pre@, build@),
        ),
{
    let pre = semver::Prerelease::new(pre)?;
    let build = semver::BuildMetadata::new(build)?;
    Ok(semver::Version { major, minor, patch, pre, build }.to_string())
}

/// A version of the program.
#[derive(Debug, PartialEq, Eq)]
pub struct Version {
    major: u64,
    minor: u64,
    patch: u64,
    pre: String,
    build: String,
}

impl View for Version {
    type V = VersionView;

    closed spec fn view(&self) -> VersionView {
        version_parts(self.major, self.minor, self.patch, self.pre@, self.build@)
    }
}

impl Version {
    #[verifier::type_invariant]
    spec fn well_formed(self) -> bool {
        &&& is_version(self@)
        &&& self@.pre.len() <= MAX_IDENTIFIERS
        &&& self@.build.len() <= MAX_IDENTIFIERS
    }

    /// The version with these parts. A pre-release or build metadata that is empty is absent.
    pub fn new(major: u64, minor: u64, patch: u64, pre: &str, build: &str) -> (version: Result<
        Version,
        VersionError,
    >)
        requires
            pre@.len() <= MAX_IDENTIFIERS,
            build@.len() <= MAX_IDENTIFIERS,
        ensures
            version is Ok <==> is_version(version_parts(major, minor, patch, pre@, build@)),
            version matches Ok(version) ==> version@ == version_parts(
                major,
                minor,
                patch,
                pre@,
                build@,
            ),
            version matches Err(error) ==> error == VersionError::InvalidIdentifiers,
    {
        match semver_text(major, minor, patch, pre, build) {
            Ok(_) => Ok(
                Version { major, minor, patch, pre: pre.to_string(), build: build.to_string() },
            ),
            Err(_) => Err(VersionError::InvalidIdentifiers),
        }
    }

    /// The version as semantic versioning writes it.
    pub fn text(&self) -> (text: String)
        ensures
            is_version(self@),
            text@ == version_text(self@),
    {
        proof {
            use_type_invariant(self);
        }
        match semver_text(
            self.major,
            self.minor,
            self.patch,
            self.pre.as_str(),
            self.build.as_str(),
        ) {
            Ok(text) => text,
            Err(_) => vstd::pervasive::unreached(),
        }
    }
}

/// A version is written as its three numbers with dots between them, then a hyphen and the
/// pre-release where there is one, then a plus sign and the build metadata where there is
/// some.
pub proof fn law_how_a_version_is_written(version: VersionView)
    ensures
        ({
            let numbers = decimal(version.major) + "."@ + decimal(version.minor) + "."@ + decimal(
                version.patch,
            );
            &&& version.pre.len() == 0 && version.build.len() == 0 ==> version_text(version)
                == numbers
            &&& version.pre.len() > 0 && version.build.len() == 0 ==> version_text(version)
                == numbers + "-"@ + version.pre
            &&& version.pre.len() == 0 && version.build.len() > 0 ==> version_text(version)
                == numbers + "+"@ + version.build
            &&& version.pre.len() > 0 && version.build.len() > 0 ==> version_text(version)
                == numbers + "-"@ + version.pre + "+"@ + version.build
        }),
{
    let numbers = decimal(version.major) + "."@ + decimal(version.minor) + "."@ + decimal(
        version.patch,
    );
    let pre = numbers + "-"@ + version.pre;
    if version.pre.len() == 0 && version.build.len() == 0 {
        assert(version_text(version) =~= numbers);
    } else if version.build.len() == 0 {
        assert(version_text(version) =~= pre);
    } else if version.pre.len() == 0 {
        assert(version_text(version) =~= numbers + "+"@ + version.build);
    } else {
        assert(version_text(version) =~= pre + "+"@ + version.build);
    }
}

/// The parts of a version are those that it was made of.
pub proof fn law_version_parts_are_kept(
    major: u64,
    minor: u64,
    patch: u64,
    pre: Seq<char>,
    build: Seq<char>,
)
    ensures
        version_parts(major, minor, patch, pre, build).major == major,
        version_parts(major, minor, patch, pre, build).minor == minor,
        version_parts(major, minor, patch, pre, build).patch == patch,
        version_parts(major, minor, patch, pre, build).pre == pre,
        version_parts(major, minor, patch, pre, build).build == build,
        is_version(version_parts(major, minor, patch, pre, build)) <==> is_prerelease(pre)
            && is_build_metadata(build),
{
}

/// Without a dot, build metadata is letters, digits and hyphens, or nothing. A pre-release is
/// the same, but for numbers of more than one digit with a leading zero.
pub proof fn law_single_identifiers(s: Seq<char>)
    requires
        !s.contains('.'),
    ensures
        is_build_metadata(s) <==> forall|i: int|
            0 <= i < s.len() ==> ('0' <= #[trigger] s[i] <= '9' || 'A' <= s[i] <= 'Z' || 'a'
                <= s[i] <= 'z' || s[i] == '-'),
        is_prerelease(s) <==> is_build_metadata(s) && !(s.len() > 1 && s[0] == '0' && forall|
            i: int,
        |
            0 <= i < s.len() ==> '0' <= #[trigger] s[i] <= '9'),
{
    assert(is_stretch(s, 0, s.len() as int));
    assert forall|from: int, to: int| #[trigger] is_stretch(s, from, to) implies from == 0 && to
        == s.len() by {
        if from > 0 {
            assert(s[from - 1] == '.');
        }
        if to < s.len() {
            assert(s[to] == '.');
        }
    }
    if forall|i: int|
        0 <= i < s.len() ==> ('0' <= #[trigger] s[i] <= '9' || 'A' <= s[i] <= 'Z' || 'a' <= s[i]
            <= 'z' || s[i] == '-') {
        assert forall|i: int| 0 <= i < s.len() implies #[trigger] s[i] == '.'
            || is_identifier_char(s[i]) by {}
        assert(is_build_metadata(s));
    }
    if is_build_metadata(s) {
        assert forall|i: int| 0 <= i < s.len() implies ('0' <= #[trigger] s[i] <= '9' || 'A'
            <= s[i] <= 'Z' || 'a' <= s[i] <= 'z' || s[i] == '-') by {
            assert(s[i] == '.' || is_identifier_char(s[i]));
        }
    }
    assert(is_numeric(s, 0, s.len() as int) <==> forall|i: int|
        0 <= i < s.len() ==> '0' <= #[trigger] s[i] <= '9');
}

/// A dot joins what is not empty on either side, and the sides are judged one by one.
pub proof fn law_identifiers_one_by_one(first: Seq<char>, rest: Seq<char>)
    requires
        !first.contains('.'),
    ensures
        is_build_metadata(first + seq!['.'] + rest) <==> first.len() > 0 && rest.len() > 0
            && is_build_metadata(first) && is_build_metadata(rest),
        is_prerelease(first + seq!['.'] + rest) <==> first.len() > 0 && rest.len() > 0
            && is_prerelease(first) && is_prerelease(rest),
{
    let s = first + seq!['.'] + rest;
    if is_build_metadata(s) {
        lemma_joined_is_apart(first, rest);
    }
    if first.len() > 0 && rest.len() > 0 && is_build_metadata(first) && is_build_metadata(rest) {
        lemma_apart_is_joined(first, rest);
    }
    if is_build_metadata(s) {
        lemma_no_leading_zeros(first, rest);
    }
}

/// The stretches of a joined text are the front, and those behind the first dot.
proof fn lemma_stretches(first: Seq<char>, rest: Seq<char>, from: int, to: int)
    requires
        !first.contains('.'),
        is_stretch(first + seq!['.'] + rest, from, to),
    ensures
        (from == 0 && to == first.len()) || (from > first.len() && is_stretch(
            rest,
            from - first.len() - 1,
            to - first.len() - 1,
        )),
{
    let s = first + seq!['.'] + rest;
    let k = first.len() as int + 1;
    assert(s[k - 1] == '.');
    if from < k {
        if from > 0 {
            assert(s[from - 1] == first[from - 1]);
        }
        if to < first.len() {
            assert(s[to] == first[to]);
        }
        if to > first.len() {
            assert(s[k - 1] != '.');
        }
    } else {
        lemma_stretch_behind(first, rest, from - k, to - k);
    }
}

proof fn lemma_front_is_a_stretch(first: Seq<char>, rest: Seq<char>)
    requires
        !first.contains('.'),
    ensures
        is_stretch(first + seq!['.'] + rest, 0, first.len() as int),
        is_stretch(first, 0, first.len() as int),
{
    let s = first + seq!['.'] + rest;
    assert forall|i: int| 0 <= i < first.len() implies s[i] != '.' by {
        assert(s[i] == first[i]);
    }
}

proof fn lemma_joined_is_apart(first: Seq<char>, rest: Seq<char>)
    requires
        !first.contains('.'),
        is_build_metadata(first + seq!['.'] + rest),
    ensures
        first.len() > 0,
        rest.len() > 0,
        is_build_metadata(first),
        is_build_metadata(rest),
{
    let s = first + seq!['.'] + rest;
    let k = first.len() as int + 1;
    assert(s.len() > 0);
    lemma_front_is_a_stretch(first, rest);
    assert(s[k - 1] == '.');
    if rest.len() == 0 {
        assert(is_stretch(s, k, k));
    }
    assert forall|i: int| 0 <= i < first.len() implies #[trigger] first[i] == '.'
        || is_identifier_char(first[i]) by {
        assert(s[i] == '.' || is_identifier_char(s[i]));
    }
    law_single_identifiers(first);
    assert forall|i: int| 0 <= i < rest.len() implies #[trigger] rest[i] == '.'
        || is_identifier_char(rest[i]) by {
        assert(s[i + k] == '.' || is_identifier_char(s[i + k]));
    }
    assert forall|from: int, to: int| #[trigger] is_stretch(rest, from, to) implies from < to by {
        lemma_stretch_behind(first, rest, from, to);
        assert(is_stretch(s, from + k, to + k));
    }
}

proof fn lemma_apart_is_joined(first: Seq<char>, rest: Seq<char>)
    requires
        !first.contains('.'),
        first.len() > 0,
        rest.len() > 0,
        is_build_metadata(first),
        is_build_metadata(rest),
    ensures
        is_build_metadata(first + seq!['.'] + rest),
{
    let s = first + seq!['.'] + rest;
    let k = first.len() as int + 1;
    assert forall|i: int| 0 <= i < s.len() implies #[trigger] s[i] == '.' || is_identifier_char(
        s[i],
    ) by {
        if i < first.len() {
            assert(s[i] == first[i]);
        } else if i >= k {
            assert(s[i] == rest[i - k]);
        }
    }
    assert forall|from: int, to: int| #[trigger] is_stretch(s, from, to) implies from < to by {
        lemma_stretches(first, rest, from, to);
        if from >= k {
            assert(is_stretch(rest, from - k, to - k));
        }
    }
}

/// Whether no number among the identifiers has a leading zero.
spec fn no_leading_zeros(s: Seq<char>) -> bool {
    forall|from: int, to: int| #[trigger]
        is_stretch(s, from, to) && from + 1 < to && is_numeric(s, from, to) ==> s[from] != '0'
}

proof fn lemma_no_leading_zeros(first: Seq<char>, rest: Seq<char>)
    requires
        !first.contains('.'),
    ensures
        no_leading_zeros(first + seq!['.'] + rest) <==> no_leading_zeros(first)
            && no_leading_zeros(rest),
{
    let s = first + seq!['.'] + rest;
    let k = first.len() as int + 1;
    lemma_front_is_a_stretch(first, rest);
    if no_leading_zeros(s) {
        assert forall|from: int, to: int| #[trigger]
            is_stretch(first, from, to) && from + 1 < to && is_numeric(
                first,
                from,
                to,
            ) implies first[from] != '0' by {
            if from > 0 {
                assert(first[from - 1] == '.');
            }
            if to < first.len() {
                assert(first[to] == '.');
            }
            assert(is_stretch(s, from, to));
            assert forall|i: int| from <= i < to implies is_digit(#[trigger] s[i]) by {
                assert(is_digit(first[i]));
            }
            assert(is_numeric(s, from, to));
            assert(s[from] == first[from]);
        }
        assert forall|from: int, to: int| #[trigger]
            is_stretch(rest, from, to) && from + 1 < to && is_numeric(
                rest,
                from,
                to,
            ) implies rest[from] != '0' by {
            lemma_stretch_behind(first, rest, from, to);
            assert(is_stretch(s, from + k, to + k));
            assert forall|i: int| from + k <= i < to + k implies is_digit(#[trigger] s[i]) by {
                assert(is_digit(rest[i - k]));
            }
            assert(is_numeric(s, from + k, to + k));
            assert(s[from + k] == rest[from]);
        }
    }
    if no_leading_zeros(first) && no_leading_zeros(rest) {
        assert forall|from: int, to: int| #[trigger]
            is_stretch(s, from, to) && from + 1 < to && is_numeric(
                s,
                from,
                to,
            ) implies s[from] != '0' by {
            lemma_stretches(first, rest, from, to);
            if from < k {
                assert forall|i: int| from <= i < to implies is_digit(#[trigger] first[i]) by {
                    assert(is_digit(s[i]));
                }
                assert(is_numeric(first, from, to));
                assert(s[from] == first[from]);
            } else {
                assert forall|i: int| from - k <= i < to - k implies is_digit(
                    #[trigger] rest[i],
                ) by {
                    assert(is_digit(s[i + k]));
                }
                assert(is_stretch(rest, from - k, to - k));
                assert(is_numeric(rest, from - k, to - k));
                assert(s[from] == rest[from - k]);
            }
        }
    }
}

proof fn lemma_stretch_behind(first: Seq<char>, rest: Seq<char>, from: int, to: int)
    ensures
        is_stretch(rest, from, to) <==> from >= 0 && is_stretch(
            first + seq!['.'] + rest,
            from + first.len() + 1,
            to + first.len() + 1,
        ),
{
    let s = first + seq!['.'] + rest;
    let k = first.len() as int + 1;
    assert(forall|i: int| 0 <= i < rest.len() ==> #[trigger] rest[i] == s[i + k]);
    if is_stretch(rest, from, to) {
        assert forall|i: int| from + k <= i < to + k implies s[i] != '.' by {
            assert(s[i] == rest[i - k]);
        }
        assert(is_stretch(s, from + k, to + k));
    }
    if from >= 0 && is_stretch(s, from + k, to + k) {
        assert forall|i: int| from <= i < to implies rest[i] != '.' by {
            assert(s[i + k] != '.');
        }
        assert(is_stretch(rest, from, to));
    }
}

} // verus!
