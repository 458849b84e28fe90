//! Opt-in `/version` compatibility policy for reads.
//!
//! The default policy stays permissive: missing or arbitrary version strings
//! are stored verbatim, matching Python `nir.read`. Callers that need a
//! fail-closed envelope check set a [`VersionPolicy`] on
//! [`ReadOptions`](super::ReadOptions).

use vstd::prelude::*;
use crate::error::{Checked, ErrorModel, NirError, checked_view};
use crate::text::{decimal, u64_text};

verus! {

/// How a read treats the root `/version` dataset.
///
/// The default is [`Self::Permissive`]. Majors accepted by
/// [`Self::CompatibleMajor`] are supplied by the caller; this crate keeps no
/// hidden compatibility matrix. [`super::DEFAULT_NIR_VERSION`] is `1.0.8` and
/// older files carry `0.x`, so a typical importer passes `[0, 1]`.
#[derive(Debug, Clone, PartialEq, Eq)]
#[non_exhaustive]
pub enum VersionPolicy {
    /// Accept a missing `/version` or any present string and store it verbatim.
    Permissive,
    /// Reject a missing `/version`. Any present string is stored verbatim
    /// without SemVer parsing.
    RequirePresent,
    /// Parse `/version` as `MAJOR.MINOR.PATCH` with optional SemVer prerelease
    /// (`-…`) and build (`+…`) suffixes, and accept only the listed majors.
    ///
    /// Construct with [`Self::compatible_major`] so the allow-list is explicit.
    /// A missing `/version` is a policy failure.
    ///
    /// The core must be exactly three decimal components without leading
    /// zeros (`0` itself is allowed): `1.0`, `v1.0.0` and `01.0.0` are
    /// malformed. Suffixes are parsed, then ignored for the major check; an
    /// empty suffix is malformed, and identifiers may contain ASCII
    /// alphanumerics and `-`, separated by `.`.
    CompatibleMajor {
        /// Accepted major numbers, for example `[0, 1]`.
        majors: Vec<u64>,
    },
}

impl Default for VersionPolicy {
    fn default() -> (p: Self)
        ensures
            p == VersionPolicy::Permissive,
    {
        VersionPolicy::Permissive
    }
}

/// Strictly increasing: sorted, with no value twice.
pub open spec fn strictly_increasing(s: Seq<u64>) -> bool {
    forall|i: int, j: int| 0 <= i < j < s.len() ==> #[trigger] s[i] < #[trigger] s[j]
}

/// Two strictly increasing lists holding the same values are the same list.
pub proof fn strictly_increasing_unique(a: Seq<u64>, b: Seq<u64>)
    requires
        strictly_increasing(a),
        strictly_increasing(b),
        a.to_set() == b.to_set(),
    ensures
        a == b,
    decreases a.len() + b.len(),
{
    if a.len() == 0 {
        if b.len() > 0 {
            assert(b.to_set().contains(b[0]));
        }
        assert(a =~= b);
    } else if b.len() == 0 {
        assert(a.to_set().contains(a[0]));
    } else {
        // The smallest values agree.
        assert(a.to_set().contains(a[0]));
        assert(b.to_set().contains(b[0]));
        assert(b.to_set().contains(a[0]));
        assert(a.to_set().contains(b[0]));
        let ka = choose|k: int| 0 <= k < b.len() && b[k] == a[0];
        let kb = choose|k: int| 0 <= k < a.len() && a[k] == b[0];
        if ka > 0 {
            assert(b[0] < b[ka]);
        }
        if kb > 0 {
            assert(a[0] < a[kb]);
        }
        assert(a[0] == b[0]);
        let ra = a.drop_first();
        let rb = b.drop_first();
        assert forall|x: u64| ra.to_set().contains(x) implies rb.to_set().contains(x) by {
            let k = choose|k: int| 0 <= k < ra.len() && ra[k] == x;
            assert(a[k + 1] == x);
            assert(a.to_set().contains(x));
            let m = choose|m: int| 0 <= m < b.len() && b[m] == x;
            assert(a[0] < a[k + 1]);
            if m == 0 {
                assert(false);
            }
            assert(rb[m - 1] == x);
        }
        assert forall|x: u64| rb.to_set().contains(x) implies ra.to_set().contains(x) by {
            let k = choose|k: int| 0 <= k < rb.len() && rb[k] == x;
            assert(b[k + 1] == x);
            assert(b.to_set().contains(x));
            let m = choose|m: int| 0 <= m < a.len() && a[m] == x;
            assert(b[0] < b[k + 1]);
            if m == 0 {
                assert(false);
            }
            assert(ra[m - 1] == x);
        }
        assert(ra.to_set() =~= rb.to_set());
        assert(strictly_increasing(ra)) by {
            assert forall|i: int, j: int| 0 <= i < j < ra.len() implies #[trigger] ra[i]
                < #[trigger] ra[j] by {
                assert(a[i + 1] < a[j + 1]);
            }
        }
        assert(strictly_increasing(rb)) by {
            assert forall|i: int, j: int| 0 <= i < j < rb.len() implies #[trigger] rb[i]
                < #[trigger] rb[j] by {
                assert(b[i + 1] < b[j + 1]);
            }
        }
        strictly_increasing_unique(ra, rb);
        assert(a =~= seq![a[0]] + ra);
        assert(b =~= seq![b[0]] + rb);
    }
}

impl VersionPolicy {
    /// Accept `/version` strings whose SemVer major is one of `majors`.
    ///
    /// Duplicates are dropped and the list is sorted, so the description is
    /// stable. An empty list rejects every well-formed version (fail-closed).
    #[must_use]
    pub fn compatible_major(majors: &[u64]) -> (p: Self)
        ensures
            p matches VersionPolicy::CompatibleMajor { majors: m } && strictly_increasing(m@)
                && m@.to_set() == majors@.to_set(),
    {
        let mut sorted: Vec<u64> = Vec::new();
        let mut i: usize = 0;
        while i < majors.len()
            invariant
                i <= majors@.len(),
                strictly_increasing(sorted@),
                sorted@.to_set() == majors@.take(i as int).to_set(),
            decreases majors@.len() - i,
        {
            let x = majors[i];
            let ghost before = sorted@;
            // First position whose value is at least `x`.
            let mut k: usize = 0;
            while k < sorted.len() && sorted[k] < x
                invariant
                    sorted@ == before,
                    k <= sorted@.len(),
                    forall|j: int| 0 <= j < k ==> #[trigger] sorted@[j] < x,
                decreases sorted@.len() - k,
            {
                k = k + 1;
            }
            assert(majors@.take(i + 1) =~= majors@.take(i as int).push(x));
            proof {
                majors@.take(i as int).lemma_push_to_set_commute(x);
            }
            if k < sorted.len() && sorted[k] == x {
                assert(before.to_set().contains(x));
                assert(majors@.take(i + 1).to_set() =~= majors@.take(i as int).to_set().insert(x));
            } else {
                sorted.insert(k, x);
                assert(sorted@ =~= before.take(k as int).push(x) + before.skip(k as int));
                assert forall|a: int, b: int| 0 <= a < b < sorted@.len() implies #[trigger] sorted@[a]
                    < #[trigger] sorted@[b] by {
                    if b < k {
                        assert(sorted@[a] == before[a] && sorted@[b] == before[b]);
                    } else if b == k {
                        assert(sorted@[a] == before[a]);
                    } else if a < k {
                        assert(sorted@[a] == before[a] && sorted@[b] == before[b - 1]);
                        assert(before[a] < x);
                        assert(x <= before[k as int]);
                        if b - 1 > k {
                            assert(before[k as int] < before[b - 1]);
                        }
                    } else if a == k {
                        assert(sorted@[b] == before[b - 1]);
                        assert(x <= before[k as int]);
                        if b - 1 > k {
                            assert(before[k as int] < before[b - 1]);
                        }
                        assert(before[k as int] != x);
                    } else {
                        assert(sorted@[a] == before[a - 1] && sorted@[b] == before[b - 1]);
                    }
                }
                assert forall|y: u64| sorted@.to_set().contains(y) <==> before.to_set().insert(
                    x,
                ).contains(y) by {
                    if sorted@.to_set().contains(y) {
                        let m = choose|m: int| 0 <= m < sorted@.len() && sorted@[m] == y;
                        if m < k {
                            assert(before[m] == y);
                        } else if m > k {
                            assert(before[m - 1] == y);
                        }
                    }
                    if before.to_set().contains(y) {
                        let m = choose|m: int| 0 <= m < before.len() && before[m] == y;
                        if m < k {
                            assert(sorted@[m] == y);
                        } else {
                            assert(sorted@[m + 1] == y);
                        }
                    }
                    if y == x {
                        assert(sorted@[k as int] == x);
                    }
                }
                assert(sorted@.to_set() =~= before.to_set().insert(x));
                assert(majors@.take(i + 1).to_set() =~= majors@.take(i as int).to_set().insert(x));
            }
            i = i + 1;
        }
        assert(majors@.take(majors@.len() as int) =~= majors@);
        VersionPolicy::CompatibleMajor { majors: sorted }
    }
}

/// The items of a list of majors, comma-separated.
pub open spec fn majors_items_text(s: Seq<u64>) -> Seq<char>
    decreases s.len(),
{
    if s.len() == 0 {
        Seq::empty()
    } else if s.len() == 1 {
        decimal(s[0] as nat)
    } else {
        majors_items_text(s.drop_last()) + ", "@ + decimal(s.last() as nat)
    }
}

/// Canonical description of a policy, as reported in errors.
pub open spec fn policy_text(p: VersionPolicy) -> Seq<char> {
    match p {
        VersionPolicy::Permissive => "permissive"@,
        VersionPolicy::RequirePresent => "require-present"@,
        VersionPolicy::CompatibleMajor { majors } => "compatible-major majors=["@
            + majors_items_text(majors@) + "]"@,
    }
}

impl VersionPolicy {
    /// Canonical description: `permissive`, `require-present`, or
    /// `compatible-major majors=[0, 1]`.
    pub fn describe(&self) -> (s: String)
        ensures
            s@ == policy_text(*self),
    {
        match self {
            VersionPolicy::Permissive => String::from_str("permissive"),
            VersionPolicy::RequirePresent => String::from_str("require-present"),
            VersionPolicy::CompatibleMajor { majors } => {
                let mut items = String::new();
                let mut i: usize = 0;
                while i < majors.len()
                    invariant
                        i <= majors@.len(),
                        items@ == majors_items_text(majors@.take(i as int)),
                    decreases majors@.len() - i,
                {
                    assert(majors@.take(i + 1).drop_last() =~= majors@.take(i as int));
                    if i == 0 {
                        items = u64_text(majors[i]);
                    } else {
                        items = items.concat(", ").concat(u64_text(majors[i]).as_str());
                    }
                    i = i + 1;
                    assert(items@ =~= majors_items_text(majors@.take(i as int)));
                }
                assert(majors@.take(majors@.len() as int) =~= majors@);
                let s = String::from_str("compatible-major majors=[").concat(items.as_str()).concat(
                    "]",
                );
                s
            },
        }
    }
}

/// Core `MAJOR.MINOR.PATCH` extracted from a SemVer-compatible `/version`.
#[derive(Debug, Clone, Copy, PartialEq, Eq)]
pub struct ParsedVersion {
    /// Major component.
    pub major: u64,
    /// Minor component.
    pub minor: u64,
    /// Patch component.
    pub patch: u64,
}

/// Index of the first `c` in `s`, or `-1`.
pub open spec fn first_index(s: Seq<char>, c: char) -> int
    decreases s.len(),
{
    if s.len() == 0 {
        -1
    } else if s[0] == c {
        0
    } else {
        let rest = first_index(s.drop_first(), c);
        if rest < 0 { -1 } else { rest + 1 }
    }
}

/// `first_index` finds the first occurrence, and `-1` means none.
pub proof fn first_index_spec(s: Seq<char>, c: char)
    ensures
        -1 <= first_index(s, c) < s.len(),
        first_index(s, c) >= 0 ==> s[first_index(s, c)] == c,
        forall|j: int|
            0 <= j < s.len() && (first_index(s, c) < 0 || j < first_index(s, c)) ==> #[trigger] s[j]
                != c,
    decreases s.len(),
{
    if s.len() > 0 && s[0] != c {
        let rest = s.drop_first();
        first_index_spec(rest, c);
        assert forall|j: int|
            0 <= j < s.len() && (first_index(s, c) < 0 || j < first_index(s, c)) implies #[trigger] s[j]
            != c by {
            if j > 0 {
                assert(s[j] == rest[j - 1]);
            }
        }
    }
}

/// A character allowed inside a prerelease or build identifier.
pub open spec fn ident_char(c: char) -> bool {
    ('0' <= c && c <= '9') || ('a' <= c && c <= 'z') || ('A' <= c && c <= 'Z') || c == '-'
}

/// A prerelease or build suffix: one or more non-empty identifiers of ASCII
/// alphanumerics and `-`, separated by single dots.
pub open spec fn valid_suffix(s: Seq<char>) -> bool {
    &&& s.len() > 0
    &&& forall|i: int| 0 <= i < s.len() ==> ident_char(#[trigger] s[i]) || s[i] == '.'
    &&& s[0] != '.'
    &&& s.last() != '.'
    &&& forall|i: int| 0 <= i < s.len() - 1 ==> !(#[trigger] s[i] == '.' && s[i + 1] == '.')
}

/// A prerelease or build suffix is exactly a non-empty list of non-empty
/// identifiers separated by single dots, each identifier made of ASCII
/// digits, ASCII letters of either case, and `-`.
pub proof fn suffix_identifiers_are_ascii_alphanumeric_or_hyphen(s: Seq<char>)
    ensures
        valid_suffix(s) <==> {
            &&& s.len() > 0
            &&& s[0] != '.'
            &&& s[s.len() - 1] != '.'
            &&& forall|i: int|
                0 <= i < s.len() ==> ('0' <= #[trigger] s[i] && s[i] <= '9') || ('a' <= s[i] && s[i]
                    <= 'z') || ('A' <= s[i] && s[i] <= 'Z') || s[i] == '-' || s[i] == '.'
            &&& forall|i: int| 0 <= i < s.len() - 1 ==> !(#[trigger] s[i] == '.' && s[i + 1] == '.')
        },
{
}

/// A decimal digit.
pub open spec fn is_digit(c: char) -> bool {
    '0' <= c && c <= '9'
}

/// Value of a string of decimal digits.
pub open spec fn digits_value(s: Seq<char>) -> nat
    decreases s.len(),
{
    if s.len() == 0 {
        0
    } else {
        10 * digits_value(s.drop_last()) + ((s.last() as nat) - ('0' as nat)) as nat
    }
}

/// A numeric core component: non-empty decimal digits, no leading zero
/// unless it is `0` itself, within `u64`.
pub open spec fn component_value(s: Seq<char>) -> Option<u64> {
    if s.len() == 0 {
        None
    } else if s.len() > 1 && s[0] == '0' {
        None
    } else if !(forall|i: int| 0 <= i < s.len() ==> is_digit(#[trigger] s[i])) {
        None
    } else if digits_value(s) > u64::MAX {
        None
    } else {
        Some(digits_value(s) as u64)
    }
}

/// `MAJOR.MINOR.PATCH`: exactly three components separated by dots.
pub open spec fn parse_core(core: Seq<char>) -> Option<ParsedVersion> {
    let i = first_index(core, '.');
    if i < 0 {
        None
    } else {
        let rest = core.skip(i + 1);
        let j = first_index(rest, '.');
        if j < 0 || first_index(rest.skip(j + 1), '.') >= 0 {
            None
        } else {
            match (component_value(core.take(i)), component_value(rest.take(j)), component_value(
                rest.skip(j + 1),
            )) {
                (Some(major), Some(minor), Some(patch)) => Some(
                    ParsedVersion { major, minor, patch },
                ),
                _ => None,
            }
        }
    }
}

/// The `/version` subset accepted by [`VersionPolicy::CompatibleMajor`]: the
/// text up to the first `+` is split at its first `-` into core and
/// prerelease; build and prerelease, when present, must be valid suffixes.
pub open spec fn parse_version(raw: Seq<char>) -> Option<ParsedVersion> {
    let p = first_index(raw, '+');
    let core_and_pre = if p < 0 { raw } else { raw.take(p) };
    if p >= 0 && !valid_suffix(raw.skip(p + 1)) {
        None
    } else {
        let m = first_index(core_and_pre, '-');
        let core = if m < 0 { core_and_pre } else { core_and_pre.take(m) };
        if m >= 0 && !valid_suffix(core_and_pre.skip(m + 1)) {
            None
        } else {
            parse_core(core)
        }
    }
}

/// `c` first occurs right after `a` in `a`, `c`, `b` when `a` lacks it.
proof fn first_index_after(a: Seq<char>, c: char, b: Seq<char>)
    requires
        !a.contains(c),
    ensures
        first_index(a + seq![c] + b, c) == a.len(),
        (a + seq![c] + b).take(a.len() as int) == a,
        (a + seq![c] + b).skip(a.len() as int + 1) == b,
{
    let s = a + seq![c] + b;
    first_index_spec(s, c);
    let f = first_index(s, c);
    assert(s[a.len() as int] == c);
    if f >= 0 && f < a.len() {
        assert(s[f] == a[f]);
        assert(a.contains(c));
    }
    assert(s.take(a.len() as int) =~= a);
    assert(s.skip(a.len() as int + 1) =~= b);
}

/// `first_index` is `-1` for a character that does not occur.
proof fn first_index_absent(s: Seq<char>, c: char)
    requires
        !s.contains(c),
    ensures
        first_index(s, c) < 0,
{
    first_index_spec(s, c);
    if first_index(s, c) >= 0 {
        assert(s[first_index(s, c)] == c);
    }
}

/// A valid suffix holds no `+`.
proof fn suffix_has_no_plus(s: Seq<char>)
    requires
        valid_suffix(s),
    ensures
        !s.contains('+'),
{
    if s.contains('+') {
        let k = choose|k: int| 0 <= k < s.len() && s[k] == '+';
        assert(ident_char(s[k]) || s[k] == '.');
    }
}

/// Prerelease and build suffixes are parsed, then ignored: after a core
/// that holds neither `-` nor `+`, a valid prerelease (`-…`), a valid build
/// (`+…`), or both, leave the parsed version that of the core alone.
pub proof fn suffixes_do_not_change_the_core(core: Seq<char>, pre: Seq<char>, build: Seq<char>)
    requires
        !core.contains('-'),
        !core.contains('+'),
        valid_suffix(pre),
        valid_suffix(build),
    ensures
        parse_version(core) == parse_core(core),
        parse_version(core + seq!['-'] + pre) == parse_core(core),
        parse_version(core + seq!['+'] + build) == parse_core(core),
        parse_version(core + seq!['-'] + pre + seq!['+'] + build) == parse_core(core),
{
    first_index_absent(core, '+');
    first_index_absent(core, '-');
    suffix_has_no_plus(pre);

    let with_pre = core + seq!['-'] + pre;
    first_index_after(core, '-', pre);
    assert(!with_pre.contains('+')) by {
        if with_pre.contains('+') {
            let k = choose|k: int| 0 <= k < with_pre.len() && with_pre[k] == '+';
            if k < core.len() {
                assert(core[k] == '+');
            } else if k > core.len() {
                assert(pre[k - core.len() - 1] == '+');
            }
        }
    }
    first_index_absent(with_pre, '+');

    first_index_after(core, '+', build);

    first_index_after(with_pre, '+', build);
}

/// The text `A.B.C`, followed by `-PRE` when a prerelease is given and by
/// `+BUILD` when a build is given.
pub open spec fn version_text(
    a: Seq<char>,
    b: Seq<char>,
    c: Seq<char>,
    pre: Option<Seq<char>>,
    build: Option<Seq<char>>,
) -> Seq<char> {
    a + seq!['.'] + b + seq!['.'] + c + match pre {
        Some(p) => seq!['-'] + p,
        None => Seq::empty(),
    } + match build {
        Some(x) => seq!['+'] + x,
        None => Seq::empty(),
    }
}

/// An absent suffix, or a valid one.
pub open spec fn opt_valid_suffix(s: Option<Seq<char>>) -> bool {
    s matches Some(x) ==> valid_suffix(x)
}

/// `raw` is `A.B.C[-PRE][+BUILD]` with numeric components worth `v` and
/// valid suffixes.
pub open spec fn version_grammar(
    raw: Seq<char>,
    v: ParsedVersion,
    a: Seq<char>,
    b: Seq<char>,
    c: Seq<char>,
    pre: Option<Seq<char>>,
    build: Option<Seq<char>>,
) -> bool {
    &&& raw == version_text(a, b, c, pre, build)
    &&& component_value(a) == Some(v.major)
    &&& component_value(b) == Some(v.minor)
    &&& component_value(c) == Some(v.patch)
    &&& opt_valid_suffix(pre)
    &&& opt_valid_suffix(build)
}

/// A numeric component holds no `.`, `-` or `+`.
proof fn component_chars(s: Seq<char>)
    requires
        component_value(s) is Some,
    ensures
        !s.contains('.'),
        !s.contains('-'),
        !s.contains('+'),
{
    if s.contains('.') || s.contains('-') || s.contains('+') {
        let k = choose|k: int| 0 <= k < s.len() && (s[k] == '.' || s[k] == '-' || s[k] == '+');
        assert(is_digit(s[k]));
    }
}

/// The core `A.B.C` of three numeric components parses to their values.
proof fn core_parses(a: Seq<char>, b: Seq<char>, c: Seq<char>)
    requires
        component_value(a) is Some,
        component_value(b) is Some,
        component_value(c) is Some,
    ensures
        parse_core(a + seq!['.'] + b + seq!['.'] + c) == Some(
            ParsedVersion {
                major: component_value(a)->0,
                minor: component_value(b)->0,
                patch: component_value(c)->0,
            },
        ),
        !(a + seq!['.'] + b + seq!['.'] + c).contains('-'),
        !(a + seq!['.'] + b + seq!['.'] + c).contains('+'),
{
    component_chars(a);
    component_chars(b);
    component_chars(c);
    let rest = b + seq!['.'] + c;
    let core = a + seq!['.'] + b + seq!['.'] + c;
    assert(core =~= a + seq!['.'] + rest);
    first_index_after(a, '.', rest);
    first_index_after(b, '.', c);
    first_index_absent(c, '.');
    assert forall|ch: char| (ch == '-' || ch == '+') implies !core.contains(ch) by {
        if core.contains(ch) {
            let k = choose|k: int| 0 <= k < core.len() && core[k] == ch;
            if k < a.len() {
                assert(a[k] == ch);
            } else if a.len() < k < a.len() + 1 + b.len() {
                assert(b[k - a.len() - 1] == ch);
            } else if k > a.len() + 1 + b.len() {
                assert(c[k - a.len() - 2 - b.len()] == ch);
            }
        }
    }
}

/// A one-character identifier is a valid suffix.
proof fn single_char_suffix()
    ensures
        valid_suffix(seq!['0']),
{
    assert(ident_char(seq!['0'][0]));
}

/// A text of the grammar parses to the values of its components.
proof fn grammar_parses(
    raw: Seq<char>,
    v: ParsedVersion,
    a: Seq<char>,
    b: Seq<char>,
    c: Seq<char>,
    pre: Option<Seq<char>>,
    build: Option<Seq<char>>,
)
    requires
        version_grammar(raw, v, a, b, c, pre, build),
    ensures
        parse_version(raw) == Some(v),
{
    let core = a + seq!['.'] + b + seq!['.'] + c;
    core_parses(a, b, c);
    single_char_suffix();
    let p = match pre {
        Some(x) => x,
        None => seq!['0'],
    };
    let x = match build {
        Some(x) => x,
        None => seq!['0'],
    };
    suffixes_do_not_change_the_core(core, p, x);
    match (pre, build) {
        (None, None) => {
            assert(raw =~= core);
        },
        (Some(_), None) => {
            assert(raw =~= core + seq!['-'] + p);
        },
        (None, Some(_)) => {
            assert(raw =~= core + seq!['+'] + x);
        },
        (Some(_), Some(_)) => {
            assert(raw =~= core + seq!['-'] + p + seq!['+'] + x);
        },
    }
}

/// The split `core [-pre]` of the text before the first `+`.
proof fn split_prerelease(cp: Seq<char>) -> (r: (Seq<char>, Option<Seq<char>>))
    ensures
        cp == r.0 + match r.1 {
            Some(p) => seq!['-'] + p,
            None => Seq::<char>::empty(),
        },
        r.0 == (if first_index(cp, '-') < 0 { cp } else { cp.take(first_index(cp, '-')) }),
        r.1 == (if first_index(cp, '-') < 0 { None } else { Some(cp.skip(first_index(cp, '-') + 1)) }),
{
    let m = first_index(cp, '-');
    first_index_spec(cp, '-');
    if m >= 0 {
        assert(cp =~= cp.take(m) + (seq!['-'] + cp.skip(m + 1)));
        (cp.take(m), Some(cp.skip(m + 1)))
    } else {
        assert(cp =~= cp + Seq::<char>::empty());
        (cp, None)
    }
}

/// The split `text [+build]` at the first `+`.
proof fn split_build(raw: Seq<char>) -> (r: (Seq<char>, Option<Seq<char>>))
    ensures
        raw == r.0 + match r.1 {
            Some(x) => seq!['+'] + x,
            None => Seq::<char>::empty(),
        },
        r.0 == (if first_index(raw, '+') < 0 { raw } else { raw.take(first_index(raw, '+')) }),
        r.1 == (if first_index(raw, '+') < 0 { None } else { Some(raw.skip(first_index(raw, '+') + 1)) }),
{
    let pp = first_index(raw, '+');
    first_index_spec(raw, '+');
    if pp >= 0 {
        assert(raw =~= raw.take(pp) + (seq!['+'] + raw.skip(pp + 1)));
        (raw.take(pp), Some(raw.skip(pp + 1)))
    } else {
        assert(raw =~= raw + Seq::<char>::empty());
        (raw, None)
    }
}

/// The split `A.B.C` of a core that parses.
proof fn split_core(core: Seq<char>) -> (r: (Seq<char>, Seq<char>, Seq<char>))
    requires
        parse_core(core) is Some,
    ensures
        core == r.0 + seq!['.'] + r.1 + seq!['.'] + r.2,
        component_value(r.0) == Some(parse_core(core)->0.major),
        component_value(r.1) == Some(parse_core(core)->0.minor),
        component_value(r.2) == Some(parse_core(core)->0.patch),
{
    let i = first_index(core, '.');
    first_index_spec(core, '.');
    let rest = core.skip(i + 1);
    let j = first_index(rest, '.');
    first_index_spec(rest, '.');
    let a = core.take(i);
    let b = rest.take(j);
    let c = rest.skip(j + 1);
    assert(core =~= a + seq!['.'] + b + seq!['.'] + c);
    (a, b, c)
}

/// A text that parses is a text of the grammar.
proof fn parsed_is_grammar(raw: Seq<char>, v: ParsedVersion) -> (w: (
    Seq<char>,
    Seq<char>,
    Seq<char>,
    Option<Seq<char>>,
    Option<Seq<char>>,
))
    requires
        parse_version(raw) == Some(v),
    ensures
        version_grammar(raw, v, w.0, w.1, w.2, w.3, w.4),
{
    let (cp, build) = split_build(raw);
    let (core, pre) = split_prerelease(cp);
    let (a, b, c) = split_core(core);
    assert(raw =~= version_text(a, b, c, pre, build));
    (a, b, c, pre, build)
}

/// The `/version` grammar: `parse_nir_version` accepts `raw` with result `v`
/// exactly when `raw` is `MAJOR.MINOR.PATCH`, optionally followed by
/// `-PRERELEASE` and then optionally by `+BUILD`, where each component is
/// `0` or a non-empty ASCII digit string without a leading zero whose value
/// fits `u64` and is that of `v`, and each suffix is a non-empty list of
/// non-empty `[0-9A-Za-z-]` identifiers separated by single dots.
pub proof fn version_grammar_is_parsed(raw: Seq<char>, v: ParsedVersion)
    ensures
        parse_version(raw) == Some(v) <==> exists|
            a: Seq<char>,
            b: Seq<char>,
            c: Seq<char>,
            pre: Option<Seq<char>>,
            build: Option<Seq<char>>,
        | #[trigger] version_grammar(raw, v, a, b, c, pre, build),
{
    if exists|
        a: Seq<char>,
        b: Seq<char>,
        c: Seq<char>,
        pre: Option<Seq<char>>,
        build: Option<Seq<char>>,
    | #[trigger] version_grammar(raw, v, a, b, c, pre, build) {
        let (a, b, c, pre, build) = choose|
            a: Seq<char>,
            b: Seq<char>,
            c: Seq<char>,
            pre: Option<Seq<char>>,
            build: Option<Seq<char>>,
        | #[trigger] version_grammar(raw, v, a, b, c, pre, build);
        grammar_parses(raw, v, a, b, c, pre, build);
    }
    if parse_version(raw) == Some(v) {
        let w = parsed_is_grammar(raw, v);
        assert(version_grammar(raw, v, w.0, w.1, w.2, w.3, w.4));
    }
}

/// Index of the first `c` in `s`.
fn find_char(s: &str, c: char) -> (r: Option<usize>)
    ensures
        match r {
            Some(i) => i < s@.len() && first_index(s@, c) == i,
            None => first_index(s@, c) < 0,
        },
{
    proof {
        first_index_spec(s@, c);
    }
    let n = s.unicode_len();
    let mut i: usize = 0;
    while i < n
        invariant
            n == s@.len(),
            i <= n,
            forall|j: int| 0 <= j < i ==> #[trigger] s@[j] != c,
            -1 <= first_index(s@, c) < s@.len(),
            first_index(s@, c) >= 0 ==> s@[first_index(s@, c)] == c,
        decreases n - i,
    {
        if s.get_char(i) == c {
            proof {
                first_index_spec(s@, c);
                let f = first_index(s@, c);
                if f < 0 || f > i {
                    assert(s@[i as int] != c);
                } else if f < i {
                    assert(s@[f] != c);
                }
            }
            return Some(i);
        }
        i = i + 1;
    }
    proof {
        let f = first_index(s@, c);
        if f >= 0 {
            assert(s@[f] != c);
        }
    }
    None
}

/// Split `s` at its first `c`: the text before it and the text after it.
fn split_first(s: &str, c: char) -> (r: Option<(&str, &str)>)
    ensures
        match r {
            Some((a, b)) => first_index(s@, c) >= 0 && a@ == s@.take(first_index(s@, c)) && b@
                == s@.skip(first_index(s@, c) + 1),
            None => first_index(s@, c) < 0,
        },
{
    match find_char(s, c) {
        Some(i) => {
            let n = s.unicode_len();
            let a = s.substring_char(0, i);
            let b = s.substring_char(i + 1, n);
            assert(a@ =~= s@.take(i as int));
            assert(b@ =~= s@.skip(i + 1));
            Some((a, b))
        },
        None => None,
    }
}

fn is_ident_char(c: char) -> (b: bool)
    ensures
        b == ident_char(c),
{
    ('0' <= c && c <= '9') || ('a' <= c && c <= 'z') || ('A' <= c && c <= 'Z') || c == '-'
}

/// Whether `s` is a valid prerelease or build suffix.
pub fn is_valid_suffix(s: &str) -> (b: bool)
    ensures
        b == valid_suffix(s@),
{
    let n = s.unicode_len();
    if n == 0 {
        return false;
    }
    if s.get_char(0) == '.' || s.get_char(n - 1) == '.' {
        return false;
    }
    let mut i: usize = 0;
    while i < n
        invariant
            n == s@.len(),
            n > 0,
            i <= n,
            forall|j: int| 0 <= j < i ==> ident_char(#[trigger] s@[j]) || s@[j] == '.',
            forall|j: int| 0 <= j < i && j < n - 1 ==> !(#[trigger] s@[j] == '.' && s@[j + 1] == '.'),
        decreases n - i,
    {
        let c = s.get_char(i);
        if !(is_ident_char(c) || c == '.') {
            return false;
        }
        if c == '.' && i + 1 < n && s.get_char(i + 1) == '.' {
            return false;
        }
        i = i + 1;
    }
    true
}

/// The digits of `s` before position `i` are worth at most the whole.
proof fn digits_value_prefix(s: Seq<char>, i: int)
    requires
        0 <= i <= s.len(),
    ensures
        digits_value(s.take(i)) <= digits_value(s),
    decreases s.len() - i,
{
    if i < s.len() {
        digits_value_prefix(s, i + 1);
        assert(s.take(i + 1).drop_last() =~= s.take(i));
        assert(digits_value(s.take(i + 1)) == 10 * digits_value(s.take(i)) + ((s[i] as nat) - (
        '0' as nat)) as nat);
    } else {
        assert(s.take(i) =~= s);
    }
}

/// Parse one numeric core component.
pub fn parse_component(s: &str) -> (r: Option<u64>)
    ensures
        r == component_value(s@),
{
    let n = s.unicode_len();
    if n == 0 {
        return None;
    }
    if n > 1 && s.get_char(0) == '0' {
        return None;
    }
    let mut i: usize = 0;
    while i < n
        invariant
            n == s@.len(),
            i <= n,
            forall|j: int| 0 <= j < i ==> is_digit(#[trigger] s@[j]),
        decreases n - i,
    {
        let c = s.get_char(i);
        if !('0' <= c && c <= '9') {
            return None;
        }
        i = i + 1;
    }
    let mut value: u64 = 0;
    let mut k: usize = 0;
    while k < n
        invariant
            n == s@.len(),
            k <= n,
            forall|j: int| 0 <= j < n ==> is_digit(#[trigger] s@[j]),
            value == digits_value(s@.take(k as int)),
        decreases n - k,
    {
        let c = s.get_char(k);
        let d: u64 = (c as u32 - '0' as u32) as u64;
        assert(s@.take(k + 1).drop_last() =~= s@.take(k as int));
        assert(digits_value(s@.take(k + 1)) == 10 * value + d);
        if value > (u64::MAX - d) / 10 {
            proof {
                assert(10 * value + d > u64::MAX) by (nonlinear_arith)
                    requires
                        value > (u64::MAX - d) / 10,
                        d <= 9,
                ;
                digits_value_prefix(s@, k + 1);
            }
            return None;
        }
        assert(10 * value + d <= u64::MAX) by (nonlinear_arith)
            requires
                value <= (u64::MAX - d) / 10,
                d <= 9,
        ;
        value = value * 10 + d;
        k = k + 1;
    }
    assert(s@.take(n as int) =~= s@);
    Some(value)
}

/// Parse the NIR `/version` subset used by [`VersionPolicy::CompatibleMajor`].
pub fn parse_nir_version(raw: &str) -> (r: Option<ParsedVersion>)
    ensures
        r == parse_version(raw@),
{
    let (core_and_pre, build) = match split_first(raw, '+') {
        Some((left, right)) => (left, Some(right)),
        None => (raw, None),
    };
    match build {
        Some(b) => {
            if !is_valid_suffix(b) {
                return None;
            }
        },
        None => {},
    }
    let (core, pre) = match split_first(core_and_pre, '-') {
        Some((left, right)) => (left, Some(right)),
        None => (core_and_pre, None),
    };
    match pre {
        Some(p) => {
            if !is_valid_suffix(p) {
                return None;
            }
        },
        None => {},
    }
    let (major_text, rest) = match split_first(core, '.') {
        Some(parts) => parts,
        None => return None,
    };
    let (minor_text, patch_text) = match split_first(rest, '.') {
        Some(parts) => parts,
        None => return None,
    };
    if find_char(patch_text, '.').is_some() {
        return None;
    }
    let major = match parse_component(major_text) {
        Some(v) => v,
        None => return None,
    };
    let minor = match parse_component(minor_text) {
        Some(v) => v,
        None => return None,
    };
    let patch = match parse_component(patch_text) {
        Some(v) => v,
        None => return None,
    };
    Some(ParsedVersion { major, minor, patch })
}

/// The error a policy reports for an observed `/version` (or its absence).
pub open spec fn incompatible_error(observed: Option<Seq<char>>, policy: VersionPolicy) -> ErrorModel {
    ErrorModel::IncompatibleVersion { observed, policy: policy_text(policy) }
}

/// What `policy` decides for an observed `/version` (or its absence).
pub open spec fn policy_check(observed: Option<Seq<char>>, policy: VersionPolicy) -> Checked {
    match policy {
        VersionPolicy::Permissive => Ok(()),
        VersionPolicy::RequirePresent => if observed is None {
            Err(incompatible_error(None, policy))
        } else {
            Ok(())
        },
        VersionPolicy::CompatibleMajor { majors } => match observed {
            None => Err(incompatible_error(None, policy)),
            Some(raw) => match parse_version(raw) {
                Some(parsed) => if majors@.contains(parsed.major) {
                    Ok(())
                } else {
                    Err(incompatible_error(Some(raw), policy))
                },
                None => Err(incompatible_error(Some(raw), policy)),
            },
        },
    }
}

/// The permissive policy accepts a missing version and any present one.
pub proof fn permissive_accepts_everything(observed: Option<Seq<char>>)
    ensures
        policy_check(observed, VersionPolicy::Permissive) == Ok::<(), ErrorModel>(()),
{
}

/// `RequirePresent` rejects exactly a missing version.
pub proof fn require_present_rejects_only_absence(observed: Option<Seq<char>>)
    ensures
        policy_check(observed, VersionPolicy::RequirePresent) is Err <==> observed is None,
{
}

/// An empty allow-list rejects every version, present or not (fail-closed).
pub proof fn empty_allow_list_rejects_everything(majors: Vec<u64>, observed: Option<Seq<char>>)
    requires
        majors@.len() == 0,
    ensures
        policy_check(observed, VersionPolicy::CompatibleMajor { majors }) is Err,
{
}

/// `CompatibleMajor` accepts a version exactly when it parses and its major
/// is listed; whatever the allow-list, a malformed or missing version is
/// refused.
pub proof fn compatible_major_accepts_listed_majors(
    majors: Vec<u64>,
    observed: Option<Seq<char>>,
)
    ensures
        policy_check(observed, VersionPolicy::CompatibleMajor { majors }) is Ok <==> (
        observed matches Some(raw) && parse_version(raw) matches Some(p) && majors@.contains(
            p.major,
        )),
{
}

fn incompatible(observed: Option<String>, policy: &VersionPolicy) -> (e: NirError)
    ensures
        e@ == incompatible_error(
            match observed {
                Some(o) => Some(o@),
                None => None,
            },
            *policy,
        ),
{
    NirError::IncompatibleVersion { observed, policy: policy.describe() }
}

fn contains_major(majors: &[u64], major: u64) -> (b: bool)
    ensures
        b == majors@.contains(major),
{
    let mut i: usize = 0;
    while i < majors.len()
        invariant
            i <= majors@.len(),
            forall|j: int| 0 <= j < i ==> #[trigger] majors@[j] != major,
        decreases majors@.len() - i,
    {
        if majors[i] == major {
            return true;
        }
        i = i + 1;
    }
    false
}

/// Apply `policy` to an already-decoded `/version` string (or its absence).
///
/// Shared by the full graph reader and the `/version`-only reader so the two
/// cannot disagree about which strings a policy accepts.
pub fn enforce_version_policy(observed: Option<&str>, policy: &VersionPolicy) -> (r: Result<
    (),
    NirError,
>)
    ensures
        checked_view(r) == policy_check(
            match observed {
                Some(o) => Some(o@),
                None => None,
            },
            *policy,
        ),
{
    match policy {
        VersionPolicy::Permissive => Ok(()),
        VersionPolicy::RequirePresent => {
            if observed.is_none() {
                Err(incompatible(None, policy))
            } else {
                Ok(())
            }
        },
        VersionPolicy::CompatibleMajor { majors } => {
            let raw = match observed {
                Some(raw) => raw,
                None => return Err(incompatible(None, policy)),
            };
            match parse_nir_version(raw) {
                Some(parsed) => {
                    if contains_major(majors.as_slice(), parsed.major) {
                        Ok(())
                    } else {
                        Err(incompatible(Some(raw.to_owned()), policy))
                    }
                },
                None => Err(incompatible(Some(raw.to_owned()), policy)),
            }
        },
    }
}

} // verus!
