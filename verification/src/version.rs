//! Semantic versions (MAJOR.MINOR.PATCH) with a strict ordering that guards
//! against downgrades: an update is accepted only when the new version is
//! strictly greater than the installed one.

use vstd::prelude::*;
use crate::text::chars_of;

verus! {

/// A semantic version, ordered by major, then minor, then patch number.
#[derive(Debug, Clone, Copy, PartialEq, Eq, Structural, PartialOrd, Ord)]
pub struct SemanticVersion {
    pub major: u32,
    pub minor: u32,
    pub patch: u32,
}

// ---------------------------------------------------------------------
// Ordering
// ---------------------------------------------------------------------

/// `a` is strictly greater than `b` in the lexicographic order on
/// (major, minor, patch).
pub open spec fn version_newer(a: SemanticVersion, b: SemanticVersion) -> bool {
    ||| a.major > b.major
    ||| (a.major == b.major && a.minor > b.minor)
    ||| (a.major == b.major && a.minor == b.minor && a.patch > b.patch)
}

/// No version is newer than itself.
pub proof fn lemma_newer_irreflexive(v: SemanticVersion)
    ensures
        !version_newer(v, v),
{
}

/// Of two versions at most one is newer than the other.
pub proof fn lemma_newer_asymmetric(a: SemanticVersion, b: SemanticVersion)
    ensures
        version_newer(a, b) ==> !version_newer(b, a),
{
}

/// Being newer is transitive.
pub proof fn lemma_newer_transitive(a: SemanticVersion, b: SemanticVersion, c: SemanticVersion)
    requires
        version_newer(a, b),
        version_newer(b, c),
    ensures
        version_newer(a, c),
{
}

/// Two versions are equal or one of them is newer than the other.
pub proof fn lemma_newer_total(a: SemanticVersion, b: SemanticVersion)
    ensures
        a == b || version_newer(a, b) || version_newer(b, a),
{
}

/// An upgrade is safe exactly when it moves strictly forward: a replay of
/// the installed version and every downgrade are refused, and a chain of
/// safe upgrades never comes back to an earlier version.
pub proof fn lemma_safe_upgrade_monotonic(a: SemanticVersion, b: SemanticVersion, c: SemanticVersion)
    ensures
        !version_newer(a, a),
        version_newer(b, a) ==> !version_newer(a, b),
        version_newer(b, a) && version_newer(c, b) ==> version_newer(c, a) && c != a,
{
}

// ---------------------------------------------------------------------
// Decimal text
// ---------------------------------------------------------------------

pub open spec fn is_digit(c: char) -> bool {
    '0' <= c && c <= '9'
}

pub open spec fn digit_char(d: nat) -> char {
    (('0' as int) + d) as char
}

pub open spec fn digit_value(c: char) -> nat {
    ((c as int) - ('0' as int)) as nat
}

/// Decimal text of a natural number, without leading zeros.
pub open spec fn decimal_of(n: nat) -> Seq<char>
    decreases n,
{
    if n < 10 {
        seq![digit_char(n)]
    } else {
        decimal_of(n / 10).push(digit_char(n % 10))
    }
}

/// Value of a string of decimal digits.
pub open spec fn digits_value(d: Seq<char>) -> nat
    decreases d.len(),
{
    if d.len() == 0 {
        0
    } else {
        digits_value(d.drop_last()) * 10 + digit_value(d.last())
    }
}

pub open spec fn all_digits(d: Seq<char>) -> bool {
    forall|i: int| 0 <= i < d.len() ==> #[trigger] is_digit(d[i])
}

/// The digits that follow an optional leading `+`.
pub open spec fn unsigned_digits(s: Seq<char>) -> Seq<char> {
    if s.len() > 0 && s[0] == '+' {
        s.drop_first()
    } else {
        s
    }
}

/// How `str::parse::<u32>` reads a string: an optional `+`, then one or
/// more ASCII digits whose value fits in 32 bits.
pub open spec fn parse_u32_text(s: Seq<char>) -> Option<u32> {
    let d = unsigned_digits(s);
    if d.len() > 0 && all_digits(d) && digits_value(d) <= u32::MAX {
        Some(digits_value(d) as u32)
    } else {
        None
    }
}

/// The pieces of `s` between occurrences of `sep`, as `str::split` yields
/// them (empty pieces included).
pub open spec fn split_on(s: Seq<char>, sep: char) -> Seq<Seq<char>>
    decreases s.len(),
{
    if s.len() == 0 {
        seq![Seq::<char>::empty()]
    } else {
        let prev = split_on(s.drop_last(), sep);
        if s.last() == sep {
            prev.push(Seq::<char>::empty())
        } else {
            prev.update(prev.len() - 1, prev.last().push(s.last()))
        }
    }
}

pub proof fn lemma_split_nonempty(s: Seq<char>, sep: char)
    ensures
        split_on(s, sep).len() >= 1,
    decreases s.len(),
{
    if s.len() > 0 {
        lemma_split_nonempty(s.drop_last(), sep);
    }
}

/// Text of a version: `MAJOR.MINOR.PATCH`.
pub open spec fn version_text(v: SemanticVersion) -> Seq<char> {
    decimal_of(v.major as nat) + seq!['.'] + decimal_of(v.minor as nat) + seq!['.']
        + decimal_of(v.patch as nat)
}

/// The version a text denotes, if it is one.
pub open spec fn version_parse(s: Seq<char>) -> Option<SemanticVersion> {
    let parts = split_on(s, '.');
    if parts.len() == 3 && parse_u32_text(parts[0]) is Some && parse_u32_text(parts[1]) is Some
        && parse_u32_text(parts[2]) is Some {
        Some(
            SemanticVersion {
                major: parse_u32_text(parts[0])->0,
                minor: parse_u32_text(parts[1])->0,
                patch: parse_u32_text(parts[2])->0,
            },
        )
    } else {
        None
    }
}

/// The message `parse` gives for a text that is no version.
pub open spec fn version_parse_error(s: Seq<char>) -> Seq<char> {
    let parts = split_on(s, '.');
    if parts.len() != 3 {
        "Invalid version format: '"@ + s + "' (expected X.Y.Z)"@
    } else if parse_u32_text(parts[0]) is None {
        "Invalid major version: '"@ + parts[0] + "'"@
    } else if parse_u32_text(parts[1]) is None {
        "Invalid minor version: '"@ + parts[1] + "'"@
    } else {
        "Invalid patch version: '"@ + parts[2] + "'"@
    }
}

// ---------------------------------------------------------------------
// Lemmas about the text forms
// ---------------------------------------------------------------------

pub proof fn lemma_digit_char(k: nat)
    requires
        k < 10,
    ensures
        is_digit(digit_char(k)),
        digit_value(digit_char(k)) == k,
        digit_char(k) != '+',
        digit_char(k) != '.',
{
}

pub proof fn lemma_decimal_digits(n: nat)
    ensures
        decimal_of(n).len() >= 1,
        all_digits(decimal_of(n)),
        digits_value(decimal_of(n)) == n,
        decimal_of(n)[0] != '+',
        forall|i: int| 0 <= i < decimal_of(n).len() ==> decimal_of(n)[i] != '.',
    decreases n,
{
    lemma_digit_char(n % 10);
    if n >= 10 {
        lemma_decimal_digits(n / 10);
        let d = decimal_of(n);
        assert(d.drop_last() =~= decimal_of(n / 10));
        assert(d.last() == digit_char(n % 10));
        assert(digits_value(d) == digits_value(decimal_of(n / 10)) * 10 + digit_value(digit_char(n % 10)));
        assert((n / 10) * 10 + n % 10 == n);
        assert forall|i: int| 0 <= i < d.len() implies #[trigger] is_digit(d[i]) by {
            if i < d.len() - 1 {
                assert(d[i] == decimal_of(n / 10)[i]);
            }
        }
    } else {
        let d = decimal_of(n);
        assert(d.drop_last() =~= Seq::<char>::empty());
        assert(digits_value(d.drop_last()) == 0);
        assert(digits_value(d) == digit_value(digit_char(n)));
    }
}

pub proof fn lemma_parse_decimal(n: u32)
    ensures
        parse_u32_text(decimal_of(n as nat)) == Some(n),
{
    lemma_decimal_digits(n as nat);
}

/// Splitting `p` extended by a text without separators only extends the
/// last piece.
pub proof fn lemma_split_extend(p: Seq<char>, s: Seq<char>, sep: char)
    requires
        forall|i: int| 0 <= i < s.len() ==> s[i] != sep,
    ensures
        split_on(p + s, sep).len() == split_on(p, sep).len(),
        split_on(p + s, sep).drop_last() == split_on(p, sep).drop_last(),
        split_on(p + s, sep).last() == split_on(p, sep).last() + s,
    decreases s.len(),
{
    lemma_split_nonempty(p, sep);
    if s.len() == 0 {
        assert(p + s =~= p);
        assert(split_on(p, sep).last() + s =~= split_on(p, sep).last());
    } else {
        let s0 = s.drop_last();
        lemma_split_extend(p, s0, sep);
        lemma_split_nonempty(p + s0, sep);
        assert((p + s).drop_last() =~= p + s0);
        assert((p + s).last() == s.last());
        assert(split_on(p, sep).last() + s =~= (split_on(p, sep).last() + s0).push(s.last()));
        assert(split_on(p + s, sep).drop_last() =~= split_on(p + s0, sep).drop_last());
    }
}

pub proof fn lemma_split_sep(p: Seq<char>, sep: char)
    ensures
        split_on(p.push(sep), sep) == split_on(p, sep).push(Seq::<char>::empty()),
{
    assert(p.push(sep).drop_last() =~= p);
}

/// Reading the text of a version gives back that version.
pub proof fn lemma_version_text_roundtrip(v: SemanticVersion)
    ensures
        version_parse(version_text(v)) == Some(v),
{
    let a = decimal_of(v.major as nat);
    let b = decimal_of(v.minor as nat);
    let c = decimal_of(v.patch as nat);
    lemma_decimal_digits(v.major as nat);
    lemma_decimal_digits(v.minor as nat);
    lemma_decimal_digits(v.patch as nat);
    lemma_parse_decimal(v.major);
    lemma_parse_decimal(v.minor);
    lemma_parse_decimal(v.patch);
    let e = Seq::<char>::empty();
    lemma_split_extend(e, a, '.');
    assert(e + a =~= a);
    assert(split_on(e, '.') =~= seq![e]);
    let s1 = split_on(a, '.');
    assert(s1 =~= seq![a]) by {
        assert(s1.len() == 1);
        assert(s1.last() =~= e + a);
    }
    lemma_split_sep(a, '.');
    let a1 = a.push('.');
    lemma_split_extend(a1, b, '.');
    let s2 = split_on(a1 + b, '.');
    assert(s2 =~= seq![a, b]) by {
        assert(s2.len() == 2);
        assert(s2.drop_last() =~= seq![a]);
        assert(s2.last() =~= e + b);
        assert(s2[0] == s2.drop_last()[0]);
    }
    lemma_split_sep(a1 + b, '.');
    let ab1 = (a1 + b).push('.');
    lemma_split_extend(ab1, c, '.');
    let s3 = split_on(ab1 + c, '.');
    assert(s3 =~= seq![a, b, c]) by {
        assert(s3.len() == 3);
        assert(s3.drop_last() =~= seq![a, b]);
        assert(s3.last() =~= e + c);
        assert(s3[0] == s3.drop_last()[0]);
        assert(s3[1] == s3.drop_last()[1]);
    }
    assert(ab1 + c =~= version_text(v));
}

// ---------------------------------------------------------------------
// Executable parts
// ---------------------------------------------------------------------

/// Reads an unsigned 32-bit number the way `str::parse::<u32>` does.
pub fn parse_u32(s: &Vec<char>) -> (r: Option<u32>)
    ensures
        r == parse_u32_text(s@),
{
    let mut start: usize = 0;
    if s.len() > 0 && s[0] == '+' {
        start = 1;
    }
    let ghost d = unsigned_digits(s@);
    assert(d =~= s@.skip(start as int));
    if start >= s.len() {
        return None;
    }
    let mut value: u64 = 0;
    let mut i: usize = start;
    while i < s.len()
        invariant
            start <= i <= s.len(),
            d == unsigned_digits(s@),
            d =~= s@.skip(start as int),
            d.len() > 0,
            all_digits(s@.subrange(start as int, i as int)),
            value as nat == digits_value(s@.subrange(start as int, i as int)),
            value <= u32::MAX,
        decreases s.len() - i,
    {
        let c = s[i];
        assert(s@.subrange(start as int, i + 1).drop_last() =~= s@.subrange(start as int, i as int));
        if !('0' <= c && c <= '9') {
            proof {
                assert(d[i - start] == c);
                assert(!is_digit(d[i - start]));
            }
            return None;
        }
        let dv = (c as u32 - '0' as u32) as u64;
        value = value * 10 + dv;
        if value > 0xffff_ffffu64 {
            proof {
                lemma_digits_prefix_value(d, (i + 1 - start) as nat);
                assert(d.take(i + 1 - start) =~= s@.subrange(start as int, i + 1));
            }
            return None;
        }
        i = i + 1;
    }
    assert(s@.subrange(start as int, s.len() as int) =~= d);
    Some(value as u32)
}

/// A longer run of digits is worth at least as much as its prefix.
pub proof fn lemma_digits_prefix_value(d: Seq<char>, k: nat)
    requires
        k <= d.len(),
    ensures
        all_digits(d) ==> digits_value(d.take(k as int)) <= digits_value(d),
    decreases d.len() - k,
{
    if k < d.len() {
        lemma_digits_prefix_value(d, k + 1);
        assert(d.take(k + 1 as int).drop_last() =~= d.take(k as int));
    } else {
        assert(d.take(k as int) =~= d);
    }
}

/// Splits a character sequence at every occurrence of `sep`.
pub fn split_chars(s: &Vec<char>, sep: char) -> (parts: Vec<Vec<char>>)
    ensures
        parts@.len() == split_on(s@, sep).len(),
        forall|j: int| 0 <= j < parts@.len() ==> #[trigger] parts@[j]@ == split_on(s@, sep)[j],
{
    let mut parts: Vec<Vec<char>> = Vec::new();
    let mut cur: Vec<char> = Vec::new();
    let mut i: usize = 0;
    assert(s@.take(0) =~= Seq::<char>::empty());
    while i < s.len()
        invariant
            i <= s.len(),
            split_on(s@.take(i as int), sep).len() == parts@.len() + 1,
            forall|j: int|
                0 <= j < parts@.len() ==> #[trigger] parts@[j]@ == split_on(
                    s@.take(i as int),
                    sep,
                )[j],
            cur@ == split_on(s@.take(i as int), sep).last(),
        decreases s.len() - i,
    {
        let c = s[i];
        proof {
            lemma_split_nonempty(s@.take(i as int), sep);
            assert(s@.take(i + 1).drop_last() =~= s@.take(i as int));
            assert(s@.take(i + 1).last() == c);
        }
        if c == sep {
            parts.push(cur);
            cur = Vec::new();
        } else {
            cur.push(c);
        }
        i = i + 1;
    }
    assert(s@.take(s.len() as int) =~= s@);
    parts.push(cur);
    parts
}

fn message3(a: &str, b: &Vec<char>, c: &str) -> (r: String)
    ensures
        r@ == a@ + b@ + c@,
{
    let mut r = String::from_str(a);
    let mut i: usize = 0;
    while i < b.len()
        invariant
            i <= b.len(),
            r@ == a@ + b@.take(i as int),
        decreases b.len() - i,
    {
        r.push(b[i]);
        i = i + 1;
        assert(a@ + b@.take(i as int) =~= (a@ + b@.take(i - 1)).push(b@[i - 1]));
    }
    assert(b@.take(b.len() as int) =~= b@);
    r.append(c);
    r
}

/// Appends the decimal text of `n`.
pub fn push_decimal(s: &mut String, n: u32)
    ensures
        final(s)@ == old(s)@ + decimal_of(n as nat),
    decreases n,
{
    if n >= 10 {
        push_decimal(s, n / 10);
    }
    let d = (n % 10) as u8;
    let ch = (48u8 + d) as char;
    s.push(ch);
    proof {
        if n >= 10 {
            assert(old(s)@ + decimal_of(n as nat) =~= (old(s)@ + decimal_of((n / 10) as nat)).push(
                ch,
            ));
        } else {
            assert(old(s)@ + decimal_of(n as nat) =~= old(s)@.push(ch));
        }
    }
}

/// Appends the decimal text of a 64-bit number.
pub fn push_decimal_u64(s: &mut String, n: u64)
    ensures
        final(s)@ == old(s)@ + decimal_of(n as nat),
    decreases n,
{
    if n >= 10 {
        push_decimal_u64(s, n / 10);
    }
    let d = (n % 10) as u8;
    let ch = (48u8 + d) as char;
    s.push(ch);
    proof {
        if n >= 10 {
            assert(old(s)@ + decimal_of(n as nat) =~= (old(s)@ + decimal_of((n / 10) as nat)).push(
                ch,
            ));
        } else {
            assert(old(s)@ + decimal_of(n as nat) =~= old(s)@.push(ch));
        }
    }
}

impl SemanticVersion {
    pub fn new(major: u32, minor: u32, patch: u32) -> (r: Self)
        ensures
            r.major == major,
            r.minor == minor,
            r.patch == patch,
    {
        SemanticVersion { major, minor, patch }
    }

    /// Reads a version written `X.Y.Z`.
    pub fn parse(s: &str) -> (r: Result<Self, String>)
        ensures
            match r {
                Ok(v) => version_parse(s@) == Some(v),
                Err(e) => version_parse(s@) is None && e@ == version_parse_error(s@),
            },
    {
        let cs = chars_of(s);
        let parts = split_chars(&cs, '.');
        if parts.len() != 3 {
            return Err(message3("Invalid version format: '", &cs, "' (expected X.Y.Z)"));
        }
        let major = match parse_u32(&parts[0]) {
            Some(v) => v,
            None => {
                return Err(message3("Invalid major version: '", &parts[0], "'"));
            },
        };
        let minor = match parse_u32(&parts[1]) {
            Some(v) => v,
            None => {
                return Err(message3("Invalid minor version: '", &parts[1], "'"));
            },
        };
        let patch = match parse_u32(&parts[2]) {
            Some(v) => v,
            None => {
                return Err(message3("Invalid patch version: '", &parts[2], "'"));
            },
        };
        Ok(Self::new(major, minor, patch))
    }

    /// `self` is strictly newer than `other`; used to refuse downgrades.
    pub fn is_newer_than(&self, other: &Self) -> (r: bool)
        ensures
            r == version_newer(*self, *other),
    {
        self.major > other.major || (self.major == other.major && (self.minor > other.minor || (
        self.minor == other.minor && self.patch > other.patch)))
    }

    /// Moving from `from` to `to` is safe when `to` is strictly newer.
    pub fn is_safe_upgrade(from: &Self, to: &Self) -> (r: bool)
        ensures
            r == version_newer(*to, *from),
    {
        to.is_newer_than(from)
    }

    /// The text `MAJOR.MINOR.PATCH`.
    pub fn to_string(&self) -> (r: String)
        ensures
            r@ == version_text(*self),
    {
        let mut r = String::new();
        push_decimal(&mut r, self.major);
        r.push('.');
        push_decimal(&mut r, self.minor);
        r.push('.');
        push_decimal(&mut r, self.patch);
        r
    }
}

} // verus!
