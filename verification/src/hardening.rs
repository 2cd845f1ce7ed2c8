//! Self-protection of the desktop clients: debugger detection from the
//! process status text, suspicious environment variables, the integrity
//! of the client's own executable against the hash the update server
//! publishes, and the reports built from them.

use vstd::prelude::*;
use crate::backend::{sha3_256_digest, lowercase_of, to_lowercase};
use crate::crypto::compute_sha3_256_hex;
use crate::hex::{hex_of, constant_time_eq_str};
use crate::text::{chars_of, copy_string, push_text, texts, is_white_space};
use crate::version::{all_digits, digits_value, is_digit, split_on, split_chars, lemma_digits_prefix_value};

verus! {

// ---------------------------------------------------------------------
// Reading the process status
// ---------------------------------------------------------------------

/// `s` without its leading whitespace.
pub open spec fn drop_ws(s: Seq<char>) -> Seq<char>
    decreases s.len(),
{
    if s.len() > 0 && is_white_space(s[0]) {
        drop_ws(s.drop_first())
    } else {
        s
    }
}

/// The length of the run of non-whitespace characters `s` starts with.
pub open spec fn token_end(s: Seq<char>) -> nat
    decreases s.len(),
{
    if s.len() > 0 && !is_white_space(s[0]) {
        1 + token_end(s.drop_first())
    } else {
        0
    }
}

/// The second whitespace-separated word of a line
/// (`split_whitespace().nth(1)`).
pub open spec fn second_token(line: Seq<char>) -> Option<Seq<char>> {
    let a = drop_ws(line);
    let b = drop_ws(a.skip(token_end(a) as int));
    if a.len() == 0 || b.len() == 0 {
        None
    } else {
        Some(b.take(token_end(b) as int))
    }
}

/// How `str::parse::<i32>` reads a word: an optional sign, then one or
/// more ASCII digits whose value fits in 32 signed bits.
pub open spec fn parse_i32_text(s: Seq<char>) -> Option<int> {
    let neg = s.len() > 0 && s[0] == '-';
    let d = if s.len() > 0 && (s[0] == '+' || s[0] == '-') {
        s.drop_first()
    } else {
        s
    };
    if d.len() > 0 && all_digits(d) && digits_value(d) <= (if neg {
        0x8000_0000nat
    } else {
        0x7fff_ffffnat
    }) {
        Some(
            if neg {
                -(digits_value(d) as int)
            } else {
                digits_value(d) as int
            },
        )
    } else {
        None
    }
}

/// The line reports a tracer: it starts with `TracerPid:` and its second
/// word reads as a non-zero number.
pub open spec fn reports_tracer(line: Seq<char>) -> bool {
    &&& line.len() >= 10
    &&& line.take(10) == "TracerPid:"@
    &&& second_token(line) matches Some(t) && parse_i32_text(t) matches Some(v) && v != 0
}

/// The line names a tracer: it starts with `TracerPid:` and its second
/// word is not `0`.
pub open spec fn names_tracer(line: Seq<char>) -> bool {
    &&& line.len() >= 10
    &&& line.take(10) == "TracerPid:"@
    &&& second_token(line) matches Some(t) && t != "0"@
}

proof fn lemma_drop_ws(s: Seq<char>)
    ensures
        drop_ws(s).len() <= s.len(),
        exists|k: int| 0 <= k <= s.len() && drop_ws(s) == s.skip(k),
    decreases s.len(),
{
    if s.len() > 0 && is_white_space(s[0]) {
        lemma_drop_ws(s.drop_first());
        let k = choose|k: int| 0 <= k <= s.drop_first().len() && drop_ws(s.drop_first()) == s.drop_first().skip(k);
        assert(s.drop_first().skip(k) =~= s.skip(k + 1));
    } else {
        assert(s.skip(0) =~= s);
    }
}

pub(crate) fn skip_ws(cs: &Vec<char>, from: usize) -> (r: usize)
    requires
        from <= cs@.len(),
    ensures
        from <= r <= cs@.len(),
        cs@.skip(r as int) == drop_ws(cs@.skip(from as int)),
{
    let mut i = from;
    while i < cs.len() && is_ws(cs[i])
        invariant
            from <= i <= cs@.len(),
            drop_ws(cs@.skip(i as int)) == drop_ws(cs@.skip(from as int)),
        decreases cs.len() - i,
    {
        assert(cs@.skip(i as int).drop_first() =~= cs@.skip(i + 1));
        i = i + 1;
    }
    if i == cs.len() {
        assert(cs@.skip(i as int).len() == 0);
    }
    i
}

fn skip_token(cs: &Vec<char>, from: usize) -> (r: usize)
    requires
        from <= cs@.len(),
    ensures
        from <= r <= cs@.len(),
        r - from == token_end(cs@.skip(from as int)),
{
    let mut i = from;
    while i < cs.len() && !is_ws(cs[i])
        invariant
            from <= i <= cs@.len(),
            token_end(cs@.skip(from as int)) == (i - from) + token_end(cs@.skip(i as int)),
        decreases cs.len() - i,
    {
        assert(cs@.skip(i as int).drop_first() =~= cs@.skip(i + 1));
        i = i + 1;
    }
    i
}

pub(crate) fn is_ws(c: char) -> (r: bool)
    ensures
        r == is_white_space(c),
{
    c == '\t' || c == '\n' || c == '\u{0B}' || c == '\u{0C}' || c == '\r' || c == ' ' || c == '\u{85}'
        || c == '\u{A0}' || c == '\u{1680}' || ('\u{2000}' <= c && c <= '\u{200A}') || c == '\u{2028}'
        || c == '\u{2029}' || c == '\u{202F}' || c == '\u{205F}' || c == '\u{3000}'
}

/// The second word of a line, as `split_whitespace().nth(1)` gives it.
pub fn second_word(line: &Vec<char>) -> (r: Option<Vec<char>>)
    ensures
        match r {
            Some(t) => second_token(line@) == Some(t@),
            None => second_token(line@) is None,
        },
{
    assert(line@.skip(0) =~= line@);
    let a = skip_ws(line, 0);
    let e = skip_token(line, a);
    assert(line@.skip(a as int).skip(token_end(line@.skip(a as int)) as int) =~= line@.skip(e as int));
    let b = skip_ws(line, e);
    if a == line.len() || b == line.len() {
        return None;
    }
    let f = skip_token(line, b);
    let mut t: Vec<char> = Vec::new();
    let mut i = b;
    while i < f
        invariant
            b <= i <= f <= line@.len(),
            t@ == line@.subrange(b as int, i as int),
        decreases f - i,
    {
        t.push(line[i]);
        i = i + 1;
        assert(t@ =~= line@.subrange(b as int, i as int));
    }
    assert(line@.skip(b as int).take(token_end(line@.skip(b as int)) as int) =~= line@.subrange(
        b as int,
        f as int,
    ));
    Some(t)
}

/// Reads a word as `str::parse::<i32>` does.
pub fn parse_i32(s: &Vec<char>) -> (r: Option<i32>)
    ensures
        match r {
            Some(v) => parse_i32_text(s@) == Some(v as int),
            None => parse_i32_text(s@) is None,
        },
{
    let neg = s.len() > 0 && s[0] == '-';
    let mut start: usize = 0;
    if s.len() > 0 && (s[0] == '+' || s[0] == '-') {
        start = 1;
    }
    let ghost d = if s@.len() > 0 && (s@[0] == '+' || s@[0] == '-') {
        s@.drop_first()
    } else {
        s@
    };
    assert(d =~= s@.skip(start as int));
    if start >= s.len() {
        return None;
    }
    let limit: u64 = if neg {
        0x8000_0000
    } else {
        0x7fff_ffff
    };
    let mut value: u64 = 0;
    let mut i: usize = start;
    while i < s.len()
        invariant
            start <= i <= s.len(),
            d =~= s@.skip(start as int),
            d.len() > 0,
            all_digits(s@.subrange(start as int, i as int)),
            value as nat == digits_value(s@.subrange(start as int, i as int)),
            value <= limit,
            limit == (if neg { 0x8000_0000u64 } else { 0x7fff_ffffu64 }),
            neg == (s@.len() > 0 && s@[0] == '-'),
            d == (if s@.len() > 0 && (s@[0] == '+' || s@[0] == '-') { s@.drop_first() } else { s@ }),
        decreases s.len() - i,
    {
        let c = s[i];
        assert(s@.subrange(start as int, i + 1).drop_last() =~= s@.subrange(start as int, i as int));
        if !('0' <= c && c <= '9') {
            proof {
                assert(d[i - start] == c);
                assert(!is_digit(d[i - start]));
            }
            return None;
        }
        let dv = (c as u32 - '0' as u32) as u64;
        value = value * 10 + dv;
        if value > limit {
            proof {
                lemma_digits_prefix_value(d, (i + 1 - start) as nat);
                assert(d.take(i + 1 - start) =~= s@.subrange(start as int, i + 1));
            }
            return None;
        }
        i = i + 1;
    }
    assert(s@.subrange(start as int, s.len() as int) =~= d);
    if neg {
        Some((0 - (value as i64)) as i32)
    } else {
        Some(value as i32)
    }
}

fn tracer_prefix(line: &Vec<char>) -> (r: bool)
    ensures
        r == (line@.len() >= 10 && line@.take(10) == "TracerPid:"@),
{
    proof {
        reveal_strlit("TracerPid:");
    }
    let p = chars_of("TracerPid:");
    if line.len() < 10 {
        return false;
    }
    let mut i: usize = 0;
    while i < 10
        invariant
            i <= 10 <= line@.len(),
            p@ == "TracerPid:"@,
            p@.len() == 10,
            forall|j: int| 0 <= j < i ==> line@[j] == p@[j],
        decreases 10 - i,
    {
        if line[i] != p[i] {
            assert(line@.take(10)[i as int] != p@[i as int]);
            return false;
        }
        i = i + 1;
    }
    assert(line@.take(10) =~= p@);
    true
}

/// Whether the process status text (of `/proc/self/status`; `None` when
/// it could not be read) shows a tracer: some line starts with
/// `TracerPid:` and its second word reads as a non-zero number.
pub fn check_debugger(status: Option<&str>) -> (r: bool)
    ensures
        r == match status {
            None => false,
            Some(s) => exists|i: int|
                0 <= i < split_on(s@, '\n').len() && reports_tracer(#[trigger] split_on(s@, '\n')[i]),
        },
{
    match status {
        None => false,
        Some(s) => any_line_reports_tracer(s),
    }
}

fn any_line_reports_tracer(s: &str) -> (r: bool)
    ensures
        r == exists|i: int|
            0 <= i < split_on(s@, '\n').len() && reports_tracer(#[trigger] split_on(s@, '\n')[i]),
{
    let cs = chars_of(s);
    let lines = split_chars(&cs, '\n');
    let mut i: usize = 0;
    while i < lines.len()
        invariant
            i <= lines@.len(),
            cs@ == s@,
            lines@.len() == split_on(s@, '\n').len(),
            forall|j: int| 0 <= j < lines@.len() ==> #[trigger] lines@[j]@ == split_on(s@, '\n')[j],
            forall|j: int| 0 <= j < i ==> !reports_tracer(#[trigger] split_on(s@, '\n')[j]),
        decreases lines.len() - i,
    {
        let line = &lines[i];
        assert(line@ == split_on(s@, '\n')[i as int]);
        if tracer_prefix(line) {
            match second_word(line) {
                Some(t) => match parse_i32(&t) {
                    Some(v) => {
                        if v != 0 {
                            assert(reports_tracer(split_on(s@, '\n')[i as int]));
                            assert(exists|j: int|
                                0 <= j < split_on(s@, '\n').len() && reports_tracer(
                                    #[trigger] split_on(s@, '\n')[j],
                                ));
                            return true;
                        }
                    },
                    None => {},
                },
                None => {},
            }
        }
        i = i + 1;
    }
    false
}

/// Whether the process status text shows a tracer, as the update client
/// reads it: some line starts with `TracerPid:` and its second word is
/// not `0`.
pub fn detect_debugger(status: Option<&str>) -> (r: bool)
    ensures
        r == match status {
            None => false,
            Some(s) => exists|i: int|
                0 <= i < split_on(s@, '\n').len() && names_tracer(#[trigger] split_on(s@, '\n')[i]),
        },
{
    match status {
        None => false,
        Some(s) => any_line_names_tracer(s),
    }
}

fn any_line_names_tracer(s: &str) -> (r: bool)
    ensures
        r == exists|i: int|
            0 <= i < split_on(s@, '\n').len() && names_tracer(#[trigger] split_on(s@, '\n')[i]),
{
    let cs = chars_of(s);
    let lines = split_chars(&cs, '\n');
    let zero = chars_of("0");
    proof {
        reveal_strlit("0");
    }
    let mut i: usize = 0;
    while i < lines.len()
        invariant
            i <= lines@.len(),
            cs@ == s@,
            zero@ == "0"@,
            zero@.len() == 1,
            zero@[0] == '0',
            lines@.len() == split_on(s@, '\n').len(),
            forall|j: int| 0 <= j < lines@.len() ==> #[trigger] lines@[j]@ == split_on(s@, '\n')[j],
            forall|j: int| 0 <= j < i ==> !names_tracer(#[trigger] split_on(s@, '\n')[j]),
        decreases lines.len() - i,
    {
        let line = &lines[i];
        assert(line@ == split_on(s@, '\n')[i as int]);
        if tracer_prefix(line) {
            match second_word(line) {
                Some(t) => {
                    let is_zero = t.len() == 1 && t[0] == '0';
                    if is_zero {
                        assert(t@ =~= zero@);
                    } else {
                        assert(t@ != zero@);
                        assert(names_tracer(split_on(s@, '\n')[i as int]));
                        assert(exists|j: int|
                            0 <= j < split_on(s@, '\n').len() && names_tracer(
                                #[trigger] split_on(s@, '\n')[j],
                            ));
                        return true;
                    }
                },
                None => {},
            }
        }
        i = i + 1;
    }
    false
}

// ---------------------------------------------------------------------
// Environment
// ---------------------------------------------------------------------

/// The environment variables that let code be injected into the client.
pub open spec fn suspicious_names() -> Seq<Seq<char>> {
    seq!["LD_PRELOAD"@, "DYLD_INSERT_LIBRARIES"@, "_JAVA_OPTIONS"@]
}

/// The names of the suspicious environment variables, in the order in
/// which they are checked.
pub fn suspicious_variables() -> (r: Vec<String>)
    ensures
        texts(r@) == suspicious_names(),
{
    let mut r: Vec<String> = Vec::new();
    push_text(&mut r, String::from_str("LD_PRELOAD"));
    push_text(&mut r, String::from_str("DYLD_INSERT_LIBRARIES"));
    push_text(&mut r, String::from_str("_JAVA_OPTIONS"));
    assert(texts(r@) =~= suspicious_names());
    r
}

/// The warnings for the suspicious variables that are set, in order.
pub open spec fn environment_warnings(set: Seq<bool>, n: int) -> Seq<Seq<char>>
    decreases n,
{
    if n <= 0 {
        Seq::<Seq<char>>::empty()
    } else {
        environment_warnings(set, n - 1) + if set[n - 1] {
            seq!["Suspicious environment variable set: "@ + suspicious_names()[n - 1]]
        } else {
            Seq::<Seq<char>>::empty()
        }
    }
}

/// One warning per suspicious variable that is set; `is_set[i]` tells
/// whether the `i`-th of `suspicious_variables()` is set.
pub fn check_environment(is_set: &Vec<bool>) -> (r: Vec<String>)
    requires
        is_set@.len() == 3,
    ensures
        texts(r@) == environment_warnings(is_set@, 3),
{
    let names = suspicious_variables();
    assert(texts(names@).len() == names@.len());
    let mut warnings: Vec<String> = Vec::new();
    let mut i: usize = 0;
    while i < 3
        invariant
            i <= 3,
            is_set@.len() == 3,
            texts(names@) == suspicious_names(),
            names@.len() == 3,
            texts(warnings@) == environment_warnings(is_set@, i as int),
        decreases 3 - i,
    {
        if is_set[i] {
            let mut m = String::from_str("Suspicious environment variable set: ");
            m.append(names[i].as_str());
            assert(names@[i as int]@ == texts(names@)[i as int]);
            push_text(&mut warnings, m);
        }
        i = i + 1;
    }
    warnings
}

// ---------------------------------------------------------------------
// Executable integrity
// ---------------------------------------------------------------------

/// What the update server's integrity endpoint answered.
#[derive(Clone, Debug)]
pub enum IntegrityReply {
    /// The endpoint could not be reached.
    Unreachable,
    /// It answered with this unsuccessful HTTP status.
    HttpStatus(u16),
    /// Its body was not JSON.
    InvalidJson,
    /// Its JSON body: whether hashes are `available` (false when missing
    /// or not a boolean) and the `sha3_256` text registered for this
    /// platform (`None` when missing or not a string).
    Body { available: bool, platform_hash: Option<String> },
}

/// The text of a failed integrity check.
pub open spec fn integrity_failure_text() -> Seq<char> {
    "Binary integrity check failed: executable does not match server-side hash. This binary may have been tampered with."@
}

/// The hash the server expects, lower-cased; empty when none is
/// registered or hashes are not available.
pub open spec fn expected_hash(reply: IntegrityReply) -> Seq<char> {
    match reply {
        IntegrityReply::Body { available: true, platform_hash: Some(h) } => lowercase_of(h@),
        _ => ""@,
    }
}

/// What the integrity check gives: `Err` with the text of the failure, or
/// `Ok` when the executable matches, or the server publishes no hash.
pub open spec fn integrity_outcome(executable: Result<Seq<u8>, Seq<char>>, reply: IntegrityReply) -> Result<
    (),
    Seq<char>,
> {
    match executable {
        Err(t) => Err(t),
        Ok(d) => {
            let expected = expected_hash(reply);
            if expected.len() == 0 || hex_of(sha3_256_digest(d)) == expected {
                Ok(())
            } else {
                Err(integrity_failure_text())
            }
        },
    }
}

pub open spec fn exe_view(e: Result<Vec<u8>, String>) -> Result<Seq<u8>, Seq<char>> {
    match e {
        Ok(d) => Ok(d@),
        Err(t) => Err(t@),
    }
}

pub open spec fn unit_view(e: Result<(), String>) -> Result<(), Seq<char>> {
    match e {
        Ok(()) => Ok(()),
        Err(t) => Err(t@),
    }
}

/// Checks the client's own executable (its contents, or the error reading
/// it gave) against the hash the update server publishes for this
/// platform. An unreachable or unhelpful server does not fail the check.
pub fn perform_self_integrity_check_with_server(
    executable: &Result<Vec<u8>, String>,
    reply: &IntegrityReply,
) -> (r: Result<(), String>)
    ensures
        unit_view(r) == integrity_outcome(exe_view(*executable), *reply),
{
    proof {
        reveal_strlit("");
    }
    let data = match executable {
        Ok(d) => d,
        Err(t) => return Err(copy_string(t)),
    };
    let actual = compute_sha3_256_hex(data.as_slice());
    let expected = match reply {
        IntegrityReply::Body { available, platform_hash } => {
            if !*available {
                return Ok(());
            }
            match platform_hash {
                Some(h) => to_lowercase(h.as_str()),
                None => return Ok(()),
            }
        },
        _ => return Ok(()),
    };
    let e = chars_of(expected.as_str());
    if e.len() == 0 {
        return Ok(());
    }
    if !constant_time_eq_str(actual.as_str(), expected.as_str()) {
        return Err(
            String::from_str(
                "Binary integrity check failed: executable does not match server-side hash. This binary may have been tampered with.",
            ),
        );
    }
    Ok(())
}

/// The check without a server: it only needs the executable to be
/// readable.
pub fn perform_self_integrity_check(executable: &Result<Vec<u8>, String>) -> (r: Result<(), String>)
    ensures
        match *executable {
            Ok(_) => r is Ok,
            Err(t) => r matches Err(e) && e@ == t@,
        },
{
    match executable {
        Ok(_) => Ok(()),
        Err(t) => Err(copy_string(t)),
    }
}

/// The outcome of the hardening checks.
#[derive(Clone, Debug)]
pub struct HardeningReport {
    pub debugger_detected: bool,
    pub environment_warnings: Vec<String>,
    pub self_integrity_ok: bool,
    pub overall_safe: bool,
}

/// All hardening checks, the executable's integrity checked against the
/// server: safe when no debugger is seen and the integrity check passes.
pub fn full_hardening_check_with_server(
    process_status: Option<&str>,
    is_set: &Vec<bool>,
    executable: &Result<Vec<u8>, String>,
    reply: &IntegrityReply,
) -> (r: HardeningReport)
    requires
        is_set@.len() == 3,
    ensures
        r.debugger_detected == match process_status {
            None => false,
            Some(s) => exists|i: int|
                0 <= i < split_on(s@, '\n').len() && reports_tracer(#[trigger] split_on(s@, '\n')[i]),
        },
        texts(r.environment_warnings@) == environment_warnings(is_set@, 3),
        r.self_integrity_ok == integrity_outcome(exe_view(*executable), *reply) is Ok,
        r.overall_safe == (!r.debugger_detected && r.self_integrity_ok),
{
    let debugger_detected = check_debugger(process_status);
    let environment_warnings = check_environment(is_set);
    let self_integrity_ok = perform_self_integrity_check_with_server(executable, reply).is_ok();
    HardeningReport {
        debugger_detected,
        environment_warnings,
        self_integrity_ok,
        overall_safe: !debugger_detected && self_integrity_ok,
    }
}

/// All hardening checks without a server.
pub fn full_hardening_check(
    process_status: Option<&str>,
    is_set: &Vec<bool>,
    executable: &Result<Vec<u8>, String>,
) -> (r: HardeningReport)
    requires
        is_set@.len() == 3,
    ensures
        r.debugger_detected == match process_status {
            None => false,
            Some(s) => exists|i: int|
                0 <= i < split_on(s@, '\n').len() && reports_tracer(#[trigger] split_on(s@, '\n')[i]),
        },
        texts(r.environment_warnings@) == environment_warnings(is_set@, 3),
        r.self_integrity_ok == executable is Ok,
        r.overall_safe == (!r.debugger_detected && r.self_integrity_ok),
{
    let debugger_detected = check_debugger(process_status);
    let environment_warnings = check_environment(is_set);
    let self_integrity_ok = perform_self_integrity_check(executable).is_ok();
    HardeningReport {
        debugger_detected,
        environment_warnings,
        self_integrity_ok,
        overall_safe: !debugger_detected && self_integrity_ok,
    }
}

} // verus!
