//! The S3E search proving slice: its report, the decision drawn from the
//! deterministic fixture, and the loopback server's query decoding.
use vstd::prelude::*;

use crate::blob::hex_digit;
use crate::reference::hosted::hosted_only_text;
use crate::text::{chars_of, is_white_space, push_char, white_space};

verus! {

/// Report of the S3E search proving slice.
#[derive(Clone, Debug, PartialEq, Eq)]
pub struct S3EReport {
    pub topology: String,
    pub provider_a_resolved: bool,
    pub provider_b_resolved: bool,
    pub distinct_targets_produced: bool,
    pub resolve_alone_zero_origin_hits: bool,
    pub navigation_produced_origin_hit: bool,
    pub query_decoded_intact: bool,
    pub search_only_cannot_navigate: bool,
    pub navigation_only_cannot_search: bool,
    pub lifecycle_isolation_verified: bool,
    pub query_privacy_verified: bool,
    pub accepted: bool,
}

/// Runs the hosted S3E slice; only the hosted Windows runtime can.
pub fn run() -> (r: Result<S3EReport, String>)
    ensures
        r matches Err(m) && m@ == hosted_only_text("S3E"@),
{
    let mut m = String::from_str("S3E");
    m.append("-real requires the hosted Windows CEF runtime");
    Err(m)
}

/// The checks of the deterministic S3E fixture, in report order.
#[derive(Clone, Copy, Debug)]
pub struct S3EChecks {
    pub provider_a_resolved: bool,
    pub provider_b_resolved: bool,
    pub distinct_targets_produced: bool,
    pub resolve_alone_zero_origin_hits: bool,
    pub navigation_produced_origin_hit: bool,
    pub query_decoded_intact: bool,
    pub search_only_cannot_navigate: bool,
    pub navigation_only_cannot_search: bool,
    pub lifecycle_isolation_verified: bool,
    pub query_privacy_verified: bool,
}

/// Draws the S3E report: every check is carried over, and the slice is
/// accepted exactly when all pass.
pub fn reference_report(c: S3EChecks) -> (r: S3EReport)
    ensures
        r.topology@ == "reference"@,
        r.provider_a_resolved == c.provider_a_resolved,
        r.provider_b_resolved == c.provider_b_resolved,
        r.distinct_targets_produced == c.distinct_targets_produced,
        r.resolve_alone_zero_origin_hits == c.resolve_alone_zero_origin_hits,
        r.navigation_produced_origin_hit == c.navigation_produced_origin_hit,
        r.query_decoded_intact == c.query_decoded_intact,
        r.search_only_cannot_navigate == c.search_only_cannot_navigate,
        r.navigation_only_cannot_search == c.navigation_only_cannot_search,
        r.lifecycle_isolation_verified == c.lifecycle_isolation_verified,
        r.query_privacy_verified == c.query_privacy_verified,
        r.accepted == (c.provider_a_resolved && c.provider_b_resolved && c.distinct_targets_produced
            && c.resolve_alone_zero_origin_hits && c.navigation_produced_origin_hit
            && c.query_decoded_intact && c.search_only_cannot_navigate
            && c.navigation_only_cannot_search && c.lifecycle_isolation_verified
            && c.query_privacy_verified),
{
    S3EReport {
        topology: String::from_str("reference"),
        provider_a_resolved: c.provider_a_resolved,
        provider_b_resolved: c.provider_b_resolved,
        distinct_targets_produced: c.distinct_targets_produced,
        resolve_alone_zero_origin_hits: c.resolve_alone_zero_origin_hits,
        navigation_produced_origin_hit: c.navigation_produced_origin_hit,
        query_decoded_intact: c.query_decoded_intact,
        search_only_cannot_navigate: c.search_only_cannot_navigate,
        navigation_only_cannot_search: c.navigation_only_cannot_search,
        lifecycle_isolation_verified: c.lifecycle_isolation_verified,
        query_privacy_verified: c.query_privacy_verified,
        accepted: c.provider_a_resolved && c.provider_b_resolved && c.distinct_targets_produced
            && c.resolve_alone_zero_origin_hits && c.navigation_produced_origin_hit
            && c.query_decoded_intact && c.search_only_cannot_navigate
            && c.navigation_only_cannot_search && c.lifecycle_isolation_verified
            && c.query_privacy_verified,
    }
}


/// The text with every `+` read as a space.
pub open spec fn plus_as_space(s: Seq<char>) -> Seq<char> {
    s.map_values(|c: char| if c == '+' { ' ' } else { c })
}

/// The value of a hexadecimal digit, either case.
pub open spec fn hex_value(c: char) -> Option<u32> {
    if '0' <= c && c <= '9' {
        Some((c as u32 - '0' as u32) as u32)
    } else if 'a' <= c && c <= 'f' {
        Some((c as u32 - 'a' as u32 + 10) as u32)
    } else if 'A' <= c && c <= 'F' {
        Some((c as u32 - 'A' as u32 + 10) as u32)
    } else {
        None
    }
}

/// Percent-decoding as the loopback server does it: `%` and two hex digits
/// become the character of that byte value; a `%` followed by anything else
/// stays a `%`, and the two characters after it are dropped (all that is
/// left, when fewer remain).
pub open spec fn percent_decoded(s: Seq<char>) -> Seq<char>
    decreases s.len(),
{
    if s.len() == 0 {
        seq![]
    } else if s[0] == '%' {
        if s.len() >= 3 {
            let rest = percent_decoded(s.subrange(3, s.len() as int));
            match (hex_value(s[1]), hex_value(s[2])) {
                (Some(h), Some(l)) => seq![((h * 16 + l) as u32) as char] + rest,
                _ => seq!['%'] + rest,
            }
        } else {
            seq!['%']
        }
    } else {
        seq![s[0]] + percent_decoded(s.subrange(1, s.len() as int))
    }
}

/// The uppercase hexadecimal digit of `d` (below 16).
pub open spec fn upper_hex_digit(d: nat) -> char {
    if d < 10 {
        ('0' as u32 + d) as char
    } else {
        ('A' as u32 + (d - 10)) as char
    }
}

proof fn lemma_digit_values(d: nat)
    requires
        d < 16,
    ensures
        hex_value(hex_digit(d)) == Some(d as u32),
        hex_value(upper_hex_digit(d)) == Some(d as u32),
{
    if d < 10 {
        assert((('0' as u32 + d) as char) as u32 == '0' as u32 + d);
    } else {
        assert((('a' as u32 + (d - 10)) as char) as u32 == 'a' as u32 + (d - 10));
        assert((('A' as u32 + (d - 10)) as char) as u32 == 'A' as u32 + (d - 10));
    }
}

/// For every byte, a `%` followed by the two hexadecimal digits of that
/// byte, lowercase or uppercase, decodes to the character with that code,
/// and decoding goes on after the escape as before it.
pub proof fn law_percent_escape_decodes_byte(b: u8, rest: Seq<char>)
    ensures
        percent_decoded(seq!['%', hex_digit((b / 16) as nat), hex_digit((b % 16) as nat)] + rest)
            == seq![b as char] + percent_decoded(rest),
        percent_decoded(
            seq!['%', upper_hex_digit((b / 16) as nat), upper_hex_digit((b % 16) as nat)] + rest,
        ) == seq![b as char] + percent_decoded(rest),
{
    let hi: nat = (b / 16) as nat;
    let lo: nat = (b % 16) as nat;
    lemma_digit_values(hi);
    lemma_digit_values(lo);
    assert(hi * 16 + lo == b as int);
    let s1 = seq!['%', hex_digit(hi), hex_digit(lo)] + rest;
    let s2 = seq!['%', upper_hex_digit(hi), upper_hex_digit(lo)] + rest;
    assert(s1.subrange(3, s1.len() as int) =~= rest);
    assert(s2.subrange(3, s2.len() as int) =~= rest);
    assert(s1[0] == '%' && s1[1] == hex_digit(hi) && s1[2] == hex_digit(lo));
    assert(s2[0] == '%' && s2[1] == upper_hex_digit(hi) && s2[2] == upper_hex_digit(lo));
    assert(((hi as u32 * 16 + lo as u32) as u32) as char == b as char);
}

fn hex_digit_value(c: char) -> (v: Option<u32>)
    ensures
        v == hex_value(c),
{
    if '0' <= c && c <= '9' {
        Some(c as u32 - '0' as u32)
    } else if 'a' <= c && c <= 'f' {
        Some(c as u32 - 'a' as u32 + 10)
    } else if 'A' <= c && c <= 'F' {
        Some(c as u32 - 'A' as u32 + 10)
    } else {
        None
    }
}

fn byte_char(h: u32, l: u32) -> (c: char)
    requires
        h < 16,
        l < 16,
    ensures
        c == ((h * 16 + l) as u32) as char,
{
    let byte: u8 = (h * 16 + l) as u8;
    byte as char
}

/// Decodes a query value: `+` is a space, then `%XY` escapes are decoded.
pub fn urlencoding_decode(input: &str) -> (out: String)
    ensures
        out@ == percent_decoded(plus_as_space(input@)),
{
    let raw = chars_of(input);
    let mut t: Vec<char> = Vec::new();
    let mut j: usize = 0;
    while j < raw.len()
        invariant
            raw@ == input@,
            j <= raw@.len(),
            t@ == plus_as_space(raw@.subrange(0, j as int)),
        decreases raw.len() - j,
    {
        let c = raw[j];
        t.push(if c == '+' { ' ' } else { c });
        j += 1;
        assert(t@ =~= plus_as_space(raw@.subrange(0, j as int)));
    }
    assert(raw@.subrange(0, raw@.len() as int) =~= raw@);
    let ghost whole = t@;
    let mut out = String::new();
    let mut i: usize = 0;
    assert(whole.subrange(0, whole.len() as int) =~= whole);
    assert(out@ + whole =~= whole);
    while i < t.len()
        invariant
            t@ == whole,
            whole == plus_as_space(input@),
            i <= t@.len(),
            out@ + percent_decoded(whole.subrange(i as int, whole.len() as int)) == percent_decoded(
                whole,
            ),
        decreases t.len() - i,
    {
        let ghost rest = whole.subrange(i as int, whole.len() as int);
        let c = t[i];
        if c == '%' {
            if t.len() - i > 2 {
                assert(rest.subrange(3, rest.len() as int) =~= whole.subrange(i + 3, whole.len() as int));
                let h = hex_digit_value(t[i + 1]);
                let l = hex_digit_value(t[i + 2]);
                match (h, l) {
                    (Some(h), Some(l)) => {
                        let d = byte_char(h, l);
                        push_char(&mut out, d);
                    },
                    _ => {
                        push_char(&mut out, '%');
                    },
                }
                i += 3;
                assert(out@ + percent_decoded(whole.subrange(i as int, whole.len() as int)) =~= percent_decoded(whole));
            } else {
                push_char(&mut out, '%');
                assert(out@ =~= percent_decoded(whole));
                return out;
            }
        } else {
            assert(rest.subrange(1, rest.len() as int) =~= whole.subrange(i + 1, whole.len() as int));
            push_char(&mut out, c);
            i += 1;
            assert(out@ + percent_decoded(whole.subrange(i as int, whole.len() as int)) =~= percent_decoded(whole));
        }
    }
    assert(whole.subrange(i as int, whole.len() as int) =~= Seq::<char>::empty());
    assert(out@ =~= percent_decoded(whole));
    out
}

/// The first index at or after `i` that holds `c`, or the length when there
/// is none.
pub open spec fn find_from(s: Seq<char>, c: char, i: int) -> int
    decreases s.len() - i,
{
    if i < 0 || i >= s.len() {
        s.len() as int
    } else if s[i] == c {
        i
    } else {
        find_from(s, c, i + 1)
    }
}

/// Where the run, from `i`, of characters that are white space (`ws`) or
/// not (`!ws`) ends.
pub open spec fn run_end(s: Seq<char>, i: int, ws: bool) -> int
    decreases s.len() - i,
{
    if 0 <= i < s.len() && white_space(s[i]) == ws {
        run_end(s, i + 1, ws)
    } else {
        i
    }
}

/// `find_from` lands between where it starts and the end.
pub proof fn lemma_find_from(s: Seq<char>, c: char, i: int)
    requires
        0 <= i <= s.len(),
    ensures
        i <= find_from(s, c, i) <= s.len(),
    decreases s.len() - i,
{
    if i < s.len() && s[i] != c {
        lemma_find_from(s, c, i + 1);
    }
}

/// The later of two answers, where there is one.
pub open spec fn later_or<A>(later: Option<A>, earlier: Option<A>) -> Option<A> {
    if later is Some {
        later
    } else {
        earlier
    }
}

/// What one `key=value` pair of a query string says of the search term: the
/// decoded value when the key is `q` or `term`. The value ends at the next
/// `=`; a pair without `=` has an empty value.
pub open spec fn pair_term(pair: Seq<char>) -> Option<Seq<char>> {
    let e = find_from(pair, '=', 0);
    let key = pair.subrange(0, e);
    let value = if e < pair.len() {
        pair.subrange(e + 1, find_from(pair, '=', e + 1))
    } else {
        Seq::<char>::empty()
    };
    if key == seq!['q'] || key == seq!['t', 'e', 'r', 'm'] {
        Some(percent_decoded(plus_as_space(value)))
    } else {
        None
    }
}

/// The search term of the `&`-separated pairs of `qs` from position `pos`
/// on: that of the last pair that names one.
pub open spec fn last_term(qs: Seq<char>, pos: int) -> Option<Seq<char>>
    decreases qs.len() - pos,
{
    if pos < 0 || pos > qs.len() {
        None
    } else {
        let amp = find_from(qs, '&', pos);
        let here = pair_term(qs.subrange(pos, amp));
        if amp >= qs.len() {
            here
        } else {
            proof {
                lemma_find_from(qs, '&', pos);
            }
            later_or(last_term(qs, amp + 1), here)
        }
    }
}

/// The search term a loopback request carries: the request target is the
/// second white-space-separated word of the first line; its query, after
/// the first `?`, names the term with `q` or `term`, the last such pair
/// winning.
pub open spec fn request_search_term(request: Seq<char>) -> Option<Seq<char>> {
    let line = request.subrange(0, find_from(request, '\n', 0));
    let a = run_end(line, 0, true);
    let b = run_end(line, a, false);
    let c = run_end(line, b, true);
    let d = run_end(line, c, false);
    if c >= d {
        None
    } else {
        let target = line.subrange(c, d);
        let q = find_from(target, '?', 0);
        if q >= target.len() {
            None
        } else {
            last_term(target.subrange(q + 1, target.len() as int), 0)
        }
    }
}

/// The text of an optional string.
pub open spec fn text_view(o: Option<String>) -> Option<Seq<char>> {
    match o {
        Some(t) => Some(t@),
        None => None,
    }
}

fn find_char(s: &Vec<char>, c: char, from: usize) -> (r: usize)
    requires
        from <= s.len(),
    ensures
        r == find_from(s@, c, from as int),
        from <= r <= s.len(),
{
    let mut i = from;
    while i < s.len() && s[i] != c
        invariant
            from <= i <= s.len(),
            find_from(s@, c, from as int) == find_from(s@, c, i as int),
        decreases s.len() - i,
    {
        i += 1;
    }
    i
}

fn skip_run(s: &Vec<char>, from: usize, ws: bool) -> (r: usize)
    requires
        from <= s.len(),
    ensures
        r == run_end(s@, from as int, ws),
        from <= r <= s.len(),
{
    let mut i = from;
    while i < s.len() && is_white_space(s[i]) == ws
        invariant
            from <= i <= s.len(),
            run_end(s@, from as int, ws) == run_end(s@, i as int, ws),
        decreases s.len() - i,
    {
        i += 1;
    }
    i
}

fn chars_between(s: &Vec<char>, from: usize, to: usize) -> (r: Vec<char>)
    requires
        from <= to <= s.len(),
    ensures
        r@ == s@.subrange(from as int, to as int),
{
    let mut r: Vec<char> = Vec::new();
    let mut i = from;
    while i < to
        invariant
            from <= i <= to <= s.len(),
            r@ == s@.subrange(from as int, i as int),
        decreases to - i,
    {
        r.push(s[i]);
        i += 1;
        assert(r@ =~= s@.subrange(from as int, i as int));
    }
    r
}

fn text_of(s: &Vec<char>) -> (t: String)
    ensures
        t@ == s@,
{
    let mut t = String::new();
    let mut i: usize = 0;
    while i < s.len()
        invariant
            i <= s.len(),
            t@ == s@.subrange(0, i as int),
        decreases s.len() - i,
    {
        push_char(&mut t, s[i]);
        i += 1;
        assert(t@ =~= s@.subrange(0, i as int));
    }
    assert(t@ =~= s@);
    t
}

fn pair_search_term(pair: &Vec<char>) -> (r: Option<String>)
    ensures
        text_view(r) == pair_term(pair@),
{
    let e = find_char(pair, '=', 0);
    let ghost key = pair@.subrange(0, e as int);
    let is_q = e == 1 && pair[0] == 'q';
    let is_term = e == 4 && pair[0] == 't' && pair[1] == 'e' && pair[2] == 'r' && pair[3] == 'm';
    proof {
        if is_q {
            assert(key =~= seq!['q']);
        }
        if is_term {
            assert(key =~= seq!['t', 'e', 'r', 'm']);
        }
        if key == seq!['q'] {
            assert(key.len() == 1 && key[0] == 'q');
            assert(pair@[0] == key[0]);
        }
        if key == seq!['t', 'e', 'r', 'm'] {
            assert(key.len() == 4 && key[0] == 't' && key[1] == 'e' && key[2] == 'r' && key[3] == 'm');
            assert(pair@[0] == key[0] && pair@[1] == key[1] && pair@[2] == key[2] && pair@[3] == key[3]);
        }
    }
    if !is_q && !is_term {
        return None;
    }
    let value = if e < pair.len() {
        let f = find_char(pair, '=', e + 1);
        chars_between(pair, e + 1, f)
    } else {
        Vec::new()
    };
    proof {
        if e >= pair.len() {
            assert(value@ =~= Seq::<char>::empty());
        }
    }
    let text = text_of(&value);
    Some(urlencoding_decode(text.as_str()))
}

fn last_search_term(qs: &Vec<char>) -> (r: Option<String>)
    ensures
        text_view(r) == last_term(qs@, 0),
{
    let mut found: Option<String> = None;
    let mut pos: usize = 0;
    loop
        invariant
            pos <= qs.len(),
            last_term(qs@, 0) == later_or(last_term(qs@, pos as int), text_view(found)),
        decreases qs.len() - pos,
    {
        let amp = find_char(qs, '&', pos);
        let pair = chars_between(qs, pos, amp);
        let here = pair_search_term(&pair);
        let ghost here_view = text_view(here);
        if here.is_some() {
            found = here;
        }
        assert(text_view(found) == later_or(here_view, text_view(found)) || here_view is Some);
        if amp >= qs.len() {
            return found;
        }
        pos = amp + 1;
    }
}

/// The search term a loopback request carries, decoded: see
/// [`request_search_term`]. `None` when the request names none.
pub fn search_query(request: &str) -> (r: Option<String>)
    ensures
        text_view(r) == request_search_term(request@),
{
    let all = chars_of(request);
    let nl = find_char(&all, '\n', 0);
    let line = chars_between(&all, 0, nl);
    let a = skip_run(&line, 0, true);
    let b = skip_run(&line, a, false);
    let c = skip_run(&line, b, true);
    let d = skip_run(&line, c, false);
    if c >= d {
        return None;
    }
    let target = chars_between(&line, c, d);
    let q = find_char(&target, '?', 0);
    if q >= target.len() {
        return None;
    }
    let qs = chars_between(&target, q + 1, target.len());
    last_search_term(&qs)
}

} // verus!
