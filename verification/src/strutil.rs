//! Small verified string helpers: equality, prefix tests, substring search
//! and character-level access, all specified over `Seq<char>` views.

use vstd::prelude::*;
use vstd::string::StrSliceExecFns;
use vstd::string::StringExecFns;

verus! {

/// Appends one character to a string.
///
/// Relies on `String::push`: appends the character to the end of the string.
#[verifier::external_body]
pub(crate) fn push_char(s: &mut String, c: char)
    ensures
        final(s)@ == old(s)@.push(c),
{
    s.push(c);
}

/// True iff the two strings hold the same characters.
pub fn str_eq(a: &str, b: &str) -> (r: bool)
    ensures
        r == (a@ == b@),
{
    let na = a.unicode_len();
    let nb = b.unicode_len();
    if na != nb {
        proof {
            assert(a@.len() != b@.len());
        }
        return false;
    }
    let mut i: usize = 0;
    while i < na
        invariant
            i <= na,
            na == a@.len(),
            na == b@.len(),
            forall|j: int| 0 <= j < i ==> a@[j] == b@[j],
        decreases na - i,
    {
        if a.get_char(i) != b.get_char(i) {
            return false;
        }
        i += 1;
    }
    proof {
        assert(a@ =~= b@);
    }
    true
}

/// True iff `p` is a prefix of `s`.
pub open spec fn is_prefix_of(p: Seq<char>, s: Seq<char>) -> bool {
    p.len() <= s.len() && s.subrange(0, p.len() as int) == p
}

/// True iff the string starts with the given prefix.
pub fn starts_with(s: &str, p: &str) -> (r: bool)
    ensures
        r == is_prefix_of(p@, s@),
{
    let ns = s.unicode_len();
    let np = p.unicode_len();
    if np > ns {
        return false;
    }
    let mut i: usize = 0;
    while i < np
        invariant
            i <= np,
            np == p@.len(),
            ns == s@.len(),
            np <= ns,
            forall|j: int| 0 <= j < i ==> s@[j] == p@[j],
        decreases np - i,
    {
        if s.get_char(i) != p.get_char(i) {
            proof {
                assert(s@.subrange(0, np as int)[i as int] != p@[i as int]);
            }
            return false;
        }
        i += 1;
    }
    proof {
        assert(s@.subrange(0, np as int) =~= p@);
    }
    true
}

/// True iff `pat` occurs in `s` at position `at`.
pub open spec fn occurs_at(s: Seq<char>, pat: Seq<char>, at: int) -> bool {
    0 <= at && at + pat.len() <= s.len() && s.subrange(at, at + pat.len()) == pat
}

/// True iff `pat` occurs somewhere in `s`.
pub open spec fn contains_seq(s: Seq<char>, pat: Seq<char>) -> bool {
    exists|at: int| occurs_at(s, pat, at)
}

/// Whether `pat` occurs in `s` at position `at` (executable form).
fn occurs_at_exec(s: &str, pat: &str, at: usize) -> (r: bool)
    requires
        at + pat@.len() <= s@.len(),
        s@.len() <= usize::MAX,
    ensures
        r == occurs_at(s@, pat@, at as int),
{
    let np = pat.unicode_len();
    let mut i: usize = 0;
    while i < np
        invariant
            i <= np,
            np == pat@.len(),
            at + np <= s@.len(),
            s@.len() <= usize::MAX,
            forall|j: int| 0 <= j < i ==> s@[at + j] == pat@[j],
        decreases np - i,
    {
        if s.get_char(at + i) != pat.get_char(i) {
            proof {
                assert(s@.subrange(at as int, at + np)[i as int] != pat@[i as int]);
            }
            return false;
        }
        i += 1;
    }
    proof {
        assert(s@.subrange(at as int, at + np) =~= pat@);
    }
    true
}

/// The position of the first occurrence of `pat` in `s`, if any.
pub fn find_sub(s: &str, pat: &str) -> (r: Option<usize>)
    ensures
        match r {
            Some(at) => occurs_at(s@, pat@, at as int) && forall|j: int|
                0 <= j < at ==> !occurs_at(s@, pat@, j),
            None => !contains_seq(s@, pat@),
        },
{
    let ns = s.unicode_len();
    let np = pat.unicode_len();
    if np > ns {
        proof {
            assert(forall|at: int| !occurs_at(s@, pat@, at));
        }
        return None;
    }
    if np == 0 {
        proof {
            assert(s@.subrange(0, 0) =~= pat@);
        }
        return Some(0);
    }
    let mut i: usize = 0;
    while i <= ns - np
        invariant
            i as int <= ns as int - np as int + 1,
            1 <= np <= ns,
            ns == s@.len(),
            np == pat@.len(),
            forall|j: int| 0 <= j < i ==> !occurs_at(s@, pat@, j),
        decreases ns as int - np as int - i as int + 1,
    {
        if occurs_at_exec(s, pat, i) {
            return Some(i);
        }
        i += 1;
    }
    proof {
        assert(forall|at: int| at + pat@.len() > s@.len() ==> !occurs_at(s@, pat@, at));
    }
    None
}

/// True iff the string contains the given pattern.
pub fn contains_str(s: &str, pat: &str) -> (r: bool)
    ensures
        r == contains_seq(s@, pat@),
{
    match find_sub(s, pat) {
        Some(_) => true,
        None => false,
    }
}

/// The index of the first occurrence of `c` in `s`, or -1 if `c` does not
/// occur.
pub open spec fn first_index_of(s: Seq<char>, c: char) -> int
    decreases s.len(),
{
    if s.len() == 0 {
        -1
    } else if s[0] == c {
        0
    } else {
        let r = first_index_of(s.drop_first(), c);
        if r == -1 {
            -1
        } else {
            r + 1
        }
    }
}

/// If no `c` stands before position `k` and (unless `k` is the length) `c`
/// stands at `k`, then `k` is the first occurrence (or there is none).
pub proof fn lemma_first_index_of_from(s: Seq<char>, c: char, k: int)
    requires
        0 <= k <= s.len(),
        forall|j: int| 0 <= j < k ==> s[j] != c,
        k < s.len() ==> s[k] == c,
    ensures
        k < s.len() ==> first_index_of(s, c) == k,
        k == s.len() ==> first_index_of(s, c) == -1,
    decreases s.len(),
{
    if s.len() > 0 {
        if k == 0 {
            if s.len() == 0 {
            } else {
                assert(s[0] == c);
            }
        } else {
            assert(s[0] != c);
            assert(forall|j: int|
                0 <= j < s.drop_first().len() ==> s.drop_first()[j] == s[j + 1]);
            lemma_first_index_of_from(s.drop_first(), c, k - 1);
        }
    }
}

/// The segments of `s` between occurrences of the separator `c`; empty
/// segments are kept, so the result always holds at least one segment and
/// joining it back with `c` gives `s`.
pub open spec fn split_char_spec(s: Seq<char>, c: char) -> Seq<Seq<char>>
    decreases s.len(),
{
    let i = first_index_of(s, c);
    if i == -1 {
        seq![s]
    } else if 0 <= i < s.len() {
        seq![s.subrange(0, i)] + split_char_spec(s.subrange(i + 1, s.len() as int), c)
    } else {
        seq![s]
    }
}

/// The segments joined back with the separator.
pub open spec fn join_with(parts: Seq<Seq<char>>, c: char) -> Seq<char>
    decreases parts.len(),
{
    if parts.len() == 0 {
        Seq::empty()
    } else if parts.len() == 1 {
        parts[0]
    } else {
        parts[0] + seq![c] + join_with(parts.drop_first(), c)
    }
}

pub proof fn lemma_join_push(parts: Seq<Seq<char>>, c: char, p: Seq<char>)
    requires
        parts.len() >= 1,
    ensures
        join_with(parts.push(p), c) == join_with(parts, c) + seq![c] + p,
    decreases parts.len(),
{
    if parts.len() == 1 {
        assert(parts.push(p).drop_first() =~= seq![p]);
        assert(parts.push(p).len() == 2);
        assert(parts.push(p)[0] == parts[0]);
        assert(join_with(seq![p], c) == p);
        assert(join_with(parts.push(p), c) == parts.push(p)[0] + seq![c] + join_with(
            parts.push(p).drop_first(),
            c,
        ));
        assert(join_with(parts.push(p), c) =~= parts[0] + seq![c] + p);
    } else {
        assert(parts.push(p).drop_first() =~= parts.drop_first().push(p));
        lemma_join_push(parts.drop_first(), c, p);
        assert(join_with(parts.push(p), c) =~= join_with(parts, c) + seq![c] + p);
    }
}

/// Splits a string on every occurrence of a separator character, keeping
/// empty segments, starting at position `from`.
pub fn split_char_from(s: &str, from: usize, c: char) -> (r: Vec<String>)
    requires
        from <= s@.len(),
    ensures
        r@.map_values(|x: String| x@) == split_char_spec(
            s@.subrange(from as int, s@.len() as int),
            c,
        ),
        r@.len() >= 1,
    decreases s@.len() - from,
{
    let ghost suffix = s@.subrange(from as int, s@.len() as int);
    let n = s.unicode_len();
    let mut e = from;
    while e < n && s.get_char(e) != c
        invariant
            from <= e <= n,
            n == s@.len(),
            forall|j: int| from <= j < e ==> s@[j] != c,
        decreases n - e,
    {
        e += 1;
    }
    proof {
        assert(forall|j: int| 0 <= j < e - from ==> suffix[j] != c);
        if e < n {
            assert(suffix[e - from] == c);
        }
        lemma_first_index_of_from(suffix, c, e - from);
    }
    if e >= n {
        let seg = substring_of(s, from, n);
        let mut r: Vec<String> = Vec::new();
        r.push(seg);
        proof {
            assert(r@.map_values(|x: String| x@) =~= seq![suffix]);
        }
        r
    } else {
        let seg = substring_of(s, from, e);
        let mut rest = split_char_from(s, e + 1, c);
        rest.insert(0, seg);
        proof {
            let f = |x: String| x@;
            let tail = s@.subrange(e + 1, s@.len() as int);
            assert(tail =~= suffix.subrange(e - from + 1, suffix.len() as int));
            assert(seg@ =~= suffix.subrange(0, e - from));
            assert(rest@.map_values(f) =~= seq![seg@] + split_char_spec(tail, c));
            assert(split_char_spec(suffix, c) == seq![suffix.subrange(0, e - from)]
                + split_char_spec(suffix.subrange(e - from + 1, suffix.len() as int), c));
            assert(split_char_spec(suffix.subrange(e - from + 1, suffix.len() as int), c)
                == split_char_spec(tail, c));
        }
        rest
    }
}

/// Splits a whole string on a separator character.
pub fn split_char(s: &str, c: char) -> (r: Vec<String>)
    ensures
        r@.map_values(|x: String| x@) == split_char_spec(s@, c),
        r@.len() >= 1,
{
    let r = split_char_from(s, 0, c);
    proof {
        assert(s@.subrange(0, s@.len() as int) =~= s@);
    }
    r
}

/// Joins segments with a separator character.
pub fn join_char(parts: &Vec<String>, c: char) -> (r: String)
    ensures
        r@ == join_with(parts@.map_values(|x: String| x@), c),
{
    let ghost f = |x: String| x@;
    let mut r = String::new();
    if parts.len() == 0 {
        return r;
    }
    r = clone_string(&parts[0]);
    let mut i: usize = 1;
    while i < parts.len()
        invariant
            1 <= i <= parts@.len(),
            r@ == join_with(parts@.map_values(|x: String| x@).subrange(0, i as int), c),
        decreases parts@.len() - i,
    {
        let ghost prefix = parts@.map_values(|x: String| x@).subrange(0, i as int);
        push_char(&mut r, c);
        let mut j: usize = 0;
        let part = &parts[i];
        let plen = part.as_str().unicode_len();
        while j < plen
            invariant
                j <= plen,
                plen == part@.len(),
                part@ == parts@.map_values(|x: String| x@)[i as int],
                i < parts@.len(),
                prefix == parts@.map_values(|x: String| x@).subrange(0, i as int),
                r@ == join_with(prefix, c) + seq![c] + part@.subrange(0, j as int),
            decreases plen - j,
        {
            push_char(&mut r, part.as_str().get_char(j));
            proof {
                assert(part@.subrange(0, j + 1 as int) =~= part@.subrange(0, j as int).push(
                    part@[j as int],
                ));
                assert(r@ =~= join_with(prefix, c) + seq![c] + part@.subrange(0, j + 1 as int));
            }
            j += 1;
        }
        proof {
            let all = parts@.map_values(|x: String| x@);
            assert(part@.subrange(0, plen as int) =~= all[i as int]);
            assert(prefix.len() >= 1);
            lemma_join_push(prefix, c, all[i as int]);
            assert(all.subrange(0, i + 1 as int) =~= prefix.push(all[i as int]));
        }
        i += 1;
    }
    proof {
        assert(parts@.map_values(|x: String| x@).subrange(0, parts@.len() as int)
            =~= parts@.map_values(|x: String| x@));
    }
    r
}

/// Copies a string.
pub fn clone_string(s: &String) -> (r: String)
    ensures
        r@ == s@,
{
    String::from_str(s.as_str())
}

/// The substring of `s` from `from` (inclusive) to `to` (exclusive),
/// as an owned string.
pub fn substring_of(s: &str, from: usize, to: usize) -> (r: String)
    requires
        from <= to <= s@.len(),
    ensures
        r@ == s@.subrange(from as int, to as int),
{
    String::from_str(s.substring_char(from, to))
}


/// The decimal digits of a natural number, most significant first.
pub open spec fn dec_digits(n: int) -> Seq<char>
    decreases n,
{
    if n < 0 {
        Seq::empty()
    } else if n < 10 {
        seq![digit_char(n)]
    } else {
        dec_digits(n / 10).push(digit_char(n % 10))
    }
}

/// The character for one decimal digit.
pub open spec fn digit_char(d: int) -> char {
    if d == 0 {
        '0'
    } else if d == 1 {
        '1'
    } else if d == 2 {
        '2'
    } else if d == 3 {
        '3'
    } else if d == 4 {
        '4'
    } else if d == 5 {
        '5'
    } else if d == 6 {
        '6'
    } else if d == 7 {
        '7'
    } else if d == 8 {
        '8'
    } else {
        '9'
    }
}

/// The decimal text of an integer: a minus sign for negatives, then digits.
pub open spec fn dec_of(n: int) -> Seq<char> {
    if n < 0 {
        seq!['-'] + dec_digits(-n)
    } else {
        dec_digits(n)
    }
}

fn digit_exec(d: u64) -> (r: char)
    requires
        d < 10,
    ensures
        r == digit_char(d as int),
{
    if d == 0 {
        '0'
    } else if d == 1 {
        '1'
    } else if d == 2 {
        '2'
    } else if d == 3 {
        '3'
    } else if d == 4 {
        '4'
    } else if d == 5 {
        '5'
    } else if d == 6 {
        '6'
    } else if d == 7 {
        '7'
    } else if d == 8 {
        '8'
    } else {
        '9'
    }
}

/// Formats a natural number in decimal.
pub fn u64_to_string(n: u64) -> (r: String)
    ensures
        r@ == dec_digits(n as int),
    decreases n,
{
    if n < 10 {
        let mut r = String::new();
        push_char(&mut r, digit_exec(n));
        proof {
            assert(r@ =~= seq![digit_char(n as int)]);
        }
        r
    } else {
        let mut r = u64_to_string(n / 10);
        push_char(&mut r, digit_exec(n % 10));
        r
    }
}

/// Formats a signed integer in decimal.
pub fn i64_to_string(n: i64) -> (r: String)
    ensures
        r@ == dec_of(n as int),
{
    if n < 0 {
        let mut r = String::new();
        push_char(&mut r, '-');
        let mag: u64 = if n == i64::MIN {
            9223372036854775808u64
        } else {
            (-n) as u64
        };
        let digits = u64_to_string(mag);
        r.append(digits.as_str());
        proof {
            assert(r@ =~= seq!['-'] + dec_digits(mag as int));
        }
        r
    } else {
        u64_to_string(n as u64)
    }
}


/// An ASCII whitespace character, as the trimming here understands it.
pub open spec fn is_wschar(c: char) -> bool {
    c == ' ' || c == '\t' || c == '\n' || c == '\r'
}

/// The string without leading whitespace.
pub open spec fn trim_start_spec(s: Seq<char>) -> Seq<char>
    decreases s.len(),
{
    if s.len() > 0 && is_wschar(s[0]) {
        trim_start_spec(s.drop_first())
    } else {
        s
    }
}

/// The string without trailing whitespace.
pub open spec fn trim_end_spec(s: Seq<char>) -> Seq<char>
    decreases s.len(),
{
    if s.len() > 0 && is_wschar(s.last()) {
        trim_end_spec(s.drop_last())
    } else {
        s
    }
}

/// The string without leading and trailing whitespace.
pub open spec fn trim_spec(s: Seq<char>) -> Seq<char> {
    trim_end_spec(trim_start_spec(s))
}

proof fn lemma_trim_start(s: Seq<char>, a: int)
    requires
        0 <= a <= s.len(),
        forall|j: int| 0 <= j < a ==> is_wschar(s[j]),
        a < s.len() ==> !is_wschar(s[a]),
    ensures
        trim_start_spec(s) == s.subrange(a, s.len() as int),
    decreases a,
{
    if a == 0 {
        assert(s.subrange(0, s.len() as int) =~= s);
    } else {
        let t = s.drop_first();
        assert(forall|j: int| 0 <= j < t.len() ==> t[j] == s[j + 1]);
        lemma_trim_start(t, a - 1);
        assert(t.subrange(a - 1, t.len() as int) =~= s.subrange(a, s.len() as int));
    }
}

proof fn lemma_trim_end(s: Seq<char>, b: int)
    requires
        0 <= b <= s.len(),
        forall|j: int| b <= j < s.len() ==> is_wschar(s[j]),
        b > 0 ==> !is_wschar(s[b - 1]),
    ensures
        trim_end_spec(s) == s.subrange(0, b),
    decreases s.len(),
{
    if b == s.len() {
        if s.len() > 0 {
            assert(!is_wschar(s.last()));
        }
        assert(s.subrange(0, s.len() as int) =~= s);
    } else {
        assert(is_wschar(s.last()));
        let t = s.drop_last();
        assert(forall|j: int| 0 <= j < t.len() ==> t[j] == s[j]);
        lemma_trim_end(t, b);
        assert(t.subrange(0, b) =~= s.subrange(0, b));
    }
}

/// Removes leading and trailing ASCII whitespace.
pub fn trim(s: &str) -> (r: String)
    ensures
        r@ == trim_spec(s@),
{
    let n = s.unicode_len();
    let mut a: usize = 0;
    while a < n && is_ws_exec(s.get_char(a))
        invariant
            a <= n,
            n == s@.len(),
            forall|j: int| 0 <= j < a ==> is_wschar(s@[j]),
        decreases n - a,
    {
        a += 1;
    }
    proof {
        lemma_trim_start(s@, a as int);
    }
    let ghost t = s@.subrange(a as int, s@.len() as int);
    let mut b: usize = n;
    while b > a && is_ws_exec(s.get_char(b - 1))
        invariant
            a <= b <= n,
            n == s@.len(),
            forall|j: int| b <= j < n ==> is_wschar(s@[j]),
        decreases b,
    {
        b -= 1;
    }
    proof {
        assert(forall|j: int| 0 <= j < t.len() ==> t[j] == s@[a + j]);
        lemma_trim_end(t, b - a);
        assert(t.subrange(0, b - a) =~= s@.subrange(a as int, b as int));
    }
    substring_of(s, a, b)
}

/// Whether a character is ASCII whitespace.
pub fn is_ws_exec(c: char) -> (r: bool)
    ensures
        r == is_wschar(c),
{
    c == ' ' || c == '\t' || c == '\n' || c == '\r'
}


/// The end of the run of non-whitespace characters starting at `p`.
pub open spec fn token_end_from(s: Seq<char>, p: int) -> int
    decreases s.len() - p,
{
    if p < 0 || p >= s.len() {
        p
    } else if is_wschar(s[p]) {
        p
    } else {
        token_end_from(s, p + 1)
    }
}

pub proof fn lemma_token_end_from_bounds(s: Seq<char>, p: int)
    requires
        0 <= p <= s.len(),
    ensures
        p <= token_end_from(s, p) <= s.len(),
        p < s.len() && !is_wschar(s[p]) ==> p + 1 <= token_end_from(s, p),
    decreases s.len() - p,
{
    if p < s.len() && !is_wschar(s[p]) {
        lemma_token_end_from_bounds(s, p + 1);
    }
}

/// The scan that stops at the first whitespace finds the token end.
pub proof fn lemma_token_end_from_scan(s: Seq<char>, p: int, e: int)
    requires
        0 <= p <= e <= s.len(),
        forall|j: int| p <= j < e ==> !is_wschar(s[j]),
        e < s.len() ==> is_wschar(s[e]),
    ensures
        token_end_from(s, p) == e,
    decreases e - p,
{
    if p < e {
        lemma_token_end_from_scan(s, p + 1, e);
    }
}

/// The whitespace-separated tokens of `s` from position `p` on: maximal
/// runs of non-whitespace characters, in order.
pub open spec fn ws_tokens_from(s: Seq<char>, p: int) -> Seq<Seq<char>>
    decreases s.len() - p,
    via ws_tokens_from_decreases
{
    if p < 0 || p >= s.len() {
        Seq::empty()
    } else if is_wschar(s[p]) {
        ws_tokens_from(s, p + 1)
    } else {
        seq![s.subrange(p, token_end_from(s, p))] + ws_tokens_from(s, token_end_from(s, p))
    }
}

#[via_fn]
proof fn ws_tokens_from_decreases(s: Seq<char>, p: int) {
    if 0 <= p < s.len() && !is_wschar(s[p]) {
        lemma_token_end_from_bounds(s, p);
    }
}

/// The whitespace-separated tokens of a whole string.
pub open spec fn ws_tokens(s: Seq<char>) -> Seq<Seq<char>> {
    ws_tokens_from(s, 0)
}

/// Splits a string into its whitespace-separated tokens.
pub fn ws_split(s: &str) -> (r: Vec<String>)
    ensures
        r@.map_values(|x: String| x@) == ws_tokens(s@),
{
    let n = s.unicode_len();
    let mut r: Vec<String> = Vec::new();
    let mut i: usize = 0;
    while i < n
        invariant
            i <= n,
            n == s@.len(),
            r@.map_values(|x: String| x@) + ws_tokens_from(s@, i as int) == ws_tokens_from(s@, 0),
        decreases n - i,
    {
        if is_ws_exec(s.get_char(i)) {
            i += 1;
        } else {
            let mut e = i + 1;
            while e < n && !is_ws_exec(s.get_char(e))
                invariant
                    i < e <= n,
                    n == s@.len(),
                    forall|j: int| i <= j < e ==> !is_wschar(s@[j]),
                decreases n - e,
            {
                e += 1;
            }
            proof {
                lemma_token_end_from_scan(s@, i as int, e as int);
            }
            let ghost before = r@.map_values(|x: String| x@);
            r.push(substring_of(s, i, e));
            proof {
                assert(r@.map_values(|x: String| x@) =~= before.push(
                    s@.subrange(i as int, e as int),
                ));
                assert(before.push(s@.subrange(i as int, e as int)) + ws_tokens_from(s@, e as int)
                    =~= before + ws_tokens_from(s@, i as int));
            }
            i = e;
        }
    }
    proof {
        assert(r@.map_values(|x: String| x@) + ws_tokens_from(s@, n as int) =~= r@.map_values(
            |x: String| x@,
        ));
    }
    r
}

} // verus!
