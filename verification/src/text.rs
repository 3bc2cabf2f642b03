//! Character-level helpers shared by the library: string comparison,
//! decimal rendering and parsing.
use vstd::prelude::*;

verus! {

/// The ASCII character of a decimal digit.
pub open spec fn digit_char(d: nat) -> char {
    ((d + 48) as u8) as char
}

/// The decimal digits of a natural number, most significant first, with no
/// leading zeros ("0" for zero).
pub open spec fn dec_nat(n: nat) -> Seq<char>
    decreases n,
{
    if n < 10 {
        seq![digit_char(n)]
    } else {
        dec_nat(n / 10).push(digit_char(n % 10))
    }
}

/// Decimal rendering of an integer: a minus sign before negative values.
pub open spec fn dec_int(i: int) -> Seq<char> {
    if i < 0 {
        seq!['-'] + dec_nat((-i) as nat)
    } else {
        dec_nat(i as nat)
    }
}

/// Appends one character to a string (std's `String::push`).
#[verifier::external_body]
pub fn push_char(s: &mut String, c: char)
    ensures
        final(s)@ == old(s)@.push(c),
{
    s.push(c);
}

/// Whether two strings hold the same characters.
pub fn str_eq(a: &str, b: &str) -> (r: bool)
    ensures
        r == (a@ == b@),
{
    let n = a.unicode_len();
    if n != b.unicode_len() {
        return false;
    }
    let mut i: usize = 0;
    while i < n
        invariant
            n == a@.len(),
            n == b@.len(),
            i <= n,
            forall|j: int| 0 <= j < i ==> a@[j] == b@[j],
        decreases n - i,
    {
        if a.get_char(i) != b.get_char(i) {
            return false;
        }
        i = i + 1;
    }
    assert(a@ =~= b@);
    true
}

/// The characters of a string, in order.
pub fn chars_of(s: &str) -> (v: Vec<char>)
    ensures
        v@ == s@,
{
    let n = s.unicode_len();
    let mut v: Vec<char> = Vec::new();
    let mut i: usize = 0;
    while i < n
        invariant
            n == s@.len(),
            i <= n,
            v@ == s@.subrange(0, i as int),
        decreases n - i,
    {
        v.push(s.get_char(i));
        i = i + 1;
        assert(v@ =~= s@.subrange(0, i as int));
    }
    assert(v@ =~= s@);
    v
}

/// Appends a run of characters to a string.
pub fn push_chars(out: &mut String, cs: &[char], from: usize, to: usize)
    requires
        from <= to <= cs@.len(),
    ensures
        final(out)@ == old(out)@ + cs@.subrange(from as int, to as int),
{
    let mut i: usize = from;
    while i < to
        invariant
            from <= i <= to,
            to <= cs@.len(),
            out@ == old(out)@ + cs@.subrange(from as int, i as int),
        decreases to - i,
    {
        push_char(out, cs[i]);
        i = i + 1;
        assert(out@ =~= old(out)@ + cs@.subrange(from as int, i as int));
    }
}

/// A string holding the given characters.
pub fn string_of(cs: &[char]) -> (r: String)
    ensures
        r@ == cs@,
{
    let mut r = String::new();
    push_chars(&mut r, cs, 0, cs.len());
    assert(cs@.subrange(0, cs@.len() as int) =~= cs@);
    r
}

/// Renders `n` in decimal.
pub fn format_u64(n: u64) -> (r: String)
    ensures
        r@ == dec_nat(n as nat),
{
    let mut digits: Vec<char> = Vec::new();
    let mut m: u64 = n;
    loop
        invariant_except_break
            dec_nat(n as nat) == dec_nat(m as nat) + digits@.reverse(),
        ensures
            dec_nat(n as nat) == digits@.reverse(),
        decreases m,
    {
        let ghost old_digits = digits@;
        let d: u64 = m % 10;
        let c: char = ((d as u8) + 48) as char;
        assert(c == digit_char(d as nat));
        digits.push(c);
        assert(digits@.reverse() =~= seq![c] + old_digits.reverse());
        if m < 10 {
            assert(dec_nat(m as nat) == seq![c]);
            break;
        }
        assert(dec_nat(m as nat) == dec_nat((m / 10) as nat).push(c));
        m = m / 10;
    }
    let mut out = String::new();
    let mut i: usize = digits.len();
    while i > 0
        invariant
            i <= digits.len(),
            out@ == digits@.reverse().subrange(0, digits.len() - i),
        decreases i,
    {
        i = i - 1;
        push_char(&mut out, digits[i]);
        assert(out@ =~= digits@.reverse().subrange(0, digits.len() - i));
    }
    assert(out@ =~= digits@.reverse());
    out
}

/// Renders `n` in decimal, with a leading minus sign when negative.
pub fn format_i64(n: i64) -> (r: String)
    ensures
        r@ == dec_int(n as int),
{
    if n < 0 {
        let mag: u64 = if n == i64::MIN {
            9223372036854775808u64
        } else {
            (-n) as u64
        };
        let mut r = String::new();
        push_char(&mut r, '-');
        let digits = format_u64(mag);
        r.append(digits.as_str());
        r
    } else {
        format_u64(n as u64)
    }
}


/// Every occurrence of `pat` in `s` replaced by `rep`, scanning left to
/// right without overlaps (as std's `str::replace` does). An empty pattern
/// leaves the text unchanged here; the library never uses one.
pub open spec fn replace_all(s: Seq<char>, pat: Seq<char>, rep: Seq<char>) -> Seq<char>
    decreases s.len(),
{
    if pat.len() == 0 || s.len() < pat.len() {
        s
    } else if s.take(pat.len() as int) == pat {
        rep + replace_all(s.skip(pat.len() as int), pat, rep)
    } else {
        seq![s[0]] + replace_all(s.drop_first(), pat, rep)
    }
}

/// Whether `pat` occurs in `s` at position `i`.
fn matches_at(s: &[char], i: usize, pat: &[char]) -> (r: bool)
    requires
        i + pat@.len() <= s@.len(),
    ensures
        r == (s@.subrange(i as int, i + pat@.len()) == pat@),
{
    let mut k: usize = 0;
    while k < pat.len()
        invariant
            k <= pat@.len(),
            i + pat@.len() <= s@.len(),
            s@.len() == s.len(),
            forall|j: int| 0 <= j < k ==> s@[i + j] == pat@[j],
        decreases pat.len() - k,
    {
        if s[i + k] != pat[k] {
            assert(s@.subrange(i as int, i + pat@.len())[k as int] != pat@[k as int]);
            return false;
        }
        k = k + 1;
    }
    assert(s@.subrange(i as int, i + pat@.len()) =~= pat@);
    true
}

/// `s` with every occurrence of `pat` replaced by `rep`.
pub fn replace_str(s: &str, pat: &str, rep: &str) -> (r: String)
    requires
        pat@.len() > 0,
    ensures
        r@ == replace_all(s@, pat@, rep@),
{
    let cs = chars_of(s);
    let ps = chars_of(pat);
    let n = cs.len();
    let plen = ps.len();
    let mut out = String::new();
    let mut i: usize = 0;
    assert(cs@.skip(0) =~= cs@);
    while i < n
        invariant
            n == cs@.len(),
            plen == ps@.len(),
            plen > 0,
            cs@ == s@,
            ps@ == pat@,
            i <= n,
            out@ + replace_all(cs@.skip(i as int), ps@, rep@) == replace_all(s@, pat@, rep@),
        decreases n - i,
    {
        let ghost t = cs@.skip(i as int);
        let ghost old_out = out@;
        if plen <= n - i && matches_at(&cs, i, &ps) {
            assert(t.take(plen as int) =~= cs@.subrange(i as int, i + plen));
            assert(t.skip(plen as int) =~= cs@.skip(i + plen));
            assert(replace_all(t, ps@, rep@) == rep@ + replace_all(t.skip(plen as int), ps@, rep@));
            out.append(rep);
            i = i + plen;
            assert(out@ + replace_all(cs@.skip(i as int), ps@, rep@) =~= old_out + replace_all(t, ps@, rep@));
        } else {
            if plen <= n - i {
                assert(t.take(plen as int) =~= cs@.subrange(i as int, i + plen));
            }
            assert(t.drop_first() =~= cs@.skip(i + 1));
            assert(t[0] == cs@[i as int]);
            assert(replace_all(t, ps@, rep@) == seq![t[0]] + replace_all(t.drop_first(), ps@, rep@));
            push_char(&mut out, cs[i]);
            i = i + 1;
            assert(out@ + replace_all(cs@.skip(i as int), ps@, rep@) =~= old_out + replace_all(t, ps@, rep@));
        }
    }
    assert(cs@.skip(n as int) =~= Seq::<char>::empty());
    assert(out@ =~= out@ + Seq::<char>::empty());
    out
}

/// Unicode's White_Space characters (what `char::is_whitespace` accepts).
pub open spec fn is_ws(c: char) -> bool {
    let u = c as u32;
    (0x09 <= u <= 0x0d) || u == 0x20 || u == 0x85 || u == 0xa0 || u == 0x1680 || (0x2000 <= u
        <= 0x200a) || u == 0x2028 || u == 0x2029 || u == 0x202f || u == 0x205f || u == 0x3000
}

pub fn is_whitespace(c: char) -> (r: bool)
    ensures
        r == is_ws(c),
{
    let u = c as u32;
    (0x09 <= u && u <= 0x0d) || u == 0x20 || u == 0x85 || u == 0xa0 || u == 0x1680 || (0x2000 <= u
        && u <= 0x200a) || u == 0x2028 || u == 0x2029 || u == 0x202f || u == 0x205f || u == 0x3000
}

/// The maximal runs of non-whitespace characters, in order (what
/// `str::split_whitespace` yields), defined by reading one character more:
/// whitespace ends a run, other characters extend the current run or start
/// a new one.
pub open spec fn ws_tokens(s: Seq<char>) -> Seq<Seq<char>>
    decreases s.len(),
{
    if s.len() == 0 {
        seq![]
    } else {
        let prev = ws_tokens(s.drop_last());
        let c = s.last();
        if is_ws(c) {
            prev
        } else if s.len() >= 2 && !is_ws(s[s.len() - 2]) {
            prev.drop_last().push(prev.last().push(c))
        } else {
            prev.push(seq![c])
        }
    }
}

pub open spec fn views(v: Seq<String>) -> Seq<Seq<char>> {
    v.map_values(|x: String| x@)
}

/// The whitespace-separated words of a string.
pub fn split_whitespace(s: &str) -> (r: Vec<String>)
    ensures
        views(r@) == ws_tokens(s@),
{
    let cs = chars_of(s);
    let n = cs.len();
    let mut done: Vec<String> = Vec::new();
    let mut cur = String::new();
    let mut in_tok = false;
    let mut i: usize = 0;
    while i < n
        invariant
            n == cs@.len(),
            cs@ == s@,
            i <= n,
            in_tok == (i > 0 && !is_ws(cs@[i - 1])),
            !in_tok ==> cur@ == Seq::<char>::empty(),
            ws_tokens(cs@.take(i as int)) == (if in_tok {
                views(done@).push(cur@)
            } else {
                views(done@)
            }),
        decreases n - i,
    {
        let c = cs[i];
        let ghost pre = cs@.take(i as int);
        let ghost next = cs@.take(i + 1);
        assert(next.drop_last() =~= pre);
        assert(next.last() == c);
        if i > 0 {
            assert(next[next.len() - 2] == cs@[i - 1]);
        }
        if is_whitespace(c) {
            if in_tok {
                let ghost before = done@;
                let t = cur;
                let ghost tv = t@;
                done.push(t);
                cur = String::new();
                assert(views(done@) =~= views(before).push(tv));
            }
            in_tok = false;
        } else {
            if in_tok {
                let ghost before = views(done@).push(cur@);
                push_char(&mut cur, c);
                assert(before.drop_last().push(before.last().push(c)) =~= views(done@).push(cur@));
            } else {
                push_char(&mut cur, c);
                assert(cur@ =~= seq![c]);
            }
            in_tok = true;
        }
        i = i + 1;
    }
    assert(cs@.take(n as int) =~= cs@);
    if in_tok {
        let ghost before = done@;
        done.push(cur);
        assert(views(done@) =~= views(before).push(cur@));
    }
    done
}

/// The position of the first occurrence of `c` in `s`.
pub open spec fn find_char(s: Seq<char>, c: char) -> Option<int>
    decreases s.len(),
{
    if s.len() == 0 {
        None
    } else if s[0] == c {
        Some(0)
    } else {
        match find_char(s.drop_first(), c) {
            Some(k) => Some(k + 1),
            None => None,
        }
    }
}

proof fn lemma_find_char_skip(s: Seq<char>, c: char, i: int)
    requires
        0 <= i <= s.len(),
        forall|j: int| 0 <= j < i ==> s[j] != c,
    ensures
        find_char(s, c) == (match find_char(s.skip(i), c) {
            Some(k) => Some(k + i),
            None => None,
        }),
    decreases i,
{
    if i > 0 {
        assert(s.skip(1).skip(i - 1) =~= s.skip(i));
        lemma_find_char_skip(s.drop_first(), c, i - 1);
        assert(s.skip(1) =~= s.drop_first());
    } else {
        assert(s.skip(0) =~= s);
    }
}

/// `s` split around the first `c`, if it has one (as `str::split_once`).
pub open spec fn split_once_spec(s: Seq<char>, c: char) -> Option<(Seq<char>, Seq<char>)> {
    match find_char(s, c) {
        Some(k) => Some((s.take(k), s.skip(k + 1))),
        None => None,
    }
}

pub fn split_once(s: &str, c: char) -> (r: Option<(String, String)>)
    ensures
        match split_once_spec(s@, c) {
            Some((a, b)) => r is Some && r->Some_0.0@ == a && r->Some_0.1@ == b,
            None => r is None,
        },
{
    let cs = chars_of(s);
    let mut i: usize = 0;
    while i < cs.len()
        invariant
            cs@ == s@,
            i <= cs@.len(),
            forall|j: int| 0 <= j < i ==> cs@[j] != c,
        decreases cs.len() - i,
    {
        if cs[i] == c {
            proof {
                lemma_find_char_skip(cs@, c, i as int);
                assert(cs@.skip(i as int)[0] == c);
            }
            let mut a = String::new();
            push_chars(&mut a, &cs, 0, i);
            let mut b = String::new();
            push_chars(&mut b, &cs, i + 1, cs.len());
            assert(a@ =~= cs@.take(i as int));
            assert(b@ =~= cs@.skip(i + 1));
            return Some((a, b));
        }
        i = i + 1;
    }
    proof {
        lemma_find_char_skip(cs@, c, i as int);
    }
    None
}

/// `s` without `prefix`, if it starts with it (as `str::strip_prefix`).
pub open spec fn strip_prefix_spec(s: Seq<char>, prefix: Seq<char>) -> Option<Seq<char>> {
    if prefix.len() <= s.len() && s.take(prefix.len() as int) == prefix {
        Some(s.skip(prefix.len() as int))
    } else {
        None
    }
}

pub fn strip_prefix(s: &str, prefix: &str) -> (r: Option<String>)
    ensures
        match strip_prefix_spec(s@, prefix@) {
            Some(t) => r is Some && r->Some_0@ == t,
            None => r is None,
        },
{
    let cs = chars_of(s);
    let ps = chars_of(prefix);
    if ps.len() > cs.len() {
        return None;
    }
    let mut k: usize = 0;
    while k < ps.len()
        invariant
            cs@ == s@,
            ps@ == prefix@,
            ps@.len() <= cs@.len(),
            k <= ps@.len(),
            forall|j: int| 0 <= j < k ==> cs@[j] == ps@[j],
        decreases ps.len() - k,
    {
        if cs[k] != ps[k] {
            assert(cs@.take(ps@.len() as int)[k as int] != ps@[k as int]);
            return None;
        }
        k = k + 1;
    }
    assert(cs@.take(ps@.len() as int) =~= ps@);
    let mut t = String::new();
    push_chars(&mut t, &cs, ps.len(), cs.len());
    assert(t@ =~= cs@.skip(ps@.len() as int));
    Some(t)
}

/// The pieces of `s` each ending with its newline, the last one possibly
/// without (as `str::split_inclusive('\n')`).
pub open spec fn newline_pieces(s: Seq<char>) -> Seq<Seq<char>>
    decreases s.len(),
{
    if s.len() == 0 {
        seq![]
    } else {
        let prev = newline_pieces(s.drop_last());
        let c = s.last();
        if s.len() == 1 || s[s.len() - 2] == '\n' {
            prev.push(seq![c])
        } else {
            prev.drop_last().push(prev.last().push(c))
        }
    }
}

/// A piece without its line ending ("\n" or "\r\n").
pub open spec fn strip_line_end(p: Seq<char>) -> Seq<char> {
    if p.len() > 0 && p.last() == '\n' {
        let q = p.drop_last();
        if q.len() > 0 && q.last() == '\r' {
            q.drop_last()
        } else {
            q
        }
    } else {
        p
    }
}

pub open spec fn strip_line_ends(ps: Seq<Seq<char>>) -> Seq<Seq<char>> {
    ps.map_values(|p: Seq<char>| strip_line_end(p))
}

/// The lines of `s` (as `str::lines`): no empty line after a final newline.
pub open spec fn lines_spec(s: Seq<char>) -> Seq<Seq<char>> {
    strip_line_ends(newline_pieces(s))
}

fn string_without_line_end(p: &Vec<char>) -> (r: String)
    ensures
        r@ == strip_line_end(p@),
{
    let mut end = p.len();
    if end > 0 && p[end - 1] == '\n' {
        end = end - 1;
        if end > 0 && p[end - 1] == '\r' {
            end = end - 1;
        }
    }
    let mut r = String::new();
    push_chars(&mut r, p, 0, end);
    assert(r@ =~= strip_line_end(p@));
    r
}

/// The lines of a text.
pub fn lines(s: &str) -> (r: Vec<String>)
    ensures
        views(r@) == lines_spec(s@),
{
    let cs = chars_of(s);
    let n = cs.len();
    let mut pieces: Vec<Vec<char>> = Vec::new();
    let mut i: usize = 0;
    while i < n
        invariant
            n == cs@.len(),
            cs@ == s@,
            i <= n,
            pieces@.map_values(|p: Vec<char>| p@) == newline_pieces(cs@.take(i as int)),
            i > 0 ==> pieces@.len() > 0,
        decreases n - i,
    {
        let c = cs[i];
        let ghost next = cs@.take(i + 1);
        let ghost before = pieces@.map_values(|p: Vec<char>| p@);
        assert(next.drop_last() =~= cs@.take(i as int));
        assert(next.last() == c);
        if i > 0 {
            assert(next[next.len() - 2] == cs@[i - 1]);
        }
        if i == 0 || cs[i - 1] == '\n' {
            let mut v: Vec<char> = Vec::new();
            v.push(c);
            pieces.push(v);
            assert(pieces@.map_values(|p: Vec<char>| p@) =~= before.push(seq![c]));
        } else {
            let last = pieces.len() - 1;
            let mut v = pieces.pop().unwrap();
            v.push(c);
            pieces.push(v);
            assert(pieces@.map_values(|p: Vec<char>| p@) =~= before.drop_last().push(before.last().push(c)));
        }
        i = i + 1;
    }
    assert(cs@.take(n as int) =~= cs@);
    let mut out: Vec<String> = Vec::new();
    let mut j: usize = 0;
    while j < pieces.len()
        invariant
            j <= pieces@.len(),
            pieces@.map_values(|p: Vec<char>| p@) == newline_pieces(s@),
            views(out@) == strip_line_ends(newline_pieces(s@).take(j as int)),
        decreases pieces.len() - j,
    {
        let line = string_without_line_end(&pieces[j]);
        assert(newline_pieces(s@)[j as int] == pieces@[j as int]@);
        let ghost before = out@;
        out.push(line);
        assert(strip_line_ends(newline_pieces(s@).take(j + 1)) =~= strip_line_ends(
            newline_pieces(s@).take(j as int),
        ).push(strip_line_end(newline_pieces(s@)[j as int])));
        assert(views(out@) =~= views(before).push(line@));
        j = j + 1;
    }
    assert(newline_pieces(s@).take(pieces@.len() as int) =~= newline_pieces(s@));
    out
}

pub open spec fn is_digit(c: char) -> bool {
    '0' <= c && c <= '9'
}

pub open spec fn digit_value(c: char) -> nat {
    (c as u32 - 48) as nat
}

/// The value of a run of decimal digits.
pub open spec fn digits_value(s: Seq<char>) -> nat
    decreases s.len(),
{
    if s.len() == 0 {
        0
    } else {
        digits_value(s.drop_last()) * 10 + digit_value(s.last())
    }
}

pub open spec fn all_digits(s: Seq<char>) -> bool {
    forall|i: int| 0 <= i < s.len() ==> is_digit(#[trigger] s[i])
}

/// An optional sign and one or more decimal digits, read as an integer.
pub open spec fn parse_int_spec(s: Seq<char>) -> Option<int> {
    if s.len() == 0 {
        None
    } else {
        let neg = s[0] == '-';
        let body = if s[0] == '-' || s[0] == '+' {
            s.drop_first()
        } else {
            s
        };
        if body.len() == 0 || !all_digits(body) {
            None
        } else if neg {
            Some(-(digits_value(body) as int))
        } else {
            Some(digits_value(body) as int)
        }
    }
}

/// What `i32::from_str` accepts: the integer, when it fits.
pub open spec fn parse_i32_spec(s: Seq<char>) -> Option<i32> {
    match parse_int_spec(s) {
        Some(v) => if i32::MIN <= v <= i32::MAX {
            Some(v as i32)
        } else {
            None
        },
        None => None,
    }
}

proof fn lemma_digits_value_grows(s: Seq<char>, k: int)
    requires
        0 <= k <= s.len(),
        all_digits(s),
    ensures
        digits_value(s.take(k)) <= digits_value(s),
    decreases s.len() - k,
{
    if k < s.len() {
        lemma_digits_value_grows(s, k + 1);
        let t = s.take(k + 1);
        assert(t.drop_last() =~= s.take(k));
    } else {
        assert(s.take(k) =~= s);
    }
}

/// Parses a decimal `i32` with an optional sign.
pub fn parse_i32(s: &str) -> (r: Option<i32>)
    ensures
        r == parse_i32_spec(s@),
{
    let cs = chars_of(s);
    if cs.len() == 0 {
        return None;
    }
    let neg = cs[0] == '-';
    let start: usize = if cs[0] == '-' || cs[0] == '+' { 1 } else { 0 };
    let ghost body = if cs@[0] == '-' || cs@[0] == '+' { cs@.drop_first() } else { cs@ };
    assert(body =~= cs@.skip(start as int));
    if start == cs.len() {
        return None;
    }
    let mut acc: u64 = 0;
    let mut i: usize = start;
    while i < cs.len()
        invariant
            cs@ == s@,
            cs@.len() > 0,
            start == (if cs@[0] == '-' || cs@[0] == '+' { 1usize } else { 0usize }),
            neg == (cs@[0] == '-'),
            start <= i <= cs@.len(),
            body == cs@.skip(start as int),
            body == (if cs@[0] == '-' || cs@[0] == '+' { cs@.drop_first() } else { cs@ }),
            all_digits(body.take(i - start)),
            acc == digits_value(body.take(i - start)),
            acc <= 2147483648,
        decreases cs.len() - i,
    {
        let c = cs[i];
        let ghost t = body.take(i - start + 1);
        assert(t.drop_last() =~= body.take(i - start));
        assert(t.last() == c);
        if !('0' <= c && c <= '9') {
            assert(body[i - start] == cs@[i as int]);
            assert(!is_digit(body[i - start]));
            assert(!all_digits(body));
            assert(parse_int_spec(s@) is None);
            return None;
        }
        let d = (c as u32 - 48) as u64;
        acc = acc * 10 + d;
        assert(all_digits(t)) by {
            assert forall|j: int| 0 <= j < t.len() implies is_digit(#[trigger] t[j]) by {
                if j < t.len() - 1 {
                    assert(t[j] == body.take(i - start)[j]);
                }
            }
        }
        i = i + 1;
        assert(acc == digits_value(t));
        assert(t == body.take(i - start));
        if acc > 2147483648 {
            proof {
                if all_digits(body) {
                    lemma_digits_value_grows(body, i - start);
                    assert(digits_value(body) > 2147483648);
                }
            }
            return None;
        }
    }
    assert(body.take(i - start) =~= body);
    if neg {
        if acc > 2147483648 {
            None
        } else if acc == 2147483648 {
            Some(i32::MIN)
        } else {
            Some(-(acc as i32))
        }
    } else {
        if acc > 2147483647 {
            None
        } else {
            Some(acc as i32)
        }
    }
}

proof fn lemma_digit_char(k: nat)
    requires
        k < 10,
    ensures
        is_digit(digit_char(k)),
        digit_value(digit_char(k)) == k,
{
    let b: u8 = (k + 48) as u8;
    assert(b as char as u32 == b as u32);
}

/// The decimal rendering of a number is all digits and reads back as it.
pub proof fn lemma_dec_nat_digits(n: nat)
    ensures
        dec_nat(n).len() > 0,
        all_digits(dec_nat(n)),
        digits_value(dec_nat(n)) == n,
    decreases n,
{
    lemma_digit_char(n % 10);
    if n < 10 {
        let d = dec_nat(n);
        assert(d.drop_last() =~= Seq::<char>::empty());
        assert(n % 10 == n);
        assert(d.last() == digit_char(n));
        assert(digits_value(d) == digits_value(d.drop_last()) * 10 + digit_value(d.last()));
        assert(digits_value(d.drop_last()) == 0);
    }
    if n >= 10 {
        lemma_dec_nat_digits(n / 10);
        let d = dec_nat(n);
        assert(d.drop_last() =~= dec_nat(n / 10));
        assert(d.last() == digit_char(n % 10));
        assert(n == (n / 10) * 10 + n % 10) by (nonlinear_arith);
        assert(digits_value(d) == digits_value(d.drop_last()) * 10 + digit_value(d.last()));
        assert(digits_value(d.drop_last()) == n / 10);
        assert(digit_value(d.last()) == n % 10);
        assert forall|i: int| 0 <= i < d.len() implies is_digit(#[trigger] d[i]) by {
            if i < d.len() - 1 {
                assert(d[i] == dec_nat(n / 10)[i]);
            }
        }
    }
}

/// An `i32` rendered in decimal parses back to the same value.
pub proof fn lemma_format_parse_i32(n: i32)
    ensures
        parse_i32_spec(dec_int(n as int)) == Some(n),
{
    let m: nat = if n < 0 { (-(n as int)) as nat } else { n as nat };
    lemma_dec_nat_digits(m);
    let s = dec_int(n as int);
    let d = dec_nat(m);
    assert(is_digit(d[0]));
    if n < 0 {
        assert(s.drop_first() =~= d);
    }
}

/// Whether `pat` occurs in `t` at position `i`.
pub open spec fn occurs_at(t: Seq<char>, pat: Seq<char>, i: int) -> bool {
    0 <= i && i + pat.len() <= t.len() && t.subrange(i, i + pat.len()) == pat
}

/// A pattern whose first character is a marker that appears nowhere else
/// in it, and none of whose characters can appear in the replacement.
pub open spec fn marker_pattern(pat: Seq<char>, rep: Seq<char>) -> bool {
    &&& pat.len() > 0
    &&& rep.len() > 0
    &&& forall|j: int| 1 <= j < pat.len() ==> #[trigger] pat[j] != pat[0]
    &&& forall|j: int, k: int|
        0 <= j < pat.len() && 0 <= k < rep.len() ==> #[trigger] pat[j] != #[trigger] rep[k]
}

proof fn lemma_replaced_prefix(t: Seq<char>, pat: Seq<char>, rep: Seq<char>, u: Seq<char>)
    requires
        marker_pattern(pat, rep),
        forall|j: int, k: int| 0 <= j < u.len() && 0 <= k < rep.len() ==> #[trigger] u[j] != #[trigger] rep[k],
        u.len() <= replace_all(t, pat, rep).len(),
        replace_all(t, pat, rep).take(u.len() as int) == u,
    ensures
        u.len() <= t.len(),
        t.take(u.len() as int) == u,
    decreases t.len(),
{
    let r = replace_all(t, pat, rep);
    if u.len() == 0 {
        assert(t.take(0) =~= u);
    } else if t.len() < pat.len() {
    } else if t.take(pat.len() as int) == pat {
        assert(r[0] == rep[0]);
        assert(r.take(u.len() as int)[0] == u[0]);
        assert(u[0] != rep[0]);
    } else {
        let t1 = t.drop_first();
        let r1 = replace_all(t1, pat, rep);
        let u1 = u.drop_first();
        assert(r =~= seq![t[0]] + r1);
        assert(r1.take(u1.len() as int) =~= u1) by {
            assert forall|j: int| 0 <= j < u1.len() implies r1[j] == u1[j] by {
                assert(r.take(u.len() as int)[j + 1] == u[j + 1]);
            }
        }
        assert forall|j: int, k: int| 0 <= j < u1.len() && 0 <= k < rep.len() implies #[trigger] u1[j]
            != #[trigger] rep[k] by {
            assert(u1[j] == u[j + 1]);
        }
        lemma_replaced_prefix(t1, pat, rep, u1);
        assert(r.take(u.len() as int)[0] == u[0]);
        assert(t.take(u.len() as int) =~= seq![t[0]] + t1.take(u1.len() as int));
    }
}

/// After replacing a marker pattern, no occurrence of it is left.
pub proof fn lemma_replace_all_leaves_no_pattern(s: Seq<char>, pat: Seq<char>, rep: Seq<char>, i: int)
    requires
        marker_pattern(pat, rep),
    ensures
        !occurs_at(replace_all(s, pat, rep), pat, i),
    decreases s.len(),
{
    let r = replace_all(s, pat, rep);
    if s.len() < pat.len() {
    } else if s.take(pat.len() as int) == pat {
        let rest = s.skip(pat.len() as int);
        assert(r =~= rep + replace_all(rest, pat, rep));
        if occurs_at(r, pat, i) {
            if i < rep.len() {
                assert(r.subrange(i, i + pat.len())[0] == r[i]);
                assert(r[i] == rep[i]);
                assert(pat[0] != rep[i]);
            } else {
                lemma_replace_all_leaves_no_pattern(rest, pat, rep, i - rep.len());
                assert(replace_all(rest, pat, rep).subrange(i - rep.len(), i - rep.len() + pat.len())
                    =~= r.subrange(i, i + pat.len()));
            }
        }
    } else {
        let s1 = s.drop_first();
        let r1 = replace_all(s1, pat, rep);
        assert(r =~= seq![s[0]] + r1);
        if occurs_at(r, pat, i) {
            if i >= 1 {
                lemma_replace_all_leaves_no_pattern(s1, pat, rep, i - 1);
                assert(r1.subrange(i - 1, i - 1 + pat.len()) =~= r.subrange(i, i + pat.len()));
            } else {
                let u = pat.drop_first();
                assert(r1.take(u.len() as int) =~= u) by {
                    assert forall|j: int| 0 <= j < u.len() implies r1[j] == u[j] by {
                        assert(r.subrange(0, pat.len() as int)[j + 1] == pat[j + 1]);
                    }
                }
                assert forall|j: int, k: int| 0 <= j < u.len() && 0 <= k < rep.len() implies #[trigger] u[j]
                    != #[trigger] rep[k] by {
                    assert(u[j] == pat[j + 1]);
                }
                lemma_replaced_prefix(s1, pat, rep, u);
                assert(r.subrange(0, pat.len() as int)[0] == s[0]);
                assert(s[0] == pat[0]);
                assert(pat =~= seq![pat[0]] + u);
                assert(s.take(pat.len() as int) =~= seq![s[0]] + s1.take(u.len() as int));
            }
        }
    }
}
} // verus!
