//! String helpers used by the request rules: prefix tests, replacement,
//! splitting, decimal rendering and decimal parsing.
use vstd::prelude::*;
use vstd::string::*;

verus! {

/// `p` is a prefix of `s`.
pub open spec fn has_prefix(s: Seq<char>, p: Seq<char>) -> bool {
    p.len() <= s.len() && s.subrange(0, p.len() as int) =~= p
}

/// `s` holds the text `p` starting at position `i`.
pub open spec fn occurs_at(s: Seq<char>, p: Seq<char>, i: int) -> bool {
    0 <= i && i + p.len() <= s.len() && s.subrange(i, i + p.len()) =~= p
}

/// Leftmost, non-overlapping replacement of `from` by `to`, scanning left to right.
pub open spec fn replaced(s: Seq<char>, from: Seq<char>, to: Seq<char>) -> Seq<char>
    decreases s.len(),
{
    if from.len() == 0 || s.len() < from.len() {
        s
    } else if s.subrange(0, from.len() as int) =~= from {
        to + replaced(s.subrange(from.len() as int, s.len() as int), from, to)
    } else {
        seq![s[0]] + replaced(s.subrange(1, s.len() as int), from, to)
    }
}

/// The pieces of `rest` split at every `sep`, the first piece starting with `cur`.
pub open spec fn split_from(cur: Seq<char>, rest: Seq<char>, sep: char) -> Seq<Seq<char>>
    decreases rest.len(),
{
    if rest.len() == 0 {
        seq![cur]
    } else if rest[0] == sep {
        seq![cur] + split_from(Seq::empty(), rest.drop_first(), sep)
    } else {
        split_from(cur.push(rest[0]), rest.drop_first(), sep)
    }
}

/// The pieces of `s` between the occurrences of `sep` (there is always at least one).
pub open spec fn split_at_char(s: Seq<char>, sep: char) -> Seq<Seq<char>> {
    split_from(Seq::empty(), s, sep)
}

/// The length of a text in UTF-8 bytes (what `str::len` counts).
pub open spec fn byte_len(s: Seq<char>) -> nat {
    vstd::utf8::encode_utf8(s).len()
}

/// An ASCII decimal digit.
pub open spec fn is_digit(c: char) -> bool {
    '0' <= c && c <= '9'
}

/// The value of an ASCII decimal digit.
pub open spec fn digit_value(c: char) -> int {
    c as int - '0' as int
}

/// The ASCII digit for a value below ten.
pub open spec fn digit_char(d: int) -> char {
    (d + '0' as int) as char
}

/// Every character is an ASCII decimal digit.
pub open spec fn all_digits(s: Seq<char>) -> bool {
    forall|i: int| 0 <= i < s.len() ==> is_digit(#[trigger] s[i])
}

/// The number that a string of decimal digits denotes.
pub open spec fn digits_value(s: Seq<char>) -> nat
    decreases s.len(),
{
    if s.len() == 0 {
        0
    } else {
        (digits_value(s.drop_last()) * 10 + digit_value(s.last())) as nat
    }
}

/// The shortest decimal rendering of a natural number.
pub open spec fn nat_decimal(n: nat) -> Seq<char>
    decreases n,
{
    if n < 10 {
        seq![digit_char(n as int)]
    } else {
        nat_decimal(n / 10).push(digit_char((n % 10) as int))
    }
}

/// The decimal rendering of an integer, with a leading `-` when it is negative.
pub open spec fn int_decimal(x: int) -> Seq<char> {
    if x < 0 {
        seq!['-'] + nat_decimal((-x) as nat)
    } else {
        nat_decimal(x as nat)
    }
}

/// What `str::parse::<u64>` yields: an optional `+`, then one or more digits
/// whose value fits in `u64`.
pub open spec fn parsed_u64(s: Seq<char>) -> Option<u64> {
    let body = if s.len() > 0 && s[0] == '+' { s.drop_first() } else { s };
    if body.len() == 0 || !all_digits(body) || digits_value(body) > u64::MAX {
        None
    } else {
        Some(digits_value(body) as u64)
    }
}

/// What `str::parse::<i64>` yields: an optional `+` or `-`, then one or more
/// digits, the signed value fitting in `i64`.
pub open spec fn parsed_i64(s: Seq<char>) -> Option<i64> {
    let neg = s.len() > 0 && s[0] == '-';
    let body = if s.len() > 0 && (s[0] == '+' || s[0] == '-') { s.drop_first() } else { s };
    if body.len() == 0 || !all_digits(body) {
        None
    } else if neg {
        if digits_value(body) > 0x8000_0000_0000_0000 {
            None
        } else {
            Some((-digits_value(body)) as i64)
        }
    } else {
        if digits_value(body) > i64::MAX {
            None
        } else {
            Some(digits_value(body) as i64)
        }
    }
}

/// The length of `s` in UTF-8 bytes (what `str::len` counts).
pub fn utf8_len(s: &str) -> (n: u128)
    ensures
        n == byte_len(s@),
{
    let len = s.unicode_len();
    let mut i: usize = len;
    let mut acc: u128 = 0;
    proof {
        assert(s@.subrange(len as int, len as int) =~= Seq::<char>::empty());
    }
    while i > 0
        invariant
            len == s@.len(),
            i <= len,
            acc == byte_len(s@.subrange(i as int, len as int)),
            acc <= 4 * (len - i),
        decreases i,
    {
        let c = s.get_char(i - 1);
        let v = c as u32;
        let w: u128 = if v <= 0x7F { 1 } else if v <= 0x7FF { 2 } else if v <= 0xFFFF { 3 } else { 4 };
        proof {
            let t = s@.subrange(i - 1, len as int);
            assert(t[0] == c);
            assert(t.drop_first() =~= s@.subrange(i as int, len as int));
            assert(vstd::utf8::encode_scalar(v).len() == w);
        }
        acc = acc + w;
        i = i - 1;
    }
    proof {
        assert(s@.subrange(0, len as int) =~= s@);
    }
    acc
}

/// Appends one character to a string (`String::push`).
#[verifier::external_body]
pub(crate) fn push_char(s: &mut String, c: char)
    ensures
        final(s)@ == old(s)@.push(c),
{
    s.push(c)
}

/// Whether `s` begins with `prefix`.
pub fn starts_with(s: &str, prefix: &str) -> (r: bool)
    ensures
        r == has_prefix(s@, prefix@),
{
    let n = s.unicode_len();
    let m = prefix.unicode_len();
    if m > n {
        return false;
    }
    matches_at(s, n, 0, prefix, m)
}

/// Whether `pat` occurs in `s` at char position `i` (`n`, `m` are the char lengths).
fn matches_at(s: &str, n: usize, i: usize, pat: &str, m: usize) -> (r: bool)
    requires
        n == s@.len(),
        m == pat@.len(),
    ensures
        r == occurs_at(s@, pat@, i as int),
{
    if i > n || m > n - i {
        return false;
    }
    let mut j: usize = 0;
    while j < m
        invariant
            n == s@.len(),
            m == pat@.len(),
            i + m <= n,
            j <= m,
            forall|k: int| 0 <= k < j ==> s@[i + k] == pat@[k],
        decreases m - j,
    {
        if s.get_char(i + j) != pat.get_char(j) {
            assert(s@.subrange(i as int, i + m)[j as int] != pat@[j as int]);
            return false;
        }
        j = j + 1;
    }
    assert(s@.subrange(i as int, i + m) =~= pat@);
    true
}

/// Whether the two strings hold the same text.
pub fn str_eq(a: &str, b: &str) -> (r: bool)
    ensures
        r == (a@ == b@),
{
    let n = a.unicode_len();
    let m = b.unicode_len();
    if n != m {
        return false;
    }
    let r = matches_at(a, n, 0, b, m);
    proof {
        if r {
            assert(a@ =~= a@.subrange(0, n as int));
        }
    }
    r
}

/// Whether `c` occurs in `s`.
pub fn contains_char(s: &str, c: char) -> (r: bool)
    ensures
        r == s@.contains(c),
{
    let n = s.unicode_len();
    let mut i: usize = 0;
    while i < n
        invariant
            n == s@.len(),
            i <= n,
            forall|k: int| 0 <= k < i ==> s@[k] != c,
        decreases n - i,
    {
        if s.get_char(i) == c {
            assert(s@[i as int] == c);
            return true;
        }
        i = i + 1;
    }
    false
}

proof fn lemma_replaced_step(s: Seq<char>, i: int, from: Seq<char>, to: Seq<char>)
    requires
        from.len() > 0,
        0 <= i <= s.len(),
    ensures
        i + from.len() <= s.len() && occurs_at(s, from, i) ==> replaced(s.subrange(i, s.len() as int), from, to)
            == to + replaced(s.subrange(i + from.len(), s.len() as int), from, to),
        i < s.len() && !occurs_at(s, from, i) ==> replaced(s.subrange(i, s.len() as int), from, to)
            == seq![s[i]] + replaced(s.subrange(i + 1, s.len() as int), from, to),
        i + from.len() > s.len() ==> replaced(s.subrange(i, s.len() as int), from, to) == s.subrange(i, s.len() as int),
{
    let suf = s.subrange(i, s.len() as int);
    if i + from.len() <= s.len() {
        assert(suf.subrange(0, from.len() as int) =~= s.subrange(i, i + from.len()));
        assert(suf.subrange(from.len() as int, suf.len() as int) =~= s.subrange(i + from.len(), s.len() as int));
    }
    if i < s.len() {
        assert(suf.subrange(1, suf.len() as int) =~= s.subrange(i + 1, s.len() as int));
        assert(suf[0] == s[i]);
    }
}

/// `s` with every leftmost non-overlapping occurrence of `from` replaced by `to`
/// (`str::replace` with a non-empty pattern).
pub fn replace_all(s: &str, from: &str, to: &str) -> (r: String)
    requires
        from@.len() > 0,
    ensures
        r@ == replaced(s@, from@, to@),
{
    let n = s.unicode_len();
    let m = from.unicode_len();
    let mut out = String::new();
    let mut i: usize = 0;
    proof {
        assert(s@.subrange(0, n as int) =~= s@);
    }
    while i < n
        invariant
            n == s@.len(),
            m == from@.len(),
            m > 0,
            i <= n,
            out@ + replaced(s@.subrange(i as int, n as int), from@, to@) == replaced(s@, from@, to@),
        decreases n - i,
    {
        let hit = matches_at(s, n, i, from, m);
        proof {
            lemma_replaced_step(s@, i as int, from@, to@);
        }
        if hit {
            let ghost before = out@;
            out.append(to);
            proof {
                assert(out@ + replaced(s@.subrange(i + m, n as int), from@, to@) =~= before + (to@ + replaced(s@.subrange(i + m, n as int), from@, to@)));
            }
            i = i + m;
        } else {
            let c = s.get_char(i);
            let ghost before = out@;
            push_char(&mut out, c);
            proof {
                assert(out@ + replaced(s@.subrange(i + 1, n as int), from@, to@) =~= before + (seq![c] + replaced(s@.subrange(i + 1, n as int), from@, to@)));
            }
            i = i + 1;
        }
    }
    proof {
        lemma_replaced_step(s@, n as int, from@, to@);
        assert(s@.subrange(n as int, n as int) =~= Seq::<char>::empty());
        assert(out@ + Seq::<char>::empty() =~= out@);
    }
    out
}

/// The pieces of `s` between the occurrences of `sep` (`str::split` with a char).
pub fn split_char(s: &str, sep: char) -> (r: Vec<String>)
    ensures
        r@.map_values(|p: String| p@) == split_at_char(s@, sep),
{
    let n = s.unicode_len();
    let mut pieces: Vec<String> = Vec::new();
    let mut cur = String::new();
    let mut i: usize = 0;
    proof {
        assert(s@.subrange(0, n as int) =~= s@);
    }
    while i < n
        invariant
            n == s@.len(),
            i <= n,
            pieces@.map_values(|p: String| p@) + split_from(cur@, s@.subrange(i as int, n as int), sep)
                == split_at_char(s@, sep),
        decreases n - i,
    {
        let c = s.get_char(i);
        let ghost rest = s@.subrange(i as int, n as int);
        proof {
            assert(rest[0] == c);
            assert(rest.drop_first() =~= s@.subrange(i + 1, n as int));
        }
        if c == sep {
            let ghost old_pieces = pieces@.map_values(|p: String| p@);
            let ghost old_cur = cur@;
            let done = cur;
            pieces.push(done);
            cur = String::new();
            proof {
                assert(pieces@.map_values(|p: String| p@) =~= old_pieces.push(old_cur));
                assert(old_pieces.push(old_cur) + split_from(cur@, s@.subrange(i + 1, n as int), sep)
                    =~= old_pieces + (seq![old_cur] + split_from(Seq::empty(), s@.subrange(i + 1, n as int), sep)));
            }
        } else {
            push_char(&mut cur, c);
        }
        i = i + 1;
    }
    let ghost old_pieces = pieces@.map_values(|p: String| p@);
    let ghost last = cur@;
    pieces.push(cur);
    proof {
        assert(s@.subrange(n as int, n as int) =~= Seq::<char>::empty());
        assert(pieces@.map_values(|p: String| p@) =~= old_pieces.push(last));
        assert(old_pieces.push(last) =~= old_pieces + seq![last]);
    }
    pieces
}

/// The ASCII digit for `d < 10`.
pub fn digit_to_char(d: u64) -> (c: char)
    requires
        d < 10,
    ensures
        c == digit_char(d as int),
{
    if d == 0 { '0' } else if d == 1 { '1' } else if d == 2 { '2' } else if d == 3 { '3' }
    else if d == 4 { '4' } else if d == 5 { '5' } else if d == 6 { '6' } else if d == 7 { '7' }
    else if d == 8 { '8' } else { '9' }
}

/// Appends the decimal rendering of `n` to `s`.
pub fn push_decimal(s: &mut String, n: u64)
    ensures
        final(s)@ == old(s)@ + nat_decimal(n as nat),
    decreases n,
{
    if n >= 10 {
        push_decimal(s, n / 10);
    }
    let c = digit_to_char(n % 10);
    let ghost before = s@;
    push_char(s, c);
    proof {
        if n >= 10 {
            assert(s@ =~= old(s)@ + nat_decimal(n as nat));
        } else {
            assert(s@ =~= old(s)@ + nat_decimal(n as nat));
        }
    }
}

/// The decimal rendering of an unsigned number (`u64::to_string`).
pub fn u64_to_string(n: u64) -> (r: String)
    ensures
        r@ == nat_decimal(n as nat),
{
    let mut s = String::new();
    push_decimal(&mut s, n);
    proof {
        assert(Seq::<char>::empty() + nat_decimal(n as nat) =~= nat_decimal(n as nat));
    }
    s
}

/// The decimal rendering of a signed number (`i64::to_string`).
pub fn i64_to_string(x: i64) -> (r: String)
    ensures
        r@ == int_decimal(x as int),
{
    let mut s = String::new();
    if x < 0 {
        push_char(&mut s, '-');
        let mag: u64 = if x == i64::MIN { 0x8000_0000_0000_0000u64 } else { (-x) as u64 };
        push_decimal(&mut s, mag);
        proof {
            assert(s@ =~= seq!['-'] + nat_decimal((-x) as nat));
        }
    } else {
        push_decimal(&mut s, x as u64);
        proof {
            assert(s@ =~= nat_decimal(x as nat));
        }
    }
    s
}

proof fn lemma_digits_prefix_le(s: Seq<char>, k: int)
    requires
        all_digits(s),
        0 <= k <= s.len(),
    ensures
        digits_value(s.subrange(0, k)) <= digits_value(s),
    decreases s.len() - k,
{
    if k < s.len() {
        lemma_digits_prefix_le(s, k + 1);
        let p = s.subrange(0, k + 1);
        assert(p.drop_last() =~= s.subrange(0, k));
        assert(is_digit(s[k]));
        assert(p.last() == s[k]);
        assert(digits_value(p) == digits_value(s.subrange(0, k)) * 10 + digit_value(s[k]));
        assert(digits_value(s.subrange(0, k)) <= digits_value(s.subrange(0, k)) * 10);
    } else {
        assert(s.subrange(0, k) =~= s);
    }
}

/// Splitting always yields at least one piece, and one more for every separator met.
pub proof fn lemma_split_from_len(cur: Seq<char>, rest: Seq<char>, sep: char)
    ensures
        split_from(cur, rest, sep).len() >= 1,
        split_from(cur, rest, sep)[0].len() >= cur.len(),
        rest.len() > 0 && rest[0] == sep ==> split_from(cur, rest, sep).len() >= 2 && split_from(cur, rest, sep)[0] == cur,
        rest.len() > 0 && rest[0] == sep ==> split_from(cur, rest, sep).drop_first() == split_from(Seq::empty(), rest.drop_first(), sep),
    decreases rest.len(),
{
    if rest.len() > 0 {
        if rest[0] == sep {
            lemma_split_from_len(Seq::empty(), rest.drop_first(), sep);
            assert((seq![cur] + split_from(Seq::empty(), rest.drop_first(), sep)).drop_first()
                =~= split_from(Seq::empty(), rest.drop_first(), sep));
        } else {
            lemma_split_from_len(cur.push(rest[0]), rest.drop_first(), sep);
        }
    }
}

/// The value of the digits of `s` from char position `start` to the end, when
/// there is at least one, all are digits and the value fits in `u64`.
fn parse_digits(s: &str, start: usize, n: usize) -> (r: Option<u64>)
    requires
        n == s@.len(),
        start <= n,
    ensures
        r == (if start < n && all_digits(s@.subrange(start as int, n as int))
            && digits_value(s@.subrange(start as int, n as int)) <= u64::MAX {
            Some(digits_value(s@.subrange(start as int, n as int)) as u64)
        } else {
            None::<u64>
        }),
{
    let ghost body = s@.subrange(start as int, n as int);
    if start >= n {
        return None;
    }
    let mut acc: u64 = 0;
    let mut i: usize = start;
    proof {
        assert(s@.subrange(start as int, start as int) =~= Seq::<char>::empty());
    }
    while i < n
        invariant
            n == s@.len(),
            start < n,
            start <= i <= n,
            body == s@.subrange(start as int, n as int),
            all_digits(s@.subrange(start as int, i as int)),
            acc as nat == digits_value(s@.subrange(start as int, i as int)),
        decreases n - i,
    {
        let c = s.get_char(i);
        let ghost pre = s@.subrange(start as int, i as int);
        let ghost next_pre = s@.subrange(start as int, i + 1);
        proof {
            assert(next_pre.drop_last() =~= pre);
            assert(next_pre.last() == c);
            assert(body[i - start] == c);
        }
        if !('0' <= c && c <= '9') {
            proof {
                assert(!is_digit(body[i - start]));
            }
            return None;
        }
        let d: u64 = (c as u32 - '0' as u32) as u64;
        let next: u128 = acc as u128 * 10 + d as u128;
        if next > u64::MAX as u128 {
            proof {
                assert(digits_value(next_pre) == next);
                if all_digits(body) {
                    assert(body.subrange(0, i + 1 - start) =~= next_pre);
                    lemma_digits_prefix_le(body, i + 1 - start);
                }
            }
            return None;
        }
        acc = next as u64;
        i = i + 1;
        proof {
            assert forall|k: int| 0 <= k < next_pre.len() implies is_digit(#[trigger] next_pre[k]) by {
                if k < pre.len() {
                    assert(next_pre[k] == pre[k]);
                }
            }
        }
    }
    Some(acc)
}

/// Parses an unsigned decimal number as `str::parse::<u64>` does.
pub fn parse_u64(s: &str) -> (r: Option<u64>)
    ensures
        r == parsed_u64(s@),
{
    let n = s.unicode_len();
    if n > 0 && s.get_char(0) == '+' {
        proof {
            assert(s@.drop_first() =~= s@.subrange(1, n as int));
        }
        parse_digits(s, 1, n)
    } else {
        proof {
            assert(s@ =~= s@.subrange(0, n as int));
        }
        parse_digits(s, 0, n)
    }
}

/// Parses a signed decimal number as `str::parse::<i64>` does.
pub fn parse_i64(s: &str) -> (r: Option<i64>)
    ensures
        r == parsed_i64(s@),
{
    let n = s.unicode_len();
    let mut start: usize = 0;
    let mut neg = false;
    if n > 0 {
        let c0 = s.get_char(0);
        if c0 == '-' {
            neg = true;
            start = 1;
        } else if c0 == '+' {
            start = 1;
        }
    }
    proof {
        if start == 1 {
            assert(s@.drop_first() =~= s@.subrange(1, n as int));
        } else {
            assert(s@ =~= s@.subrange(0, n as int));
        }
    }
    match parse_digits(s, start, n) {
        None => None,
        Some(v) => {
            if neg {
                if v > 0x8000_0000_0000_0000u64 {
                    None
                } else if v == 0x8000_0000_0000_0000u64 {
                    Some(i64::MIN)
                } else {
                    Some(-(v as i64))
                }
            } else {
                if v > 0x7fff_ffff_ffff_ffffu64 {
                    None
                } else {
                    Some(v as i64)
                }
            }
        },
    }
}

/// The decimal rendering of a natural number is a non-empty run of digits
/// denoting that number.
pub proof fn lemma_nat_decimal(n: nat)
    ensures
        nat_decimal(n).len() >= 1,
        all_digits(nat_decimal(n)),
        digits_value(nat_decimal(n)) == n,
    decreases n,
{
    if n < 10 {
        let d = seq![digit_char(n as int)];
        assert(d.drop_last() =~= Seq::<char>::empty());
        assert(digit_value(digit_char(n as int)) == n);
        assert(nat_decimal(n) == d);
        assert(d.last() == digit_char(n as int));
        assert(digits_value(Seq::<char>::empty()) == 0);
        assert(digits_value(d) == digits_value(d.drop_last()) * 10 + digit_value(d.last()));
    } else {
        lemma_nat_decimal(n / 10);
        let p = nat_decimal(n / 10);
        let c = digit_char((n % 10) as int);
        assert(p.push(c).drop_last() =~= p);
        assert(digit_value(c) == n % 10);
        assert(digits_value(p.push(c)) == digits_value(p) * 10 + digit_value(c));
        assert((n / 10) * 10 + n % 10 == n);
        assert forall|i: int| 0 <= i < p.push(c).len() implies is_digit(#[trigger] p.push(c)[i]) by {
            if i < p.len() {
                assert(p.push(c)[i] == p[i]);
            }
        }
    }
}

/// Law: parsing the decimal rendering of any `i64` gives the number back,
/// so `parse_i64(&i64_to_string(x)) == Some(x)`.
pub proof fn lemma_i64_decimal_round_trip(x: i64)
    ensures
        parsed_i64(int_decimal(x as int)) == Some(x),
{
    if x < 0 {
        let m = (-x) as nat;
        lemma_nat_decimal(m);
        let s = seq!['-'] + nat_decimal(m);
        assert(s.drop_first() =~= nat_decimal(m));
        assert(s[0] == '-');
    } else {
        lemma_nat_decimal(x as nat);
        let s = nat_decimal(x as nat);
        assert(is_digit(s[0]));
    }
}

/// Law: parsing the decimal rendering of any `u64` gives the number back,
/// so `parse_u64(&u64_to_string(n)) == Some(n)`.
pub proof fn lemma_u64_decimal_round_trip(n: u64)
    ensures
        parsed_u64(nat_decimal(n as nat)) == Some(n),
{
    lemma_nat_decimal(n as nat);
    assert(is_digit(nat_decimal(n as nat)[0]));
}

/// An ASCII letter or digit.
pub open spec fn is_word_char(c: char) -> bool {
    ('a' <= c && c <= 'z') || ('A' <= c && c <= 'Z') || ('0' <= c && c <= '9')
}

/// The ASCII uppercase of a character (others unchanged).
pub open spec fn upper(c: char) -> char {
    if 'a' <= c && c <= 'z' { ((c as int) - 32) as char } else { c }
}

/// The ASCII lowercase of a character (others unchanged).
pub open spec fn lower(c: char) -> char {
    if 'A' <= c && c <= 'Z' { ((c as int) + 32) as char } else { c }
}

/// Title case of a text read so far: the text, whether the last character
/// was in a word, and whether a word was written.
pub open spec fn title_state(s: Seq<char>) -> (Seq<char>, bool, bool)
    decreases s.len(),
{
    if s.len() == 0 {
        (Seq::empty(), false, false)
    } else {
        let (o, in_word, started) = title_state(s.drop_last());
        let c = s.last();
        if !is_word_char(c) {
            (o, false, started)
        } else if in_word {
            (o.push(lower(c)), true, true)
        } else if started {
            ((o + seq![' ']).push(upper(c)), true, true)
        } else {
            (o.push(upper(c)), true, true)
        }
    }
}

/// The words of a text (runs of ASCII letters and digits), each with its
/// first letter in uppercase and the rest in lowercase, separated by spaces.
pub open spec fn title_text(s: Seq<char>) -> Seq<char> {
    title_state(s).0
}

/// Writes a name in title case (see `title_text`), as tag names are shown.
pub fn title_case(s: &str) -> (r: String)
    ensures
        r@ == title_text(s@),
{
    let n = s.unicode_len();
    let mut out = String::new();
    let mut in_word = false;
    let mut started = false;
    let mut i: usize = 0;
    proof {
        assert(s@.subrange(0, 0) =~= Seq::<char>::empty());
    }
    while i < n
        invariant
            n == s@.len(),
            i <= n,
            title_state(s@.subrange(0, i as int)) == (out@, in_word, started),
        decreases n - i,
    {
        let c = s.get_char(i);
        proof {
            assert(s@.subrange(0, i + 1).drop_last() =~= s@.subrange(0, i as int));
            assert(s@.subrange(0, i + 1).last() == c);
        }
        let word = ('a' <= c && c <= 'z') || ('A' <= c && c <= 'Z') || ('0' <= c && c <= '9');
        if !word {
            in_word = false;
        } else if in_word {
            let l = if 'A' <= c && c <= 'Z' { ((c as u32) + 32) as u8 as char } else { c };
            push_char(&mut out, l);
        } else {
            if started {
                push_char(&mut out, ' ');
            }
            let u = if 'a' <= c && c <= 'z' { ((c as u32) - 32) as u8 as char } else { c };
            push_char(&mut out, u);
            in_word = true;
            started = true;
        }
        i = i + 1;
    }
    proof {
        assert(s@.subrange(0, n as int) =~= s@);
    }
    out
}

} // verus!
