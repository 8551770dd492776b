use vstd::prelude::*;

verus! {

/// The characters of a string slice, in order.
pub fn chars_of(s: &str) -> (res: Vec<char>)
    ensures
        res@ == s@,
{
    let mut res: Vec<char> = Vec::new();
    for c in it: s.chars()
        invariant
            res@ == it.seq().take(it.index() as int),
    {
        res.push(c);
    }
    res
}

pub open spec fn digit_char(d: nat) -> char {
    ((d + 48) as u8) as char
}

fn digit_char_exec(d: u64) -> (c: char)
    requires d < 10,
    ensures c == digit_char(d as nat),
{
    ((d as u8) + 48u8) as char
}

pub open spec fn dec_digits(n: nat) -> Seq<char>
    decreases n,
{
    if n < 10 {
        seq![digit_char(n)]
    } else {
        dec_digits(n / 10).push(digit_char(n % 10))
    }
}

fn push_dec(n: u64, out: &mut Vec<char>)
    ensures
        final(out)@ == old(out)@ + dec_digits(n as nat),
    decreases n,
{
    if n >= 10 {
        push_dec(n / 10, out);
    }
    let c = digit_char_exec(n % 10);
    out.push(c);
}

pub open spec fn is_dec_digit(c: char) -> bool {
    48 <= (c as u32) && (c as u32) <= 57
}

pub open spec fn dec_value(c: char) -> nat {
    ((c as u32) - 48) as nat
}

/// True when every character of `s` is an ASCII decimal digit.
pub open spec fn all_dec_digits(s: Seq<char>) -> bool {
    forall|i: int| 0 <= i < s.len() ==> is_dec_digit(#[trigger] s[i])
}

/// The number that a run of decimal digits denotes.
pub open spec fn dec_number(s: Seq<char>) -> nat
    decreases s.len(),
{
    if s.len() == 0 {
        0
    } else {
        dec_number(s.drop_last()) * 10 + dec_value(s.last())
    }
}

/// What is left of `s` once one leading `+` is taken off.
pub open spec fn without_plus(s: Seq<char>) -> Seq<char> {
    if s.len() > 0 && s[0] == '+' {
        s.skip(1)
    } else {
        s
    }
}

/// Decimal reading of an unsigned 64-bit number as `str::parse::<u64>` does it:
/// an optional `+`, then one or more ASCII digits, with a value that fits.
pub open spec fn parse_u64_spec(s: Seq<char>) -> Option<u64> {
    let body = without_plus(s);
    if body.len() > 0 && all_dec_digits(body) && dec_number(body) <= u64::MAX {
        Some(dec_number(body) as u64)
    } else {
        None
    }
}

proof fn lemma_dec_number_prefix_le(s: Seq<char>, k: int)
    requires
        0 <= k <= s.len(),
    ensures
        dec_number(s.take(k)) <= dec_number(s),
    decreases s.len() - k,
{
    if k < s.len() {
        lemma_dec_number_prefix_le(s, k + 1);
        assert(s.take(k + 1).drop_last() =~= s.take(k));
    } else {
        assert(s.take(k) =~= s);
    }
}

/// Reads a decimal `u64`, as `str::parse::<u64>` does.
pub fn parse_u64(s: &str) -> (res: Option<u64>)
    ensures
        res == parse_u64_spec(s@),
{
    let cs = chars_of(s);
    let n = cs.len();
    let mut i: usize = 0;
    if n > 0 && cs[0] == '+' {
        i = 1;
    }
    let start = i;
    let ghost body = without_plus(s@);
    assert(body =~= cs@.skip(start as int));
    if start == n {
        return None;
    }
    let mut acc: u64 = 0;
    while i < n
        invariant
            start <= i <= n,
            n == cs@.len(),
            cs@ == s@,
            body =~= cs@.skip(start as int),
            body == without_plus(s@),
            all_dec_digits(body.take(i - start)),
            acc as nat == dec_number(body.take(i - start)),
        decreases n - i,
    {
        let c = cs[i];
        let code = c as u32;
        assert(body.take(i + 1 - start).drop_last() =~= body.take(i - start));
        assert(body[i - start] == c);
        if code < 48 || code > 57 {
            assert(!is_dec_digit(body[i - start]));
            assert(!all_dec_digits(body));
            return None;
        }
        let d = (code - 48) as u64;
        assert(body.take(i + 1 - start).last() == c);
        assert(dec_number(body.take(i + 1 - start)) == acc * 10 + d);
        if acc > (u64::MAX - d) / 10 {
            proof {
                lemma_dec_number_prefix_le(body, i + 1 - start);
                assert(acc * 10 + d > u64::MAX) by (nonlinear_arith)
                    requires
                        acc > (u64::MAX - d) / 10,
                        d <= 9,
                ;
            }
            return None;
        }
        acc = acc * 10 + d;
        i = i + 1;
        assert(all_dec_digits(body.take(i - start)));
    }
    assert(body.take(n - start) =~= body);
    Some(acc)
}

proof fn lemma_digit_char(d: nat)
    requires
        d < 10,
    ensures
        is_dec_digit(digit_char(d)),
        dec_value(digit_char(d)) == d,
{
}

proof fn lemma_dec_digits(n: nat)
    ensures
        dec_digits(n).len() > 0,
        all_dec_digits(dec_digits(n)),
        dec_number(dec_digits(n)) == n,
    decreases n,
{
    lemma_digit_char(n % 10);
    let s = dec_digits(n);
    if n >= 10 {
        let t = dec_digits(n / 10);
        lemma_dec_digits(n / 10);
        assert(s.drop_last() =~= t);
        assert(s.last() == digit_char(n % 10));
        assert(dec_number(s) == dec_number(t) * 10 + (n % 10));
        assert(dec_number(t) * 10 + (n % 10) == n) by (nonlinear_arith)
            requires
                dec_number(t) == n / 10,
        ;
        assert forall|i: int| 0 <= i < s.len() implies is_dec_digit(#[trigger] s[i]) by {
            if i < s.len() - 1 {
                assert(s[i] == t[i]);
            }
        }
    } else {
        assert(s.drop_last() =~= Seq::<char>::empty());
        assert(dec_number(Seq::<char>::empty()) == 0);
        assert(dec_number(s) == n);
    }
}

/// The decimal text of a number reads back, through `str::parse::<u64>`, as that number.
pub proof fn law_parse_u64_of_decimal(n: u64)
    ensures
        parse_u64_spec(dec_digits(n as nat)) == Some(n),
{
    lemma_dec_digits(n as nat);
    let s = dec_digits(n as nat);
    assert(is_dec_digit(s[0]));
    assert(without_plus(s) == s);
}

/// The text made of the given characters, collected by std's `FromIterator<char>` for
/// `String`. The contract claims that the text holds exactly those characters, in order.
#[verifier::external_body]
pub(crate) fn string_from_chars(cs: &Vec<char>) -> (res: String)
    ensures
        res@ == cs@,
{
    cs.iter().collect()
}

/// Decimal text of an unsigned number, as `u64`'s `to_string` writes it.
pub fn u64_to_string(n: u64) -> (res: String)
    ensures
        res@ == dec_digits(n as nat),
{
    let mut cs: Vec<char> = Vec::new();
    push_dec(n, &mut cs);
    assert(cs@ =~= dec_digits(n as nat));
    string_from_chars(&cs)
}

/// Decimal text of a signed number: a `-` before the digits of its magnitude when negative.
pub open spec fn int_text(n: int) -> Seq<char> {
    if n < 0 {
        seq!['-'] + dec_digits((-n) as nat)
    } else {
        dec_digits(n as nat)
    }
}

/// Decimal text of a signed number, as `i64`'s `to_string` writes it.
pub fn i64_to_string(n: i64) -> (res: String)
    ensures
        res@ == int_text(n as int),
{
    let mut cs: Vec<char> = Vec::new();
    if n < 0 {
        cs.push('-');
        let m: u64 = (-(n as i128)) as u64;
        push_dec(m, &mut cs);
    } else {
        push_dec(n as u64, &mut cs);
    }
    assert(cs@ =~= int_text(n as int));
    string_from_chars(&cs)
}

pub open spec fn is_hex_digit(c: char) -> bool {
    is_dec_digit(c) || (65 <= (c as u32) && (c as u32) <= 70) || (97 <= (c as u32) && (c as u32)
        <= 102)
}

pub open spec fn hex_value(c: char) -> nat {
    if is_dec_digit(c) {
        dec_value(c)
    } else if 65 <= (c as u32) && (c as u32) <= 70 {
        ((c as u32) - 55) as nat
    } else {
        ((c as u32) - 87) as nat
    }
}

/// True when every character of `s` is an ASCII hexadecimal digit (either case).
pub open spec fn all_hex_digits(s: Seq<char>) -> bool {
    forall|i: int| 0 <= i < s.len() ==> is_hex_digit(#[trigger] s[i])
}

/// The number that a run of hexadecimal digits denotes.
pub open spec fn hex_number(s: Seq<char>) -> nat
    decreases s.len(),
{
    if s.len() == 0 {
        0
    } else {
        hex_number(s.drop_last()) * 16 + hex_value(s.last())
    }
}

/// Hexadecimal reading of a `u32` as `u32::from_str_radix(s, 16)` does it:
/// an optional `+`, then one or more hexadecimal digits, with a value that fits.
pub open spec fn parse_hex_u32_spec(s: Seq<char>) -> Option<u32> {
    let body = without_plus(s);
    if body.len() > 0 && all_hex_digits(body) && hex_number(body) <= u32::MAX {
        Some(hex_number(body) as u32)
    } else {
        None
    }
}

proof fn lemma_hex_number_prefix_le(s: Seq<char>, k: int)
    requires
        0 <= k <= s.len(),
    ensures
        hex_number(s.take(k)) <= hex_number(s),
    decreases s.len() - k,
{
    if k < s.len() {
        lemma_hex_number_prefix_le(s, k + 1);
        assert(s.take(k + 1).drop_last() =~= s.take(k));
    } else {
        assert(s.take(k) =~= s);
    }
}

/// Reads a hexadecimal `u32`, as `u32::from_str_radix(s, 16)` does.
pub fn parse_hex_u32(cs: &Vec<char>) -> (res: Option<u32>)
    ensures
        res == parse_hex_u32_spec(cs@),
{
    let n = cs.len();
    let mut i: usize = 0;
    if n > 0 && cs[0] == '+' {
        i = 1;
    }
    let start = i;
    let ghost body = without_plus(cs@);
    assert(body =~= cs@.skip(start as int));
    if start == n {
        return None;
    }
    let mut acc: u32 = 0;
    while i < n
        invariant
            start <= i <= n,
            n == cs@.len(),
            body =~= cs@.skip(start as int),
            body == without_plus(cs@),
            all_hex_digits(body.take(i - start)),
            acc as nat == hex_number(body.take(i - start)),
        decreases n - i,
    {
        let c = cs[i];
        let code = c as u32;
        assert(body.take(i + 1 - start).drop_last() =~= body.take(i - start));
        assert(body[i - start] == c);
        let d: u32;
        if 48 <= code && code <= 57 {
            d = code - 48;
        } else if 65 <= code && code <= 70 {
            d = code - 55;
        } else if 97 <= code && code <= 102 {
            d = code - 87;
        } else {
            assert(!is_hex_digit(body[i - start]));
            assert(!all_hex_digits(body));
            return None;
        }
        assert(body.take(i + 1 - start).last() == c);
        assert(hex_number(body.take(i + 1 - start)) == acc * 16 + d);
        if acc > (u32::MAX - d) / 16 {
            proof {
                lemma_hex_number_prefix_le(body, i + 1 - start);
                assert(acc * 16 + d > u32::MAX) by (nonlinear_arith)
                    requires
                        acc > (u32::MAX - d) / 16,
                        d <= 15,
                ;
            }
            return None;
        }
        acc = acc * 16 + d;
        i = i + 1;
        assert(all_hex_digits(body.take(i - start)));
    }
    assert(body.take(n - start) =~= body);
    Some(acc)
}

/// `s` with every leading `c` taken off, as `trim_start_matches(c)` leaves it.
pub open spec fn strip_leading(s: Seq<char>, c: char) -> Seq<char>
    decreases s.len(),
{
    if s.len() > 0 && s[0] == c {
        strip_leading(s.skip(1), c)
    } else {
        s
    }
}

/// Takes every leading `c` off the characters.
pub fn strip_leading_chars(cs: &Vec<char>, c: char) -> (res: Vec<char>)
    ensures
        res@ == strip_leading(cs@, c),
{
    let n = cs.len();
    let mut i: usize = 0;
    assert(cs@.skip(0) =~= cs@);
    while i < n && cs[i] == c
        invariant
            i <= n,
            n == cs@.len(),
            strip_leading(cs@.skip(i as int), c) == strip_leading(cs@, c),
        decreases n - i,
    {
        assert(cs@.skip(i as int).skip(1) =~= cs@.skip(i + 1));
        i = i + 1;
    }
    let mut res: Vec<char> = Vec::new();
    let mut j: usize = i;
    while j < n
        invariant
            i <= j <= n,
            n == cs@.len(),
            res@ =~= cs@.subrange(i as int, j as int),
        decreases n - j,
    {
        res.push(cs[j]);
        j = j + 1;
    }
    assert(res@ =~= cs@.skip(i as int));
    res
}

/// `true` when `p` stands in `s` starting at position `i`.
pub open spec fn occurs_at(s: Seq<char>, p: Seq<char>, i: int) -> bool {
    0 <= i && i + p.len() <= s.len() && s.subrange(i, i + p.len()) == p
}

/// `true` when `p` stands somewhere in `s`, as `str::contains` answers.
pub open spec fn contains_seq(s: Seq<char>, p: Seq<char>) -> bool {
    exists|i: int| #[trigger] occurs_at(s, p, i)
}

/// Whether `p` stands in `s` starting at position `i`.
pub fn occurs_at_exec(s: &Vec<char>, p: &Vec<char>, i: usize) -> (res: bool)
    ensures
        res == occurs_at(s@, p@, i as int),
{
    if i > s.len() || p.len() > s.len() - i {
        return false;
    }
    let mut k: usize = 0;
    while k < p.len()
        invariant
            k <= p@.len(),
            i + p@.len() <= s@.len(),
            forall|m: int| 0 <= m < k ==> s@[i + m] == p@[m],
        decreases p@.len() - k,
    {
        assert(i + k < s.len());
        if s[i + k] != p[k] {
            assert(s@.subrange(i as int, i + p@.len())[k as int] != p@[k as int]);
            return false;
        }
        k = k + 1;
    }
    assert(s@.subrange(i as int, i + p@.len()) =~= p@);
    true
}

/// Whether `p` stands somewhere in `s`.
pub fn contains_chars(s: &Vec<char>, p: &Vec<char>) -> (res: bool)
    ensures
        res == contains_seq(s@, p@),
{
    if p.len() > s.len() {
        return false;
    }
    let last = s.len() - p.len();
    let mut i: usize = 0;
    while i < last
        invariant
            i <= last,
            last == s@.len() - p@.len(),
            p@.len() <= s@.len(),
            forall|m: int| 0 <= m < i ==> !#[trigger] occurs_at(s@, p@, m),
        decreases last - i,
    {
        if occurs_at_exec(s, p, i) {
            return true;
        }
        i = i + 1;
    }
    if occurs_at_exec(s, p, last) {
        return true;
    }
    assert forall|m: int| !#[trigger] occurs_at(s@, p@, m) by {
        if 0 <= m && m < i {
        }
    }
    false
}

/// Appends every character of `r` to `out`.
pub fn push_all(out: &mut Vec<char>, r: &Vec<char>)
    ensures
        final(out)@ == old(out)@ + r@,
{
    let ghost start = out@;
    let mut k: usize = 0;
    while k < r.len()
        invariant
            k <= r@.len(),
            out@ == start + r@.take(k as int),
        decreases r@.len() - k,
    {
        assert(r@.take(k + 1) =~= r@.take(k as int).push(r@[k as int]));
        out.push(r[k]);
        k = k + 1;
    }
    assert(r@.take(r@.len() as int) =~= r@);
}

/// The text that `str::replace(p, r)` leaves of `s` from position `i` on:
/// scanning left to right, each occurrence of a non-empty `p` that does not
/// overlap an earlier one becomes `r`.
pub open spec fn replace_from(s: Seq<char>, p: Seq<char>, r: Seq<char>, i: int) -> Seq<char>
    decreases s.len() - i,
{
    if i < 0 || i >= s.len() {
        Seq::empty()
    } else if p.len() > 0 && occurs_at(s, p, i) {
        r + replace_from(s, p, r, i + p.len())
    } else {
        seq![s[i]] + replace_from(s, p, r, i + 1)
    }
}

/// `s` with every occurrence of the non-empty `p` replaced by `r`, as `str::replace` does.
pub open spec fn replace_all(s: Seq<char>, p: Seq<char>, r: Seq<char>) -> Seq<char> {
    replace_from(s, p, r, 0)
}

proof fn lemma_replace_from_shift(s: Seq<char>, p: Seq<char>, r: Seq<char>, j: int, m: int)
    requires
        0 <= j <= s.len(),
        0 <= m,
    ensures
        replace_from(s, p, r, j + m) == replace_from(s.skip(j), p, r, m),
    decreases s.len() - (j + m),
{
    let t = s.skip(j);
    if j + m < s.len() {
        if j + m + p.len() <= s.len() {
            assert(s.subrange(j + m, j + m + p.len()) =~= t.subrange(m, m + p.len()));
        }
        assert(occurs_at(s, p, j + m) == occurs_at(t, p, m));
        assert(s[j + m] == t[m]);
        if p.len() > 0 && occurs_at(s, p, j + m) {
            lemma_replace_from_shift(s, p, r, j, m + p.len());
        } else {
            lemma_replace_from_shift(s, p, r, j, m + 1);
        }
    }
}

proof fn lemma_replace_before_first(s: Seq<char>, p: Seq<char>, r: Seq<char>, i: int, k: int)
    requires
        0 <= i <= k,
        k < s.len(),
        forall|q: int| i <= q < k ==> !occurs_at(s, p, q),
    ensures
        replace_from(s, p, r, i) == s.subrange(i, k) + replace_from(s, p, r, k),
    decreases k - i,
{
    if i < k {
        lemma_replace_before_first(s, p, r, i + 1, k);
        assert(!occurs_at(s, p, i));
        assert(replace_from(s, p, r, i) =~= s.subrange(i, k) + replace_from(s, p, r, k));
    } else {
        assert(s.subrange(i, k) =~= Seq::<char>::empty());
    }
}

/// Replacing goes on past the first occurrence: when `p` first occurs in `s` at position
/// `k`, the result is the text before it, then `r`, then the rest of the text after the
/// occurrence with every occurrence of `p` in it replaced in turn.
pub proof fn law_replace_goes_on_after_the_first(s: Seq<char>, p: Seq<char>, r: Seq<char>, k: int)
    requires
        p.len() > 0,
        occurs_at(s, p, k),
        forall|q: int| 0 <= q < k ==> !occurs_at(s, p, q),
    ensures
        replace_all(s, p, r) == s.take(k) + r + replace_all(s.skip(k + p.len()), p, r),
{
    lemma_replace_before_first(s, p, r, 0, k);
    assert(s.subrange(0, k) =~= s.take(k));
    lemma_replace_from_shift(s, p, r, k + p.len(), 0);
    assert(replace_from(s, p, r, k) == r + replace_from(s, p, r, k + p.len()));
}

/// A text without `%` holds no occurrence of a pattern that starts with `%`.
pub proof fn lemma_no_percent(x: Seq<char>, p: Seq<char>)
    requires
        !x.contains('%'),
        p.len() > 0,
        p[0] == '%',
    ensures
        forall|q: int| !#[trigger] occurs_at(x, p, q),
{
    assert forall|q: int| !#[trigger] occurs_at(x, p, q) by {
        if occurs_at(x, p, q) {
            assert(x.subrange(q, q + p.len())[0] == x[q]);
        }
    }
}

/// Every occurrence of a placeholder that starts with `%` is replaced, whatever text without
/// `%` stands around and between them: `a P b P c` becomes `a r b r c`.
pub proof fn law_replace_every_placeholder(
    a: Seq<char>,
    b: Seq<char>,
    c: Seq<char>,
    p: Seq<char>,
    r: Seq<char>,
)
    requires
        p.len() > 0,
        p[0] == '%',
        !a.contains('%'),
        !b.contains('%'),
        !c.contains('%'),
    ensures
        replace_all(a + p + b + p + c, p, r) == a + r + b + r + c,
{
    let s = a + p + b + p + c;
    let t = b + p + c;
    lemma_no_percent(a, p);
    lemma_no_percent(b, p);
    lemma_no_percent(c, p);
    assert forall|q: int| 0 <= q < a.len() implies !occurs_at(s, p, q) by {
        if occurs_at(s, p, q) {
            assert(s.subrange(q, q + p.len())[0] == s[q]);
            assert(s[q] == a[q]);
        }
    }
    assert(s.subrange(a.len() as int, (a.len() + p.len()) as int) =~= p);
    law_replace_goes_on_after_the_first(s, p, r, a.len() as int);
    assert(s.take(a.len() as int) =~= a);
    assert(s.skip((a.len() + p.len()) as int) =~= t);
    assert forall|q: int| 0 <= q < b.len() implies !occurs_at(t, p, q) by {
        if occurs_at(t, p, q) {
            assert(t.subrange(q, q + p.len())[0] == t[q]);
            assert(t[q] == b[q]);
        }
    }
    assert(t.subrange(b.len() as int, (b.len() + p.len()) as int) =~= p);
    law_replace_goes_on_after_the_first(t, p, r, b.len() as int);
    assert(t.take(b.len() as int) =~= b);
    assert(t.skip((b.len() + p.len()) as int) =~= c);
    assert(!contains_seq(c, p));
    law_replace_absent_is_identity(c, p, r);
    assert(replace_all(s, p, r) =~= a + r + b + r + c);
}

/// Replaces every occurrence of the non-empty `p` in `s` by `r`.
pub fn replace_chars(s: &Vec<char>, p: &Vec<char>, r: &Vec<char>) -> (res: Vec<char>)
    requires
        p@.len() > 0,
    ensures
        res@ == replace_all(s@, p@, r@),
{
    let n = s.len();
    let mut res: Vec<char> = Vec::new();
    let mut i: usize = 0;
    while i < n
        invariant
            i <= n,
            n == s@.len(),
            p@.len() > 0,
            res@ + replace_from(s@, p@, r@, i as int) == replace_all(s@, p@, r@),
        decreases n - i,
    {
        if occurs_at_exec(s, p, i) {
            push_all(&mut res, r);
            i = i + p.len();
        } else {
            res.push(s[i]);
            i = i + 1;
        }
    }
    assert(replace_from(s@, p@, r@, i as int) =~= Seq::<char>::empty());
    assert(res@ + Seq::<char>::empty() =~= res@);
    res
}

proof fn lemma_replace_from_absent(s: Seq<char>, p: Seq<char>, r: Seq<char>, i: int)
    requires
        0 <= i <= s.len(),
        !contains_seq(s, p),
    ensures
        replace_from(s, p, r, i) == s.skip(i),
    decreases s.len() - i,
{
    if i < s.len() {
        assert(!occurs_at(s, p, i));
        lemma_replace_from_absent(s, p, r, i + 1);
        assert(s.skip(i) =~= seq![s[i]] + s.skip(i + 1));
    } else {
        assert(s.skip(i) =~= Seq::<char>::empty());
    }
}

/// Replacing a text that does not occur leaves the string as it was.
pub proof fn law_replace_absent_is_identity(s: Seq<char>, p: Seq<char>, r: Seq<char>)
    requires
        !contains_seq(s, p),
    ensures
        replace_all(s, p, r) == s,
{
    lemma_replace_from_absent(s, p, r, 0);
    assert(s.skip(0) =~= s);
}

/// The pieces that `str::split(sep)` cuts `s` into, in order; there is always at least one.
pub open spec fn split_on(s: Seq<char>, sep: char) -> Seq<Seq<char>>
    decreases s.len(),
{
    if s.len() == 0 {
        seq![Seq::<char>::empty()]
    } else {
        let prev = split_on(s.drop_last(), sep);
        if s.last() == sep {
            prev.push(Seq::<char>::empty())
        } else {
            prev.update(prev.len() - 1, prev.last().push(s.last()))
        }
    }
}

proof fn lemma_split_on_nonempty(s: Seq<char>, sep: char)
    ensures
        split_on(s, sep).len() >= 1,
    decreases s.len(),
{
    if s.len() > 0 {
        lemma_split_on_nonempty(s.drop_last(), sep);
    }
}

proof fn lemma_join_extend_last(list: Seq<Seq<char>>, c: char, sep: Seq<char>)
    requires
        list.len() >= 1,
    ensures
        join(list.update(list.len() - 1, list.last().push(c)), sep) == join(list, sep).push(c),
{
    let u = list.update(list.len() - 1, list.last().push(c));
    if list.len() >= 2 {
        assert(u.drop_last() =~= list.drop_last());
        assert(join(u, sep) == join(u.drop_last(), sep) + sep + u.last());
        assert(join(u, sep) =~= join(list, sep).push(c));
    }
}

/// Cutting a text at every `sep` loses nothing: joining the pieces with `sep` gives the text
/// back, and no piece holds `sep`.
pub proof fn law_split_then_join(s: Seq<char>, sep: char)
    ensures
        join(split_on(s, sep), seq![sep]) == s,
        forall|i: int|
            0 <= i < split_on(s, sep).len() ==> !(#[trigger] split_on(s, sep)[i]).contains(sep),
    decreases s.len(),
{
    if s.len() > 0 {
        let t = s.drop_last();
        law_split_then_join(t, sep);
        lemma_split_on_nonempty(t, sep);
        let prev = split_on(t, sep);
        if s.last() == sep {
            assert(prev.push(Seq::<char>::empty()).drop_last() =~= prev);
            assert(join(split_on(s, sep), seq![sep]) =~= s);
            assert forall|i: int| 0 <= i < split_on(s, sep).len() implies !(
            #[trigger] split_on(s, sep)[i]).contains(sep) by {
                if i < prev.len() {
                    assert(split_on(s, sep)[i] == prev[i]);
                } else {
                    assert(split_on(s, sep)[i] =~= Seq::<char>::empty());
                }
            }
        } else {
            lemma_join_extend_last(prev, s.last(), seq![sep]);
            assert(t.push(s.last()) =~= s);
            assert forall|i: int| 0 <= i < split_on(s, sep).len() implies !(
            #[trigger] split_on(s, sep)[i]).contains(sep) by {
                if i < prev.len() - 1 {
                    assert(split_on(s, sep)[i] == prev[i]);
                } else {
                    let piece = split_on(s, sep)[i];
                    assert(piece == prev.last().push(s.last()));
                    if piece.contains(sep) {
                        let k = choose|k: int| 0 <= k < piece.len() && piece[k] == sep;
                        if k < piece.len() - 1 {
                            assert(prev.last()[k] == sep);
                            assert(prev[prev.len() - 1].contains(sep));
                        }
                    }
                }
            }
        }
    }
}

proof fn lemma_trim_start(s: Seq<char>) -> (i: int)
    ensures
        0 <= i <= s.len(),
        trim_start_ws(s) == s.skip(i),
        forall|k: int| 0 <= k < i ==> is_whitespace(#[trigger] s[k]),
        i < s.len() ==> !is_whitespace(s[i]),
    decreases s.len(),
{
    if s.len() > 0 && is_whitespace(s[0]) {
        let j = lemma_trim_start(s.skip(1));
        assert(s.skip(1).skip(j) =~= s.skip(j + 1));
        assert forall|k: int| 0 <= k < j + 1 implies is_whitespace(#[trigger] s[k]) by {
            if k > 0 {
                assert(s[k] == s.skip(1)[k - 1]);
            }
        }
        assert(j + 1 < s.len() ==> s[j + 1] == s.skip(1)[j]);
        j + 1
    } else {
        assert(s.skip(0) =~= s);
        0
    }
}

proof fn lemma_trim_end(s: Seq<char>) -> (j: int)
    ensures
        0 <= j <= s.len(),
        trim_end_ws(s) == s.take(j),
        forall|k: int| j <= k < s.len() ==> is_whitespace(#[trigger] s[k]),
        j > 0 ==> !is_whitespace(s[j - 1]),
    decreases s.len(),
{
    if s.len() > 0 && is_whitespace(s.last()) {
        let j = lemma_trim_end(s.drop_last());
        assert(s.drop_last().take(j) =~= s.take(j));
        assert forall|k: int| j <= k < s.len() implies is_whitespace(#[trigger] s[k]) by {
            if k < s.len() - 1 {
                assert(s[k] == s.drop_last()[k]);
            }
        }
        assert(j > 0 ==> s[j - 1] == s.drop_last()[j - 1]);
        j
    } else {
        assert(s.take(s.len() as int) =~= s);
        s.len() as int
    }
}

/// Trimming takes only white space off, and only at the two ends: the result is a piece of
/// the text, everything before and after it is white space, and it neither starts nor ends
/// with white space.
pub proof fn law_trim_cuts_only_white_space(s: Seq<char>)
    ensures
        exists|i: int, j: int|
            0 <= i <= j <= s.len() && trim_ws(s) == s.subrange(i, j) && (forall|k: int|
                0 <= k < i ==> is_whitespace(#[trigger] s[k])) && (forall|k: int|
                j <= k < s.len() ==> is_whitespace(#[trigger] s[k])),
        trim_ws(s).len() > 0 ==> !is_whitespace(trim_ws(s)[0]) && !is_whitespace(
            trim_ws(s).last(),
        ),
{
    let i = lemma_trim_start(s);
    let t = s.skip(i);
    let j = lemma_trim_end(t);
    assert(trim_ws(s) == t.take(j));
    assert(t.take(j) =~= s.subrange(i, i + j));
    assert forall|k: int| i + j <= k < s.len() implies is_whitespace(#[trigger] s[k]) by {
        assert(s[k] == t[k - i]);
    }
    if j > 0 {
        assert(trim_ws(s)[0] == s[i]);
        assert(trim_ws(s).last() == t[j - 1]);
    }
    assert(0 <= i <= i + j <= s.len() && trim_ws(s) == s.subrange(i, i + j) && (forall|k: int|
        0 <= k < i ==> is_whitespace(#[trigger] s[k])) && (forall|k: int|
        i + j <= k < s.len() ==> is_whitespace(#[trigger] s[k])));
}

/// The views of a sequence of character vectors.
pub open spec fn views(v: Seq<Vec<char>>) -> Seq<Seq<char>> {
    v.map_values(|x: Vec<char>| x@)
}

/// Cuts `s` at every `sep`, as `str::split(sep)` does.
pub fn split_chars(s: &Vec<char>, sep: char) -> (res: Vec<Vec<char>>)
    ensures
        views(res@) == split_on(s@, sep),
{
    let n = s.len();
    let mut parts: Vec<Vec<char>> = Vec::new();
    let mut cur: Vec<char> = Vec::new();
    let mut i: usize = 0;
    while i < n
        invariant
            i <= n,
            n == s@.len(),
            views(parts@).push(cur@) == split_on(s@.take(i as int), sep),
        decreases n - i,
    {
        let c = s[i];
        let ghost prev = split_on(s@.take(i as int), sep);
        assert(s@.take(i + 1).drop_last() =~= s@.take(i as int));
        assert(s@.take(i + 1).last() == c);
        proof {
            lemma_split_on_nonempty(s@.take(i as int), sep);
        }
        if c == sep {
            let done = cur;
            parts.push(done);
            cur = Vec::new();
            assert(views(parts@).push(cur@) =~= prev.push(Seq::<char>::empty()));
        } else {
            cur.push(c);
            assert(views(parts@).push(cur@) =~= prev.update(prev.len() - 1, prev.last().push(c)));
        }
        i = i + 1;
    }
    assert(s@.take(n as int) =~= s@);
    parts.push(cur);
    assert(views(parts@) =~= split_on(s@, sep));
    parts
}

/// Unicode `White_Space`, the characters for which `char::is_whitespace` holds.
pub open spec fn is_whitespace(c: char) -> bool {
    let u = c as u32;
    (9 <= u && u <= 13) || u == 32 || u == 0x85 || u == 0xA0 || u == 0x1680 || (0x2000 <= u && u
        <= 0x200A) || u == 0x2028 || u == 0x2029 || u == 0x202F || u == 0x205F || u == 0x3000
}

/// Whether `c` is Unicode white space, as `char::is_whitespace` answers.
pub fn is_whitespace_exec(c: char) -> (res: bool)
    ensures
        res == is_whitespace(c),
{
    let u = c as u32;
    (9 <= u && u <= 13) || u == 32 || u == 0x85 || u == 0xA0 || u == 0x1680 || (0x2000 <= u && u
        <= 0x200A) || u == 0x2028 || u == 0x2029 || u == 0x202F || u == 0x205F || u == 0x3000
}

pub open spec fn trim_start_ws(s: Seq<char>) -> Seq<char>
    decreases s.len(),
{
    if s.len() > 0 && is_whitespace(s[0]) {
        trim_start_ws(s.skip(1))
    } else {
        s
    }
}

pub open spec fn trim_end_ws(s: Seq<char>) -> Seq<char>
    decreases s.len(),
{
    if s.len() > 0 && is_whitespace(s.last()) {
        trim_end_ws(s.drop_last())
    } else {
        s
    }
}

/// `s` without leading and trailing white space, as `str::trim` leaves it.
pub open spec fn trim_ws(s: Seq<char>) -> Seq<char> {
    trim_end_ws(trim_start_ws(s))
}

/// Takes leading and trailing white space off, as `str::trim` does.
pub fn trim_chars(s: &Vec<char>) -> (res: Vec<char>)
    ensures
        res@ == trim_ws(s@),
{
    let n = s.len();
    let mut i: usize = 0;
    assert(s@.skip(0) =~= s@);
    while i < n && is_whitespace_exec(s[i])
        invariant
            i <= n,
            n == s@.len(),
            trim_start_ws(s@.skip(i as int)) == trim_start_ws(s@),
        decreases n - i,
    {
        assert(s@.skip(i as int).skip(1) =~= s@.skip(i + 1));
        i = i + 1;
    }
    let ghost t = s@.skip(i as int);
    assert(trim_start_ws(t) == t);
    let mut j: usize = n;
    assert(t.take(t.len() as int) =~= t);
    while j > i && is_whitespace_exec(s[j - 1])
        invariant
            i <= j <= n,
            n == s@.len(),
            t == s@.skip(i as int),
            trim_end_ws(t.take(j - i)) == trim_end_ws(t),
        decreases j,
    {
        assert(t.take(j - i).drop_last() =~= t.take(j - 1 - i));
        assert(t.take(j - i).last() == s@[j - 1]);
        j = j - 1;
    }
    assert(trim_end_ws(t.take(j - i)) == t.take(j - i)) by {
        if j > i {
            assert(t.take(j - i).last() == s@[j - 1]);
        }
    }
    let mut res: Vec<char> = Vec::new();
    let mut k: usize = i;
    while k < j
        invariant
            i <= k <= j <= n,
            n == s@.len(),
            res@ =~= s@.subrange(i as int, k as int),
        decreases j - k,
    {
        res.push(s[k]);
        k = k + 1;
    }
    assert(res@ =~= t.take(j - i));
    res
}

/// The words found so far in `s`, and the word still being read at its end.
pub open spec fn words_state(s: Seq<char>) -> (Seq<Seq<char>>, Seq<char>)
    decreases s.len(),
{
    if s.len() == 0 {
        (Seq::empty(), Seq::empty())
    } else {
        let prev = words_state(s.drop_last());
        if is_whitespace(s.last()) {
            if prev.1.len() > 0 {
                (prev.0.push(prev.1), Seq::empty())
            } else {
                prev
            }
        } else {
            (prev.0, prev.1.push(s.last()))
        }
    }
}

/// The runs of non-white-space characters of `s`, in order, as `str::split_whitespace` yields them.
pub open spec fn words(s: Seq<char>) -> Seq<Seq<char>> {
    let st = words_state(s);
    if st.1.len() > 0 {
        st.0.push(st.1)
    } else {
        st.0
    }
}

/// Cuts `s` into its words, as `str::split_whitespace` does.
pub fn words_chars(s: &Vec<char>) -> (res: Vec<Vec<char>>)
    ensures
        views(res@) == words(s@),
{
    let n = s.len();
    let mut done: Vec<Vec<char>> = Vec::new();
    let mut cur: Vec<char> = Vec::new();
    let mut i: usize = 0;
    while i < n
        invariant
            i <= n,
            n == s@.len(),
            (views(done@), cur@) == words_state(s@.take(i as int)),
        decreases n - i,
    {
        let c = s[i];
        assert(s@.take(i + 1).drop_last() =~= s@.take(i as int));
        assert(s@.take(i + 1).last() == c);
        if is_whitespace_exec(c) {
            if cur.len() > 0 {
                let w = cur;
                done.push(w);
                cur = Vec::new();
                assert(cur@ =~= Seq::<char>::empty());
            }
        } else {
            cur.push(c);
        }
        assert(views(done@) =~= words_state(s@.take(i + 1)).0);
        i = i + 1;
    }
    assert(s@.take(n as int) =~= s@);
    if cur.len() > 0 {
        done.push(cur);
    }
    assert(views(done@) =~= words(s@));
    done
}

/// What `s` starts with up to (not including) its first space; all of `s` when it has none.
/// This is the first piece that `str::splitn(2, ' ')` yields.
pub open spec fn before_space(s: Seq<char>) -> Seq<char>
    decreases s.len(),
{
    if s.len() == 0 {
        s
    } else if s[0] == ' ' {
        Seq::empty()
    } else {
        seq![s[0]] + before_space(s.skip(1))
    }
}

/// The characters of `s` before its first space.
pub fn before_space_chars(s: &Vec<char>) -> (res: Vec<char>)
    ensures
        res@ == before_space(s@),
{
    let n = s.len();
    let mut res: Vec<char> = Vec::new();
    let mut i: usize = 0;
    assert(s@.skip(0) =~= s@);
    while i < n && s[i] != ' '
        invariant
            i <= n,
            n == s@.len(),
            res@ == s@.take(i as int),
            before_space(s@) == res@ + before_space(s@.skip(i as int)),
        decreases n - i,
    {
        let ghost rest = s@.skip(i as int);
        assert(rest.skip(1) =~= s@.skip(i + 1));
        assert(rest[0] == s@[i as int]);
        res.push(s[i]);
        assert(res@ =~= s@.take(i + 1));
        i = i + 1;
    }
    assert(before_space(s@.skip(i as int)) =~= Seq::<char>::empty());
    assert(res@ + Seq::<char>::empty() =~= res@);
    res
}

/// `true` when `s` begins with `p`.
pub open spec fn has_prefix(s: Seq<char>, p: Seq<char>) -> bool {
    p.len() <= s.len() && s.take(p.len() as int) == p
}

/// `true` when `s` ends with `p`, as `str::ends_with` answers.
pub open spec fn ends_with(s: Seq<char>, p: Seq<char>) -> bool {
    p.len() <= s.len() && s.skip(s.len() - p.len()) == p
}

/// A text ends with what was appended last.
pub proof fn lemma_ends_with_appended(a: Seq<char>, p: Seq<char>)
    ensures
        ends_with(a + p, p),
{
    assert((a + p).skip((a + p).len() - p.len()) =~= p);
}

/// What follows `p` in `s` when `s` begins with it, as `str::strip_prefix` answers.
pub open spec fn strip_prefix_spec(s: Seq<char>, p: Seq<char>) -> Option<Seq<char>> {
    if has_prefix(s, p) {
        Some(s.skip(p.len() as int))
    } else {
        None
    }
}

/// Whether `s` begins with `p`.
pub fn starts_with_chars(s: &Vec<char>, p: &Vec<char>) -> (res: bool)
    ensures
        res == has_prefix(s@, p@),
{
    let r = occurs_at_exec(s, p, 0);
    proof {
        if has_prefix(s@, p@) {
            assert(s@.subrange(0, p@.len() as int) =~= s@.take(p@.len() as int));
        }
        if r {
            assert(s@.subrange(0, p@.len() as int) =~= s@.take(p@.len() as int));
        }
    }
    r
}

/// The rest of `s` after `p` when `s` begins with `p`.
pub fn strip_prefix_chars(s: &Vec<char>, p: &Vec<char>) -> (res: Option<Vec<char>>)
    ensures
        match res {
            Some(v) => strip_prefix_spec(s@, p@) == Some(v@),
            None => strip_prefix_spec(s@, p@) is None,
        },
{
    if !starts_with_chars(s, p) {
        return None;
    }
    let n = s.len();
    let mut res: Vec<char> = Vec::new();
    let mut k: usize = p.len();
    while k < n
        invariant
            p@.len() <= k <= n,
            n == s@.len(),
            res@ =~= s@.subrange(p@.len() as int, k as int),
        decreases n - k,
    {
        res.push(s[k]);
        k = k + 1;
    }
    assert(res@ =~= s@.skip(p@.len() as int));
    Some(res)
}

/// Appends every character of the string slice `s` to `out`.
pub fn push_str(out: &mut Vec<char>, s: &str)
    ensures
        final(out)@ == old(out)@ + s@,
{
    let cs = chars_of(s);
    push_all(out, &cs);
}

/// Appends the decimal digits of `n` to `out`.
pub fn push_u64(out: &mut Vec<char>, n: u64)
    ensures
        final(out)@ == old(out)@ + dec_digits(n as nat),
{
    push_dec(n, out);
}

/// Appends the decimal text of the signed number `n` to `out`.
pub fn push_i64(out: &mut Vec<char>, n: i64)
    ensures
        final(out)@ == old(out)@ + int_text(n as int),
{
    let ghost start = out@;
    if n < 0 {
        out.push('-');
        let m: u64 = (-(n as i128)) as u64;
        push_dec(m, out);
    } else {
        push_dec(n as u64, out);
    }
    assert(out@ =~= start + int_text(n as int));
}

/// How Discord text mentions a user: `<@`, the user's id, `>`.
pub open spec fn mention_text(id: u64) -> Seq<char> {
    "<@"@ + dec_digits(id as nat) + ">"@
}

/// A mention holds no `%`.
pub proof fn lemma_mention_has_no_percent(id: u64)
    ensures
        !mention_text(id).contains('%'),
{
    lemma_dec_digits(id as nat);
    let m = mention_text(id);
    let d = dec_digits(id as nat);
    reveal_strlit("<@");
    reveal_strlit(">");
    assert forall|i: int| 0 <= i < m.len() implies m[i] != '%' by {
        if 2 <= i < 2 + d.len() {
            assert(m[i] == d[i - 2]);
            assert(is_dec_digit(d[i - 2]));
        }
    }
}

/// Appends the mention of user `id` to `out`.
pub fn push_mention(out: &mut Vec<char>, id: u64)
    ensures
        final(out)@ == old(out)@ + mention_text(id),
{
    let ghost start = out@;
    push_str(out, "<@");
    push_u64(out, id);
    push_str(out, ">");
    assert(out@ =~= start + mention_text(id));
}

/// Whether two runs of characters are the same.
pub fn chars_equal(a: &Vec<char>, b: &Vec<char>) -> (res: bool)
    ensures
        res == (a@ == b@),
{
    if a.len() != b.len() {
        return false;
    }
    let mut k: usize = 0;
    while k < a.len()
        invariant
            k <= a@.len(),
            a@.len() == b@.len(),
            forall|m: int| 0 <= m < k ==> a@[m] == b@[m],
        decreases a@.len() - k,
    {
        if a[k] != b[k] {
            return false;
        }
        k = k + 1;
    }
    assert(a@ =~= b@);
    true
}

/// Whether two strings hold the same characters.
pub fn str_eq(a: &str, b: &str) -> (res: bool)
    ensures
        res == (a@ == b@),
{
    let x = chars_of(a);
    let y = chars_of(b);
    chars_equal(&x, &y)
}

/// The lower-case form of a text, as `str::to_lowercase` gives it.
pub uninterp spec fn lowercase(s: Seq<char>) -> Seq<char>;

/// Lower-cases a text by calling `str::to_lowercase`. Its contract claims only
/// that the result is a function of the text; the Unicode case mapping itself is
/// not stated.
#[verifier::external_body]
pub(crate) fn to_lowercase(s: &str) -> (res: String)
    ensures
        res@ == lowercase(s@),
{
    s.to_lowercase()
}

/// The pieces of `list` with `sep` between each two neighbours.
pub open spec fn join(list: Seq<Seq<char>>, sep: Seq<char>) -> Seq<char>
    decreases list.len(),
{
    if list.len() == 0 {
        Seq::empty()
    } else if list.len() == 1 {
        list[0]
    } else {
        join(list.drop_last(), sep) + sep + list.last()
    }
}

/// Joins the pieces with `sep` between each two neighbours, as `[String]::join` does.
pub fn join_chars(list: &Vec<Vec<char>>, sep: &Vec<char>) -> (res: Vec<char>)
    ensures
        res@ == join(views(list@), sep@),
{
    let mut res: Vec<char> = Vec::new();
    let n = list.len();
    let mut i: usize = 0;
    while i < n
        invariant
            i <= n,
            n == list@.len(),
            res@ == join(views(list@).take(i as int), sep@),
        decreases n - i,
    {
        let ghost before = views(list@).take(i as int);
        assert(views(list@).take(i + 1).drop_last() =~= before);
        assert(views(list@).take(i + 1).last() == list@[i as int]@);
        if i > 0 {
            push_all(&mut res, sep);
        } else {
            assert(views(list@).take(1) =~= seq![list@[0]@]);
        }
        push_all(&mut res, &list[i]);
        i = i + 1;
    }
    assert(views(list@).take(n as int) =~= views(list@));
    res
}

} // verus!
