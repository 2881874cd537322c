use vstd::prelude::*;
use vstd::utf8::{decode_utf8, encode_utf8, encode_utf8_decode_utf8, valid_utf8};

verus! {

/// `String::push` appends the one character to the end of the string and
/// leaves what was there in place.
pub assume_specification[ String::push ](s: &mut String, c: char)
    ensures
        final(s)@ == old(s)@.push(c),
;

/// The error of `core::str::from_utf8`; nothing of its inside is seen here.
#[verifier::external_type_specification]
#[verifier::external_body]
pub struct ExUtf8Error(core::str::Utf8Error);

/// `core::str::from_utf8` accepts exactly the byte strings that are valid
/// UTF-8, and the text it hands out is made of the very bytes it was given.
pub assume_specification[ core::str::from_utf8 ](v: &[u8]) -> (r: Result<
    &str,
    core::str::Utf8Error,
>)
    ensures
        r is Ok <==> valid_utf8(v@),
        r matches Ok(s) ==> encode_utf8(s@) == v@,
;

/// The text of a line of bytes that is valid UTF-8.
pub fn text_of(line: &[u8]) -> (r: Option<&str>)
    ensures
        r is Some <==> valid_utf8(line@),
        r matches Some(s) ==> s@ == decode_utf8(line@),
{
    match core::str::from_utf8(line) {
        Ok(s) => {
            proof {
                encode_utf8_decode_utf8(s@);
            }
            Some(s)
        },
        Err(_) => None,
    }
}

/// The character that writes the digit `d`.
pub open spec fn digit_char(d: nat) -> char
    recommends
        d < 10,
{
    if d == 0 {
        '0'
    } else if d == 1 {
        '1'
    } else if d == 2 {
        '2'
    } else if d == 3 {
        '3'
    } else if d == 4 {
        '4'
    } else if d == 5 {
        '5'
    } else if d == 6 {
        '6'
    } else if d == 7 {
        '7'
    } else if d == 8 {
        '8'
    } else {
        '9'
    }
}

/// The decimal numeral of `n`, without sign or leading zeros.
pub open spec fn decimal(n: nat) -> Seq<char>
    decreases n,
{
    if n < 10 {
        seq![digit_char(n)]
    } else {
        decimal(n / 10).push(digit_char(n % 10))
    }
}

/// The decimal numeral of an integer: a minus sign in front of a negative one.
pub open spec fn signed_decimal(n: int) -> Seq<char> {
    if n < 0 {
        seq!['-'] + decimal((-n) as nat)
    } else {
        decimal(n as nat)
    }
}

/// The numeral of `n` with a comma between each group of three digits,
/// counted from the right.
pub open spec fn grouped_decimal(n: nat) -> Seq<char>
    decreases n,
{
    if n < 1000 {
        decimal(n)
    } else {
        grouped_decimal(n / 1000).push(',') + three_digits(n % 1000)
    }
}

/// The three digits of a number below a thousand, leading zeros included.
pub open spec fn three_digits(k: nat) -> Seq<char>
    recommends
        k < 1000,
{
    seq![digit_char(k / 100), digit_char((k / 10) % 10), digit_char(k % 10)]
}

/// The character that writes the digit `d`.
pub(crate) fn digit_of(d: u8) -> (c: char)
    requires
        d < 10,
    ensures
        c == digit_char(d as nat),
{
    if d == 0 {
        '0'
    } else if d == 1 {
        '1'
    } else if d == 2 {
        '2'
    } else if d == 3 {
        '3'
    } else if d == 4 {
        '4'
    } else if d == 5 {
        '5'
    } else if d == 6 {
        '6'
    } else if d == 7 {
        '7'
    } else if d == 8 {
        '8'
    } else {
        '9'
    }
}

/// Appends the decimal numeral of `n` to `out`.
pub fn push_decimal(out: &mut String, n: u128)
    ensures
        final(out)@ == old(out)@ + decimal(n as nat),
    decreases n,
{
    if n >= 10 {
        push_decimal(out, n / 10);
    }
    let d: u8 = (n % 10) as u8;
    out.push(digit_of(d));
    assert(final(out)@ =~= old(out)@ + decimal(n as nat));
}

/// Appends the decimal numeral of a signed integer to `out`.
pub fn push_signed_decimal(out: &mut String, n: i64)
    ensures
        final(out)@ == old(out)@ + signed_decimal(n as int),
{
    if n < 0 {
        out.push('-');
        let magnitude: u128 = (-(n as i128)) as u128;
        push_decimal(out, magnitude);
        assert(final(out)@ =~= old(out)@ + signed_decimal(n as int));
    } else {
        push_decimal(out, n as u128);
    }
}

/// Appends the three digits of a number below a thousand to `out`.
pub(crate) fn push_three_digits(out: &mut String, k: u16)
    requires
        k < 1000,
    ensures
        final(out)@ == old(out)@ + three_digits(k as nat),
{
    out.push(digit_of((k / 100) as u8));
    out.push(digit_of(((k / 10) % 10) as u8));
    out.push(digit_of((k % 10) as u8));
    assert(final(out)@ =~= old(out)@ + three_digits(k as nat));
}

fn push_grouped(out: &mut String, n: u64)
    ensures
        final(out)@ == old(out)@ + grouped_decimal(n as nat),
    decreases n,
{
    if n < 1000 {
        push_decimal(out, n as u128);
    } else {
        push_grouped(out, n / 1000);
        out.push(',');
        let ghost head = out@;
        push_three_digits(out, (n % 1000) as u16);
        assert(head == (old(out)@ + grouped_decimal((n / 1000) as nat)).push(','));
        assert(final(out)@ =~= old(out)@ + (grouped_decimal((n / 1000) as nat).push(',')
            + three_digits((n % 1000) as nat)));
    }
}

/// The numeral of `n` with thousands separators: `1234567` reads `1,234,567`.
pub fn commas(n: u64) -> (s: String)
    ensures
        s@ == grouped_decimal(n as nat),
{
    let mut s = String::new();
    push_grouped(&mut s, n);
    assert(s@ =~= grouped_decimal(n as nat));
    s
}

/// The character is one of `0` to `9`.
pub open spec fn is_digit(c: char) -> bool {
    '0' <= c <= '9'
}

/// The value of a digit; zero for any other character.
pub open spec fn digit_value(c: char) -> nat {
    if is_digit(c) {
        (c as u32 - '0' as u32) as nat
    } else {
        0
    }
}

/// Every character is one of `0` to `9`.
pub open spec fn all_digits(s: Seq<char>) -> bool
    decreases s.len(),
{
    s.len() == 0 || (all_digits(s.drop_last()) && is_digit(s.last()))
}

/// The number that a run of digits writes in base ten.
pub open spec fn numeral_value(s: Seq<char>) -> nat
    decreases s.len(),
{
    if s.len() == 0 {
        0
    } else {
        numeral_value(s.drop_last()) * 10 + digit_value(s.last())
    }
}

/// The text without any occurrence of the separator.
pub open spec fn without(s: Seq<char>, separator: char) -> Seq<char>
    decreases s.len(),
{
    if s.len() == 0 {
        Seq::empty()
    } else if s.last() == separator {
        without(s.drop_last(), separator)
    } else {
        without(s.drop_last(), separator).push(s.last())
    }
}

/// The number that a text writes: it is made of digits only, at least one,
/// and the number fits in 64 bits. Any other text writes none.
pub open spec fn parsed_number(s: Seq<char>) -> Option<u64> {
    if s.len() > 0 && all_digits(s) && numeral_value(s) <= u64::MAX {
        Some(numeral_value(s) as u64)
    } else {
        None
    }
}

/// The number that a text writes once its grouping separators are taken out.
pub open spec fn grouped_number(s: Seq<char>, separator: char) -> Option<u64> {
    parsed_number(without(s, separator))
}

/// The value of the character where it is a digit.
pub fn digit_in(c: char) -> (d: Option<u64>)
    ensures
        d is Some == is_digit(c),
        d matches Some(v) ==> v == digit_value(c),
{
    let code: u32 = c as u32;
    if 48 <= code && code <= 57 {
        Some((code - 48) as u64)
    } else {
        None
    }
}

/// Reads a number whose digits may be grouped by a separator.
pub fn parse_grouped_number(s: &str, separator: char) -> (r: Option<u64>)
    ensures
        r == grouped_number(s@, separator),
{
    let mut value: u64 = 0;
    let mut any: bool = false;
    let mut readable: bool = true;
    for c in it: s.chars()
        invariant
            it.seq() == s@,
            any == (without(s@.take(it.index() as int), separator).len() > 0),
            readable == (all_digits(without(s@.take(it.index() as int), separator))
                && numeral_value(without(s@.take(it.index() as int), separator)) <= u64::MAX),
            readable ==> value == numeral_value(without(s@.take(it.index() as int), separator)),
    {
        let ghost k = it.index() as int;
        let ghost before = without(s@.take(k), separator);
        proof {
            assert(s@.take(k + 1).drop_last() =~= s@.take(k));
            assert(s@.take(k + 1).last() == c);
        }
        if c != separator {
            proof {
                let after = without(s@.take(k + 1), separator);
                assert(after == before.push(c));
                assert(after.drop_last() =~= before);
                assert(after.last() == c);
                assert(numeral_value(after) == numeral_value(before) * 10 + digit_value(c));
            }
            any = true;
            if readable {
                match digit_in(c) {
                    Some(d) => {
                        if value > (u64::MAX - d) / 10 {
                            readable = false;
                        } else {
                            value = value * 10 + d;
                        }
                    },
                    None => {
                        readable = false;
                    },
                }
            }
        }
    }
    assert(s@.take(s@.len() as int) =~= s@);
    if any && readable {
        Some(value)
    } else {
        None
    }
}

/// The upper-case form of an ASCII letter; any other character unchanged.
pub open spec fn ascii_upper(c: char) -> char {
    if 'a' <= c <= 'z' {
        ((c as u32) - 32) as char
    } else {
        c
    }
}

/// The text with each ASCII letter in upper case.
pub open spec fn ascii_upper_text(s: Seq<char>) -> Seq<char> {
    Seq::new(s.len(), |i: int| ascii_upper(s[i]))
}

fn upper_is(c: char, k: char) -> (b: bool)
    ensures
        b == (ascii_upper(c) == k),
{
    let code: u32 = c as u32;
    let wanted: u32 = k as u32;
    if 97 <= code && code <= 122 {
        code - 32 == wanted
    } else {
        code == wanted
    }
}

/// The characters of `s`, in order.
pub fn chars_of(s: &str) -> (v: Vec<char>)
    ensures
        v@ == s@,
{
    let mut v: Vec<char> = Vec::new();
    for c in it: s.chars()
        invariant
            it.seq() == s@,
            v@ == s@.take(it.index() as int),
    {
        v.push(c);
    }
    v
}

/// Whether `text`, with its ASCII letters put in upper case, reads `upper`.
pub fn reads_as_upper(text: &str, upper: &str) -> (b: bool)
    ensures
        b == (ascii_upper_text(text@) == upper@),
{
    let given = chars_of(text);
    let wanted = chars_of(upper);
    if given.len() != wanted.len() {
        assert(ascii_upper_text(text@).len() != upper@.len());
        return false;
    }
    let mut i: usize = 0;
    while i < given.len()
        invariant
            i <= given.len(),
            given@ == text@,
            wanted@ == upper@,
            given.len() == wanted.len(),
            forall|j: int| 0 <= j < i ==> ascii_upper(text@[j]) == upper@[j],
        decreases given.len() - i,
    {
        if !upper_is(given[i], wanted[i]) {
            assert(ascii_upper_text(text@)[i as int] != upper@[i as int]);
            return false;
        }
        i += 1;
    }
    assert(ascii_upper_text(text@) =~= upper@);
    true
}

/// The characters that count as white space: the Unicode property
/// `White_Space`.
pub open spec fn is_space(c: char) -> bool {
    let u = c as u32;
    ||| 0x09 <= u <= 0x0d
    ||| u == 0x20
    ||| u == 0x85
    ||| u == 0xa0
    ||| u == 0x1680
    ||| 0x2000 <= u <= 0x200a
    ||| u == 0x2028
    ||| u == 0x2029
    ||| u == 0x202f
    ||| u == 0x205f
    ||| u == 0x3000
}

/// The text from its first character that is no white space.
pub open spec fn trim_start(s: Seq<char>) -> Seq<char>
    decreases s.len(),
{
    if s.len() > 0 && is_space(s[0]) {
        trim_start(s.drop_first())
    } else {
        s
    }
}

/// The text up to its last character that is no white space.
pub open spec fn trim_end(s: Seq<char>) -> Seq<char>
    decreases s.len(),
{
    if s.len() > 0 && is_space(s.last()) {
        trim_end(s.drop_last())
    } else {
        s
    }
}

/// The text without the white space at its two ends.
pub open spec fn trimmed(s: Seq<char>) -> Seq<char> {
    trim_end(trim_start(s))
}

/// Whether the character counts as white space.
pub fn is_space_char(c: char) -> (b: bool)
    ensures
        b == is_space(c),
{
    let u: u32 = c as u32;
    (0x09 <= u && u <= 0x0d) || u == 0x20 || u == 0x85 || u == 0xa0 || u == 0x1680 || (0x2000 <= u
        && u <= 0x200a) || u == 0x2028 || u == 0x2029 || u == 0x202f || u == 0x205f || u == 0x3000
}

/// The text without the white space at its two ends.
pub fn trim(s: &str) -> (r: String)
    ensures
        r@ == trimmed(s@),
{
    let v = chars_of(s);
    let n = v.len();
    let mut start: usize = 0;
    assert(s@.skip(0) =~= s@);
    while start < n && is_space_char(v[start])
        invariant
            start <= n,
            n == v.len(),
            v@ == s@,
            trim_start(s@) == trim_start(s@.skip(start as int)),
        decreases n - start,
    {
        assert(s@.skip(start as int).drop_first() =~= s@.skip(start + 1));
        start += 1;
    }
    let ghost rest = s@.skip(start as int);
    assert(trim_start(s@) == rest);
    let mut end: usize = n;
    assert(rest.take(n - start) =~= rest);
    while end > start && is_space_char(v[end - 1])
        invariant
            start <= end <= n,
            n == v.len(),
            v@ == s@,
            rest == s@.skip(start as int),
            trim_end(rest) == trim_end(rest.take(end - start)),
        decreases end,
    {
        assert(rest.take(end - start).drop_last() =~= rest.take(end - start - 1));
        end -= 1;
    }
    assert(trim_end(rest) == rest.take(end - start));
    let mut r = String::new();
    let mut i: usize = start;
    while i < end
        invariant
            start <= i <= end <= n,
            n == v.len(),
            v@ == s@,
            r@ == s@.subrange(start as int, i as int),
        decreases end - i,
    {
        r.push(v[i]);
        assert(r@ =~= s@.subrange(start as int, i + 1));
        i += 1;
    }
    assert(r@ =~= rest.take(end - start));
    r
}

/// Whether one byte string stands before another in lexicographic order.
pub open spec fn bytes_precede(a: Seq<u8>, b: Seq<u8>) -> bool
    decreases a.len(),
{
    if b.len() == 0 {
        false
    } else if a.len() == 0 {
        true
    } else if a[0] != b[0] {
        a[0] < b[0]
    } else {
        bytes_precede(a.drop_first(), b.drop_first())
    }
}

/// Whether one text stands before another: the order of their UTF-8
/// bytes, which is the order of `str`.
pub open spec fn text_precedes(a: Seq<char>, b: Seq<char>) -> bool {
    bytes_precede(encode_utf8(a), encode_utf8(b))
}

/// Whether `a` stands before `b` in the order of `str`.
pub fn precedes(a: &str, b: &str) -> (r: bool)
    ensures
        r == text_precedes(a@, b@),
{
    let x = a.as_bytes();
    let y = b.as_bytes();
    let mut i: usize = 0;
    assert(x@.skip(0) =~= x@);
    assert(y@.skip(0) =~= y@);
    while i < x.len() && i < y.len()
        invariant
            i <= x.len(),
            i <= y.len(),
            x@ == encode_utf8(a@),
            y@ == encode_utf8(b@),
            bytes_precede(x@, y@) == bytes_precede(x@.skip(i as int), y@.skip(i as int)),
        decreases x.len() - i,
    {
        if x[i] != y[i] {
            return x[i] < y[i];
        }
        assert(x@.skip(i as int).drop_first() =~= x@.skip(i + 1));
        assert(y@.skip(i as int).drop_first() =~= y@.skip(i + 1));
        i += 1;
    }
    i < y.len()
}

/// Where `b` does not stand before `a`, nor `c` before `b`, `c` does not
/// stand before `a`.
pub proof fn lemma_bytes_order_transitive(a: Seq<u8>, b: Seq<u8>, c: Seq<u8>)
    requires
        !bytes_precede(b, a),
        !bytes_precede(c, b),
    ensures
        !bytes_precede(c, a),
    decreases a.len(),
{
    if a.len() > 0 && b.len() > 0 && c.len() > 0 {
        if a[0] == b[0] && b[0] == c[0] {
            lemma_bytes_order_transitive(a.drop_first(), b.drop_first(), c.drop_first());
        }
    }
}

/// No byte string stands before itself.
pub proof fn lemma_bytes_order_irreflexive(a: Seq<u8>)
    ensures
        !bytes_precede(a, a),
    decreases a.len(),
{
    if a.len() > 0 {
        lemma_bytes_order_irreflexive(a.drop_first());
    }
}

/// Of two byte strings at most one stands before the other.
pub proof fn lemma_bytes_order_asymmetric(a: Seq<u8>, b: Seq<u8>)
    requires
        bytes_precede(a, b),
    ensures
        !bytes_precede(b, a),
    decreases a.len(),
{
    if a.len() > 0 && b.len() > 0 && a[0] == b[0] {
        lemma_bytes_order_asymmetric(a.drop_first(), b.drop_first());
    }
}

/// Of two different byte strings one stands before the other.
pub proof fn lemma_bytes_order_total(a: Seq<u8>, b: Seq<u8>)
    requires
        a != b,
    ensures
        bytes_precede(a, b) || bytes_precede(b, a),
    decreases a.len(),
{
    if a.len() == 0 || b.len() == 0 {
        if a.len() == 0 && b.len() == 0 {
            assert(a =~= b);
        }
    } else if a[0] == b[0] {
        if a.drop_first() == b.drop_first() {
            assert(a =~= seq![a[0]] + a.drop_first());
            assert(b =~= seq![b[0]] + b.drop_first());
        }
        lemma_bytes_order_total(a.drop_first(), b.drop_first());
    }
}

/// Of two different texts one stands before the other.
pub proof fn lemma_text_order_total(a: Seq<char>, b: Seq<char>)
    requires
        a != b,
    ensures
        text_precedes(a, b) || text_precedes(b, a),
{
    encode_utf8_decode_utf8(a);
    encode_utf8_decode_utf8(b);
    lemma_bytes_order_total(encode_utf8(a), encode_utf8(b));
}

/// The order of texts passes along a chain.
pub proof fn lemma_text_order_chain(a: Seq<char>, b: Seq<char>, c: Seq<char>)
    requires
        text_precedes(a, b),
        text_precedes(b, c),
    ensures
        text_precedes(a, c),
{
    let x = encode_utf8(a);
    let y = encode_utf8(b);
    let z = encode_utf8(c);
    lemma_bytes_order_asymmetric(x, y);
    if !bytes_precede(x, z) {
        lemma_bytes_order_transitive(z, x, y);
    }
}

/// No text stands before itself.
pub proof fn lemma_text_order_irreflexive(a: Seq<char>)
    ensures
        !text_precedes(a, a),
{
    lemma_bytes_order_irreflexive(encode_utf8(a));
}

} // verus!
