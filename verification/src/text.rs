//! Character-level building blocks shared by the parsers: Unicode white space,
//! trimming, splitting on a separator, prefix tests and decimal rendering.

use vstd::prelude::*;

verus! {

/// The Unicode `White_Space` property, which is what `char::is_whitespace`
/// (and therefore `str::trim`) tests.
pub open spec fn is_space(c: char) -> bool {
    ||| '\t' <= c <= '\r'
    ||| c == ' '
    ||| c == '\u{85}'
    ||| c == '\u{a0}'
    ||| c == '\u{1680}'
    ||| '\u{2000}' <= c <= '\u{200a}'
    ||| c == '\u{2028}'
    ||| c == '\u{2029}'
    ||| c == '\u{202f}'
    ||| c == '\u{205f}'
    ||| c == '\u{3000}'
}

/// `s` without its leading white space.
pub open spec fn trim_start(s: Seq<char>) -> Seq<char>
    decreases s.len(),
{
    if s.len() > 0 && is_space(s[0]) {
        trim_start(s.drop_first())
    } else {
        s
    }
}

/// `s` without its trailing white space.
pub open spec fn trim_end(s: Seq<char>) -> Seq<char>
    decreases s.len(),
{
    if s.len() > 0 && is_space(s.last()) {
        trim_end(s.drop_last())
    } else {
        s
    }
}

/// `s` without leading and trailing white space (what `str::trim` returns).
pub open spec fn trim(s: Seq<char>) -> Seq<char> {
    trim_end(trim_start(s))
}

/// Whether `s` consists of white space only (the empty sequence included).
pub open spec fn is_blank(s: Seq<char>) -> bool {
    trim(s).len() == 0
}

/// The pieces of `s` between occurrences of `sep`, as `str::split` yields them:
/// there is always one more piece than there are separators.
pub open spec fn split_on(s: Seq<char>, sep: char) -> Seq<Seq<char>>
    decreases s.len(),
{
    if s.len() == 0 {
        seq![Seq::<char>::empty()]
    } else {
        let prev = split_on(s.drop_last(), sep);
        if s.last() == sep {
            prev.push(Seq::<char>::empty())
        } else {
            prev.update(prev.len() - 1, prev.last().push(s.last()))
        }
    }
}

/// Whether `p` is a prefix of `s`.
pub open spec fn starts_with(s: Seq<char>, p: Seq<char>) -> bool {
    p.len() <= s.len() && s.subrange(0, p.len() as int) == p
}

/// An ASCII decimal digit.
pub open spec fn is_digit(c: char) -> bool {
    '0' <= c <= '9'
}

/// The value of an ASCII decimal digit.
pub open spec fn digit_value(c: char) -> int {
    c as int - '0' as int
}

/// The character of a decimal digit `d` in `0..10`.
pub open spec fn digit_char(d: int) -> char {
    (d + '0' as int) as char
}

/// The shortest decimal spelling of `n`.
pub open spec fn decimal(n: nat) -> Seq<char>
    decreases n,
{
    if n < 10 {
        seq![digit_char(n as int)]
    } else {
        decimal(n / 10).push(digit_char((n % 10) as int))
    }
}

/// `n` spelled in decimal, zero-padded after any sign to at least `width`
/// characters (what the `{:0width$}` format produces for an integer).
pub open spec fn zero_padded(n: int, width: nat) -> Seq<char> {
    let sign = if n < 0 { seq!['-'] } else { Seq::<char>::empty() };
    let digits = decimal((if n < 0 { -n } else { n }) as nat);
    let pad = width - sign.len() - digits.len();
    sign + Seq::new((if pad > 0 { pad } else { 0 }) as nat, |i: int| '0') + digits
}

/// Whether every character of `s` is an ASCII decimal digit.
pub open spec fn all_digits(s: Seq<char>) -> bool {
    forall|i: int| 0 <= i < s.len() ==> is_digit(#[trigger] s[i])
}

/// The number that the decimal digits `s` spell (most significant first).
pub open spec fn digits_num(s: Seq<char>) -> int
    decreases s.len(),
{
    if s.len() == 0 {
        0
    } else {
        digits_num(s.drop_last()) * 10 + digit_value(s.last())
    }
}

/// Ten to the power `k`.
pub open spec fn pow10(k: nat) -> nat
    decreases k,
{
    if k == 0 {
        1
    } else {
        10 * pow10((k - 1) as nat)
    }
}

pub proof fn lemma_decimal_len(n: nat, k: nat)
    requires
        k >= 1,
        n < pow10(k),
    ensures
        1 <= decimal(n).len() <= k,
    decreases n,
{
    if n >= 10 {
        assert(k >= 2) by {
            if k == 1 {
                assert(pow10(1) == 10);
            }
        }
        assert(n / 10 < pow10((k - 1) as nat)) by {
            assert(pow10(k) == 10 * pow10((k - 1) as nat));
        }
        lemma_decimal_len(n / 10, (k - 1) as nat);
    }
}

/// A run of decimal digits spells a number below ten to the power of its length.
pub proof fn lemma_digits_num_bound(s: Seq<char>)
    requires
        all_digits(s),
    ensures
        0 <= digits_num(s) < pow10(s.len()),
    decreases s.len(),
{
    if s.len() > 0 {
        let p = s.drop_last();
        assert(all_digits(p)) by {
            assert forall|i: int| 0 <= i < p.len() implies is_digit(#[trigger] p[i]) by {
                assert(p[i] == s[i]);
            }
        }
        lemma_digits_num_bound(p);
        assert(is_digit(s[s.len() - 1]));
        assert(pow10(s.len()) == 10 * pow10(p.len()));
    }
}

/// Two runs of decimal digits of the same length that spell the same number are
/// the same run.
pub proof fn lemma_digits_injective(a: Seq<char>, b: Seq<char>)
    requires
        all_digits(a),
        all_digits(b),
        a.len() == b.len(),
        digits_num(a) == digits_num(b),
    ensures
        a == b,
    decreases a.len(),
{
    if a.len() > 0 {
        let pa = a.drop_last();
        let pb = b.drop_last();
        assert(all_digits(pa)) by {
            assert forall|i: int| 0 <= i < pa.len() implies is_digit(#[trigger] pa[i]) by {
                assert(pa[i] == a[i]);
            }
        }
        assert(all_digits(pb)) by {
            assert forall|i: int| 0 <= i < pb.len() implies is_digit(#[trigger] pb[i]) by {
                assert(pb[i] == b[i]);
            }
        }
        lemma_digits_num_bound(pa);
        lemma_digits_num_bound(pb);
        assert(is_digit(a[a.len() - 1]));
        assert(is_digit(b[b.len() - 1]));
        let x = digits_num(pa);
        let y = digit_value(a.last());
        let u = digits_num(pb);
        let v = digit_value(b.last());
        assert(x * 10 + y == u * 10 + v);
        assert(y == v && x == u) by (nonlinear_arith)
            requires
                x * 10 + y == u * 10 + v,
                0 <= y < 10,
                0 <= v < 10,
                0 <= x,
                0 <= u,
        ;
        lemma_digits_injective(pa, pb);
        assert(a.last() == b.last());
        assert(a =~= pa.push(a.last()));
        assert(b =~= pb.push(b.last()));
    }
}

/// A text whose UTF-8 bytes are all below 128 is ASCII.
pub proof fn lemma_ascii_from_bytes(s: Seq<char>)
    requires
        forall|i: int|
            0 <= i < vstd::utf8::encode_utf8(s).len() ==> #[trigger] vstd::utf8::encode_utf8(s)[i]
                < 128,
    ensures
        vstd::utf8::is_ascii_chars(s),
    decreases s.len(),
{
    if s.len() > 0 {
        let c = s[0] as u32;
        let head = vstd::utf8::encode_scalar(c);
        let rest = vstd::utf8::encode_utf8(s.drop_first());
        assert(vstd::utf8::encode_utf8(s) == head + rest);
        assert(head.len() >= 1);
        assert(head[0] < 128) by {
            assert(vstd::utf8::encode_utf8(s)[0] == head[0]);
        }
        if !vstd::utf8::has_width_1_encoding(c) {
            if vstd::utf8::has_width_2_encoding(c) {
                let v = ((c >> 6) & 0x1F) as u8;
                assert((0xC0u8 | v) >= 0xC0u8) by (bit_vector);
            } else if vstd::utf8::has_width_3_encoding(c) {
                let v = ((c >> 12) & 0x0F) as u8;
                assert((0xE0u8 | v) >= 0xE0u8) by (bit_vector);
            } else {
                let v = ((c >> 18) & 0x7) as u8;
                assert((0xF0u8 | v) >= 0xF0u8) by (bit_vector);
            }
            assert(false);
        }
        assert forall|i: int| 0 <= i < rest.len() implies #[trigger] rest[i] < 128 by {
            assert(vstd::utf8::encode_utf8(s)[head.len() + i] == rest[i]);
        }
        lemma_ascii_from_bytes(s.drop_first());
        assert forall|i: int| 0 <= i < s.len() implies '\0' <= #[trigger] s[i] <= '\u{7f}' by {
            if i > 0 {
                assert(s[i] == s.drop_first()[i - 1]);
                assert('\0' <= s.drop_first()[i - 1] <= '\u{7f}');
            } else {
                vstd::utf8::char_u32_cast(s[0], c);
                assert(c <= 0x7F);
                assert(s[0] as int <= 0x7F);
            }
        }
    }
}

proof fn lemma_digits_num_push(s: Seq<char>, c: char)
    ensures
        digits_num(s.push(c)) == digits_num(s) * 10 + digit_value(c),
{
    assert(s.push(c).drop_last() =~= s);
}

/// The decimal spelling of `n` is a run of digits that spells `n` back.
pub proof fn lemma_decimal_reads_back(n: nat)
    ensures
        all_digits(decimal(n)),
        digits_num(decimal(n)) == n,
    decreases n,
{
    let d = (n % 10) as int;
    assert(digit_value(digit_char(d)) == d);
    assert(is_digit(digit_char(d)));
    if n < 10 {
        lemma_digits_num_push(Seq::<char>::empty(), digit_char(n as int));
        assert(seq![digit_char(n as int)] =~= Seq::<char>::empty().push(digit_char(n as int)));
    } else {
        lemma_decimal_reads_back(n / 10);
        lemma_digits_num_push(decimal(n / 10), digit_char(d));
        let t = decimal(n);
        assert forall|i: int| 0 <= i < t.len() implies is_digit(#[trigger] t[i]) by {
            if i < t.len() - 1 {
                assert(t[i] == decimal(n / 10)[i]);
            }
        }
    }
}

/// Leading zeros do not change the number that a run of digits spells.
pub proof fn lemma_leading_zeros(k: nat, s: Seq<char>)
    requires
        all_digits(s),
    ensures
        all_digits(Seq::new(k, |i: int| '0') + s),
        digits_num(Seq::new(k, |i: int| '0') + s) == digits_num(s),
    decreases s.len(), k,
{
    let z = Seq::new(k, |i: int| '0');
    if s.len() == 0 {
        assert(z + s =~= z);
        if k > 0 {
            let z1 = Seq::new((k - 1) as nat, |i: int| '0');
            lemma_leading_zeros((k - 1) as nat, s);
            assert(z1 + s =~= z1);
            assert(z =~= z1.push('0'));
            lemma_digits_num_push(z1, '0');
        }
    } else {
        let p = s.drop_last();
        assert(all_digits(p)) by {
            assert forall|i: int| 0 <= i < p.len() implies is_digit(#[trigger] p[i]) by {
                assert(p[i] == s[i]);
            }
        }
        lemma_leading_zeros(k, p);
        assert(z + s =~= (z + p).push(s.last()));
        lemma_digits_num_push(z + p, s.last());
        assert(is_digit(s[s.len() - 1]));
    }
}

proof fn lemma_split_on_nonempty(s: Seq<char>, sep: char)
    ensures
        split_on(s, sep).len() >= 1,
    decreases s.len(),
{
    if s.len() > 0 {
        lemma_split_on_nonempty(s.drop_last(), sep);
    }
}

proof fn lemma_trim_start_step(s: Seq<char>, i: int, j: int)
    requires
        0 <= i < j <= s.len(),
        is_space(s[i]),
    ensures
        trim_start(s.subrange(i, j)) == trim_start(s.subrange(i + 1, j)),
{
    assert(s.subrange(i, j).drop_first() =~= s.subrange(i + 1, j));
}

proof fn lemma_trim_end_step(s: Seq<char>, i: int, j: int)
    requires
        0 <= i < j <= s.len(),
        is_space(s[j - 1]),
    ensures
        trim_end(s.subrange(i, j)) == trim_end(s.subrange(i, j - 1)),
{
    assert(s.subrange(i, j).drop_last() =~= s.subrange(i, j - 1));
}

/// The characters of `s`, in order.
pub fn chars_of(s: &str) -> (r: Vec<char>)
    ensures
        r@ == s@,
{
    let mut r: Vec<char> = Vec::new();
    for c in it: s.chars()
        invariant
            it.seq() == s@,
            r@ == it.seq().take(it.index() as int),
    {
        r.push(c);
        assert(r@ =~= it.seq().take(it.index() + 1));
    }
    assert(r@ =~= s@);
    r
}

/// The text made of `chars[lo..hi]`.
///
/// Trusted: the body collects the characters with std's `Iterator::collect` into a
/// `String`; the contract claims that the text holds exactly those characters, in
/// order (slicing within the bounds that `requires` asks for does not panic).
#[verifier::external_body]
pub(crate) fn string_of(chars: &[char], lo: usize, hi: usize) -> (r: String)
    requires
        lo <= hi <= chars@.len(),
    ensures
        r@ == chars@.subrange(lo as int, hi as int),
{
    chars[lo..hi].iter().collect()
}

fn digit_of(d: u64) -> (c: char)
    requires
        d < 10,
    ensures
        c == digit_char(d as int),
{
    let b: u8 = d as u8 + 48u8;
    b as char
}

/// The decimal digits of `n`.
pub fn decimal_chars(n: u64) -> (r: Vec<char>)
    ensures
        r@ == decimal(n as nat),
    decreases n,
{
    if n < 10 {
        let mut v: Vec<char> = Vec::new();
        v.push(digit_of(n));
        v
    } else {
        let mut v = decimal_chars(n / 10);
        v.push(digit_of(n % 10));
        v
    }
}

/// `n` spelled in decimal.
pub fn decimal_text(n: u64) -> (r: String)
    ensures
        r@ == decimal(n as nat),
{
    let v = decimal_chars(n);
    string_of(v.as_slice(), 0, v.len())
}

/// `n` spelled in decimal and zero-padded to `width` characters.
pub fn padded_text(n: i64, width: usize) -> (r: String)
    requires
        n > i64::MIN,
    ensures
        r@ == zero_padded(n as int, width as nat),
{
    let mut out: Vec<char> = Vec::new();
    let magnitude: u64 = if n < 0 { (-n) as u64 } else { n as u64 };
    if n < 0 {
        out.push('-');
    }
    let digits = decimal_chars(magnitude);
    proof {
        reveal_with_fuel(pow10, 21);
        assert(pow10(20) == 100000000000000000000nat);
        lemma_decimal_len(magnitude as nat, 20);
    }
    let used = out.len() + digits.len();
    let mut k: usize = used;
    while k < width
        invariant
            used <= k <= if width > used { width } else { used },
            out@.len() == (if n < 0 { 1int } else { 0int }) + (k - used),
            forall|i: int| 0 <= i < out@.len() ==> #[trigger] out@[i] == (if n < 0 && i == 0 { '-' } else { '0' }),
        decreases width - k,
    {
        out.push('0');
        k = k + 1;
    }
    let ghost before = out@;
    let mut j: usize = 0;
    while j < digits.len()
        invariant
            0 <= j <= digits@.len(),
            out@ == before + digits@.take(j as int),
        decreases digits@.len() - j,
    {
        out.push(digits[j]);
        j = j + 1;
        assert(out@ =~= before + digits@.take(j as int));
    }
    assert(digits@.take(digits@.len() as int) =~= digits@);
    let ghost sign = if n < 0 { seq!['-'] } else { Seq::<char>::empty() };
    let ghost pad: int = width - sign.len() - digits@.len();
    assert(before =~= sign + Seq::new((if pad > 0 { pad } else { 0 }) as nat, |i: int| '0'));
    string_of(out.as_slice(), 0, out.len())
}

/// An ASCII decimal digit byte.
pub open spec fn is_digit_byte(x: u8) -> bool {
    48 <= x <= 57
}

/// Whether every byte of `b` is an ASCII decimal digit.
pub open spec fn all_digit_bytes(b: Seq<u8>) -> bool {
    forall|i: int| 0 <= i < b.len() ==> is_digit_byte(#[trigger] b[i])
}

/// The number that the ASCII digit bytes `b` spell (most significant first).
pub open spec fn bytes_num(b: Seq<u8>) -> int
    decreases b.len(),
{
    if b.len() == 0 {
        0
    } else {
        bytes_num(b.drop_last()) * 10 + (b.last() - 48)
    }
}

/// A run of digit bytes spells a number below ten to the power of its length.
pub proof fn lemma_bytes_num_bound(b: Seq<u8>)
    requires
        all_digit_bytes(b),
    ensures
        0 <= bytes_num(b) < pow10(b.len()),
    decreases b.len(),
{
    if b.len() > 0 {
        let p = b.drop_last();
        assert(all_digit_bytes(p)) by {
            assert forall|i: int| 0 <= i < p.len() implies is_digit_byte(#[trigger] p[i]) by {
                assert(p[i] == b[i]);
            }
        }
        lemma_bytes_num_bound(p);
        assert(is_digit_byte(b[b.len() - 1]));
        assert(pow10(b.len()) == 10 * pow10(p.len()));
    }
}

/// The bytes of the ASCII characters `s`, one byte per character.
pub open spec fn ascii_bytes(s: Seq<char>) -> Seq<u8> {
    Seq::new(s.len(), |i: int| s[i] as u8)
}

/// Decimal digit characters, taken as bytes, are digit bytes spelling the same number.
pub proof fn lemma_digit_bytes(s: Seq<char>)
    requires
        all_digits(s),
    ensures
        all_digit_bytes(ascii_bytes(s)),
        bytes_num(ascii_bytes(s)) == digits_num(s),
    decreases s.len(),
{
    let b = ascii_bytes(s);
    assert forall|i: int| 0 <= i < b.len() implies is_digit_byte(#[trigger] b[i]) by {
        assert(is_digit(s[i]));
        assert(b[i] == s[i] as u8);
    }
    if s.len() > 0 {
        let p = s.drop_last();
        assert(all_digits(p)) by {
            assert forall|i: int| 0 <= i < p.len() implies is_digit(#[trigger] p[i]) by {
                assert(p[i] == s[i]);
            }
        }
        lemma_digit_bytes(p);
        assert(b.drop_last() =~= ascii_bytes(p));
        assert(is_digit(s.last()));
        assert(b.last() == s.last() as u8);
    }
}

/// The number spelled by the bytes `b[lo..hi]` if they are (at most four) ASCII digits.
pub fn digit_bytes_value(b: &[u8], lo: usize, hi: usize) -> (r: Option<u16>)
    requires
        lo <= hi <= b@.len(),
        hi - lo <= 4,
    ensures
        match r {
            Some(v) => all_digit_bytes(b@.subrange(lo as int, hi as int)) && v == bytes_num(
                b@.subrange(lo as int, hi as int),
            ),
            None => !all_digit_bytes(b@.subrange(lo as int, hi as int)),
        },
{
    let mut v: u16 = 0;
    let mut k = lo;
    assert(b@.subrange(lo as int, lo as int) =~= Seq::<u8>::empty());
    while k < hi
        invariant
            lo <= k <= hi <= b@.len(),
            hi - lo <= 4,
            all_digit_bytes(b@.subrange(lo as int, k as int)),
            v == bytes_num(b@.subrange(lo as int, k as int)),
        decreases hi - k,
    {
        let x = b[k];
        let ghost next = b@.subrange(lo as int, k + 1);
        assert(next.drop_last() =~= b@.subrange(lo as int, k as int));
        if !(48u8 <= x && x <= 57u8) {
            assert(!all_digit_bytes(b@.subrange(lo as int, hi as int))) by {
                assert(b@.subrange(lo as int, hi as int)[k - lo] == x);
            }
            return None;
        }
        proof {
            lemma_bytes_num_bound(b@.subrange(lo as int, k as int));
            assert(pow10((k - lo) as nat) <= 1000) by {
                reveal_with_fuel(pow10, 5);
            }
            assert forall|i: int| 0 <= i < next.len() implies is_digit_byte(#[trigger] next[i]) by {
                if i < next.len() - 1 {
                    assert(next[i] == b@.subrange(lo as int, k as int)[i]);
                }
            }
        }
        v = v * 10 + (x - 48u8) as u16;
        k = k + 1;
    }
    Some(v)
}

/// Whether `c` is white space.
pub fn char_is_space(c: char) -> (r: bool)
    ensures
        r == is_space(c),
{
    ('\t' <= c && c <= '\r') || c == ' ' || c == '\u{85}' || c == '\u{a0}' || c == '\u{1680}'
        || ('\u{2000}' <= c && c <= '\u{200a}') || c == '\u{2028}' || c == '\u{2029}'
        || c == '\u{202f}' || c == '\u{205f}' || c == '\u{3000}'
}

/// The bounds of `s[lo..hi]` once white space is trimmed from both ends.
pub fn trim_range(s: &[char], lo: usize, hi: usize) -> (r: (usize, usize))
    requires
        lo <= hi <= s@.len(),
    ensures
        lo <= r.0 <= r.1 <= hi,
        s@.subrange(r.0 as int, r.1 as int) == trim(s@.subrange(lo as int, hi as int)),
{
    let mut a = lo;
    while a < hi && char_is_space(s[a])
        invariant
            lo <= a <= hi <= s@.len(),
            trim_start(s@.subrange(lo as int, hi as int)) == trim_start(
                s@.subrange(a as int, hi as int),
            ),
        decreases hi - a,
    {
        proof {
            lemma_trim_start_step(s@, a as int, hi as int);
        }
        a = a + 1;
    }
    let ghost t = s@.subrange(a as int, hi as int);
    assert(trim_start(t) == t) by {
        if t.len() > 0 {
            assert(t[0] == s@[a as int]);
        }
    }
    let mut b = hi;
    while b > a && char_is_space(s[b - 1])
        invariant
            lo <= a <= b <= hi <= s@.len(),
            trim_end(s@.subrange(a as int, hi as int)) == trim_end(s@.subrange(a as int, b as int)),
        decreases b - a,
    {
        proof {
            lemma_trim_end_step(s@, a as int, b as int);
        }
        b = b - 1;
    }
    let ghost u = s@.subrange(a as int, b as int);
    assert(trim_end(u) == u) by {
        if u.len() > 0 {
            assert(u.last() == s@[b - 1]);
        }
    }
    (a, b)
}

/// The bounds of the pieces of `s[lo..hi]` between occurrences of `sep`.
pub fn split_ranges(s: &[char], lo: usize, hi: usize, sep: char) -> (r: Vec<(usize, usize)>)
    requires
        lo <= hi <= s@.len(),
    ensures
        r@.len() == split_on(s@.subrange(lo as int, hi as int), sep).len(),
        forall|i: int|
            0 <= i < r@.len() ==> lo <= #[trigger] r@[i].0 <= r@[i].1 <= hi && s@.subrange(
                r@[i].0 as int,
                r@[i].1 as int,
            ) == split_on(s@.subrange(lo as int, hi as int), sep)[i],
{
    let mut r: Vec<(usize, usize)> = Vec::new();
    let mut start = lo;
    let mut k = lo;
    assert(s@.subrange(lo as int, lo as int) =~= Seq::<char>::empty());
    while k < hi
        invariant
            lo <= start <= k <= hi <= s@.len(),
            r@.len() + 1 == split_on(s@.subrange(lo as int, k as int), sep).len(),
            forall|i: int|
                0 <= i < r@.len() ==> lo <= #[trigger] r@[i].0 <= r@[i].1 <= start && s@.subrange(
                    r@[i].0 as int,
                    r@[i].1 as int,
                ) == split_on(s@.subrange(lo as int, k as int), sep)[i],
            s@.subrange(start as int, k as int) == split_on(
                s@.subrange(lo as int, k as int),
                sep,
            ).last(),
        decreases hi - k,
    {
        let ghost prefix = s@.subrange(lo as int, k as int);
        let ghost next = s@.subrange(lo as int, k + 1);
        proof {
            assert(next.drop_last() =~= prefix);
            lemma_split_on_nonempty(prefix, sep);
        }
        if s[k] == sep {
            r.push((start, k));
            start = k + 1;
            assert(s@.subrange(start as int, k + 1) =~= Seq::<char>::empty());
        } else {
            assert(s@.subrange(start as int, k + 1) =~= s@.subrange(start as int, k as int).push(
                s@[k as int],
            ));
        }
        k = k + 1;
    }
    proof {
        lemma_split_on_nonempty(s@.subrange(lo as int, hi as int), sep);
    }
    r.push((start, hi));
    r
}

/// Whether `s[lo..hi]` starts with the characters of `p`.
pub fn has_prefix(s: &[char], lo: usize, hi: usize, p: &str) -> (r: bool)
    requires
        lo <= hi <= s@.len(),
    ensures
        r == starts_with(s@.subrange(lo as int, hi as int), p@),
{
    let pc = chars_of(p);
    if pc.len() > hi - lo {
        return false;
    }
    let mut i: usize = 0;
    while i < pc.len()
        invariant
            pc@ == p@,
            lo + pc@.len() <= hi <= s@.len(),
            0 <= i <= pc@.len(),
            forall|j: int| 0 <= j < i ==> s@[lo + j] == pc@[j],
        decreases pc@.len() - i,
    {
        if s[lo + i] != pc[i] {
            assert(s@.subrange(lo as int, hi as int).subrange(0, p@.len() as int)[i as int]
                != p@[i as int]);
            return false;
        }
        i = i + 1;
    }
    assert(s@.subrange(lo as int, hi as int).subrange(0, p@.len() as int) =~= p@);
    true
}

/// Whether `s[lo..hi]` is exactly the characters of `p`.
pub fn equals_text(s: &[char], lo: usize, hi: usize, p: &str) -> (r: bool)
    requires
        lo <= hi <= s@.len(),
    ensures
        r == (s@.subrange(lo as int, hi as int) == p@),
{
    let ok = has_prefix(s, lo, hi, p);
    if ok && p.unicode_len() == hi - lo {
        assert(s@.subrange(lo as int, hi as int) =~= s@.subrange(lo as int, hi as int).subrange(
            0,
            p@.len() as int,
        ));
        true
    } else {
        assert(s@.subrange(lo as int, hi as int) == p@ ==> s@.subrange(lo as int, hi as int)
            =~= s@.subrange(lo as int, hi as int).subrange(0, p@.len() as int));
        false
    }
}

/// `s` with white space trimmed from both ends.
pub fn trimmed(s: &str) -> (r: String)
    ensures
        r@ == trim(s@),
{
    let chars = chars_of(s);
    assert(chars@.subrange(0, chars@.len() as int) =~= s@);
    let (a, b) = trim_range(chars.as_slice(), 0, chars.len());
    String::from_str(s.substring_char(a, b))
}

/// Whether `s` is white space only (or empty).
pub fn blank_text(s: &str) -> (r: bool)
    ensures
        r == is_blank(s@),
{
    let chars = chars_of(s);
    assert(chars@.subrange(0, chars@.len() as int) =~= s@);
    let (a, b) = trim_range(chars.as_slice(), 0, chars.len());
    a == b
}

/// Whether `a` and `b` are the same text.
pub fn same_text(a: &str, b: &str) -> (r: bool)
    ensures
        r == (a@ == b@),
{
    let x = a.to_owned();
    let y = b.to_owned();
    x == y
}

} // verus!
