//! Text building blocks shared by the rest of the library: lossy UTF-8
//! decoding of received bytes, whitespace classification, and decimal and
//! upper-case hexadecimal rendering of integers.

use vstd::prelude::*;

verus! {

/// What `String::from_utf8_lossy` makes of a byte sequence: the decoded text,
/// with each invalid sequence replaced by U+FFFD.
pub uninterp spec fn lossy_utf8(bytes: Seq<u8>) -> Seq<char>;

/// `t` is the text that received `bytes` decode to: the lossy decoding,
/// which for valid UTF-8 is the plain decoding.
pub open spec fn decodes_to(bytes: Seq<u8>, t: Seq<char>) -> bool {
    &&& t == lossy_utf8(bytes)
    &&& vstd::utf8::valid_utf8(bytes) ==> t == vstd::utf8::decode_utf8(bytes)
}

/// The characters that ASCII bytes stand for, one per byte.
pub open spec fn ascii_chars(bytes: Seq<u8>) -> Seq<char> {
    Seq::new(bytes.len(), |i: int| bytes[i] as char)
}

/// Bytes below 128 are valid UTF-8 and decode to one character each, the
/// one with the byte's value.
pub proof fn lemma_ascii_decodes(bytes: Seq<u8>)
    requires
        forall|i: int| 0 <= i < bytes.len() ==> bytes[i] < 128,
    ensures
        vstd::utf8::valid_utf8(bytes),
        vstd::utf8::decode_utf8(bytes) == ascii_chars(bytes),
    decreases bytes.len(),
{
    if bytes.len() > 0 {
        let b = bytes[0];
        assert(b & 0x7f == b) by (bit_vector)
            requires
                b < 128,
        ;
        let rest = bytes.drop_first();
        assert(vstd::utf8::pop_first_scalar(bytes) =~= rest);
        lemma_ascii_decodes(rest);
        assert(vstd::utf8::decode_utf8(bytes) =~= ascii_chars(bytes));
    } else {
        assert(vstd::utf8::decode_utf8(bytes) =~= ascii_chars(bytes));
    }
}

/// Decodes received bytes as UTF-8, replacing invalid sequences.
///
/// Calls `String::from_utf8_lossy`. Trusted: the result is the named
/// `lossy_utf8` of the bytes, and, as std documents, valid UTF-8 is decoded
/// unchanged. What the replacement looks like for invalid input is left unsaid.
#[verifier::external_body]
pub(crate) fn bytes_to_string_lossy(bytes: &[u8]) -> (res: String)
    ensures
        res@ == lossy_utf8(bytes@),
        vstd::utf8::valid_utf8(bytes@) ==> res@ == vstd::utf8::decode_utf8(bytes@),
{
    String::from_utf8_lossy(bytes).into_owned()
}

/// Appends one character to a string.
///
/// Calls `String::push`. Trusted: the string grows by exactly that character.
#[verifier::external_body]
pub(crate) fn push_char(s: &mut String, c: char)
    ensures
        final(s)@ == old(s)@.push(c),
{
    s.push(c);
}

/// The Unicode `White_Space` property, which `char::is_whitespace` tests.
pub open spec fn is_white_space(c: char) -> bool {
    ||| ('\u{9}' <= c && c <= '\u{d}')
    ||| c == ' '
    ||| c == '\u{85}'
    ||| c == '\u{a0}'
    ||| c == '\u{1680}'
    ||| ('\u{2000}' <= c && c <= '\u{200a}')
    ||| c == '\u{2028}'
    ||| c == '\u{2029}'
    ||| c == '\u{202f}'
    ||| c == '\u{205f}'
    ||| c == '\u{3000}'
}

/// Among ASCII characters exactly tab, line feed, vertical tab, form feed,
/// carriage return and space are white space; every printable ASCII
/// character other than the space (`!` to `~`: letters, digits, `.`, `:`,
/// `-`, `/`, ...) is not.
pub proof fn lemma_white_space_ascii(c: char)
    ensures
        (c as u32) < 128 ==> (is_white_space(c) <==> ((9 <= (c as u32) && (c as u32) <= 13) || c
            == ' ')),
        ('!' <= c && c <= '~') ==> !is_white_space(c),
{
}

/// Whether `c` is white space in the sense of `char::is_whitespace`.
pub fn white_space(c: char) -> (b: bool)
    ensures
        b == is_white_space(c),
{
    ('\u{9}' <= c && c <= '\u{d}') || c == ' ' || c == '\u{85}' || c == '\u{a0}'
        || c == '\u{1680}' || ('\u{2000}' <= c && c <= '\u{200a}') || c == '\u{2028}'
        || c == '\u{2029}' || c == '\u{202f}' || c == '\u{205f}' || c == '\u{3000}'
}

/// The words of `s` as `str::split_whitespace` yields them: the maximal
/// runs of characters that are not white space, in order. Defined on the
/// last character: white space adds nothing, a character after a word
/// character extends the last word, any other character starts a new word.
pub open spec fn words(s: Seq<char>) -> Seq<Seq<char>>
    decreases s.len(),
{
    if s.len() == 0 {
        seq![]
    } else {
        let prev = words(s.drop_last());
        let c = s.last();
        if is_white_space(c) {
            prev
        } else if s.len() >= 2 && !is_white_space(s[s.len() - 2]) {
            prev.update(prev.len() - 1, prev.last().push(c))
        } else {
            prev.push(seq![c])
        }
    }
}

/// A text that ends in a word character has at least one word.
pub proof fn lemma_words_nonempty(s: Seq<char>)
    requires
        s.len() > 0,
        !is_white_space(s.last()),
    ensures
        words(s).len() >= 1,
    decreases s.len(),
{
    if s.len() >= 2 && !is_white_space(s[s.len() - 2]) {
        assert(s.drop_last().last() == s[s.len() - 2]);
        lemma_words_nonempty(s.drop_last());
    }
}

/// Each word is a nonempty run of characters none of which is white space,
/// and there are no more words than characters.
pub proof fn lemma_words_are_runs(s: Seq<char>)
    ensures
        words(s).len() <= s.len(),
        forall|i: int|
            0 <= i < words(s).len() ==> (#[trigger] words(s)[i]).len() > 0 && forall|j: int|
                0 <= j < words(s)[i].len() ==> !is_white_space(#[trigger] words(s)[i][j]),
    decreases s.len(),
{
    if s.len() > 0 {
        let prev = words(s.drop_last());
        lemma_words_are_runs(s.drop_last());
        let c = s.last();
        if !is_white_space(c) && s.len() >= 2 && !is_white_space(s[s.len() - 2]) {
            assert(s.drop_last().last() == s[s.len() - 2]);
            lemma_words_nonempty(s.drop_last());
            let k = prev.len() - 1;
            assert forall|i: int| 0 <= i < words(s).len() implies (#[trigger] words(s)[i]).len() > 0
                && forall|j: int|
                0 <= j < words(s)[i].len() ==> !is_white_space(#[trigger] words(s)[i][j]) by {
                if i == k {
                    assert(words(s)[i] == prev[k].push(c));
                    assert forall|j: int| 0 <= j < words(s)[i].len() implies !is_white_space(
                        #[trigger] words(s)[i][j],
                    ) by {
                        if j < prev[k].len() {
                            assert(words(s)[i][j] == prev[k][j]);
                        }
                    }
                } else {
                    assert(words(s)[i] == prev[i]);
                }
            }
        } else if !is_white_space(c) {
            assert forall|i: int| 0 <= i < words(s).len() implies (#[trigger] words(s)[i]).len() > 0
                && forall|j: int|
                0 <= j < words(s)[i].len() ==> !is_white_space(#[trigger] words(s)[i][j]) by {
                if i < prev.len() {
                    assert(words(s)[i] == prev[i]);
                } else {
                    assert(words(s)[i] == seq![c]);
                }
            }
        }
    }
}

/// Appending a run of word characters after white space (or at the start)
/// adds that run as one more word.
pub proof fn lemma_words_append_run(s: Seq<char>, r: Seq<char>)
    requires
        r.len() > 0,
        forall|i: int| 0 <= i < r.len() ==> !is_white_space(#[trigger] r[i]),
        s.len() == 0 || is_white_space(s.last()),
    ensures
        words(s + r) == words(s).push(r),
    decreases r.len(),
{
    let sr = s + r;
    if r.len() == 1 {
        assert(sr.drop_last() =~= s);
        assert(sr.last() == r[0]);
        if sr.len() >= 2 {
            assert(sr[sr.len() - 2] == s.last());
        }
        assert(seq![r[0]] =~= r);
    } else {
        let r0 = r.drop_last();
        lemma_words_append_run(s, r0);
        assert(sr.drop_last() =~= s + r0);
        assert(sr.last() == r.last());
        assert(sr[sr.len() - 2] == r[r.len() - 2]);
        let prev = words(s + r0);
        assert(prev == words(s).push(r0));
        assert(prev.last() == r0);
        assert(r0.push(r.last()) =~= r);
        assert(r.len() >= 2 && !is_white_space(r[r.len() - 2]));
        assert(prev.update(prev.len() - 1, prev.last().push(r.last())) =~= words(s).push(r));
    }
}

/// Appending white space adds no word.
pub proof fn lemma_words_append_white_space(s: Seq<char>, c: char)
    requires
        is_white_space(c),
    ensures
        words(s.push(c)) == words(s),
{
    assert(s.push(c).drop_last() =~= s);
}

/// Two runs of word characters joined by one space are two words.
pub proof fn lemma_words_two_runs(a: Seq<char>, b: Seq<char>)
    requires
        a.len() > 0,
        b.len() > 0,
        forall|i: int| 0 <= i < a.len() ==> !is_white_space(#[trigger] a[i]),
        forall|i: int| 0 <= i < b.len() ==> !is_white_space(#[trigger] b[i]),
    ensures
        words(a + seq![' '] + b) == seq![a, b],
{
    let e = Seq::<char>::empty();
    lemma_words_append_run(e, a);
    assert(e + a =~= a);
    assert(words(e) == Seq::<Seq<char>>::empty());
    lemma_words_append_white_space(a, ' ');
    assert(a + seq![' '] =~= a.push(' '));
    lemma_words_append_run(a.push(' '), b);
    assert(a + seq![' '] + b =~= a.push(' ') + b);
    assert(words(a) =~= seq![a]);
    assert(words(a).push(b) =~= seq![a, b]);
}

/// The second whitespace-separated word of `s`, as
/// `s.split_whitespace().nth(1)` gives it, or `None` where `s` has fewer
/// than two words.
pub fn second_word(s: &str) -> (w: Option<String>)
    ensures
        match w {
            Some(w) => words(s@).len() >= 2 && w@ == words(s@)[1],
            None => words(s@).len() < 2,
        },
{
    let mut seen: u8 = 0;
    let mut in_word = false;
    let mut second = String::new();
    let chars = s.chars();
    for c in it: chars
        invariant
            it.seq() == s@,
            seen as int == if words(s@.take(it.index())).len() < 3 {
                words(s@.take(it.index())).len() as int
            } else {
                3
            },
            in_word == (it.index() > 0 && !is_white_space(s@[it.index() - 1])),
            words(s@.take(it.index())).len() < 2 ==> second@.len() == 0,
            words(s@.take(it.index())).len() >= 2 ==> second@ == words(s@.take(it.index()))[1],
    {
        let ghost i = it.index();
        let ghost before = s@.take(i);
        let ghost after = s@.take(i + 1);
        proof {
            assert(after.drop_last() =~= before);
            assert(after.last() == c);
            if i >= 1 {
                assert(after[after.len() - 2] == s@[i - 1]);
                assert(before.last() == s@[i - 1]);
            }
            if in_word {
                lemma_words_nonempty(before);
            }
        }
        if white_space(c) {
            in_word = false;
        } else if in_word {
            if seen == 2 {
                push_char(&mut second, c);
            }
        } else {
            in_word = true;
            if seen < 3 {
                seen = seen + 1;
            }
            if seen == 2 {
                push_char(&mut second, c);
                assert(second@ =~= seq![c]);
            }
        }
    }
    assert(s@.take(s@.len() as int) =~= s@);
    if seen >= 2 {
        Some(second)
    } else {
        None
    }
}

/// The character for a digit value below sixteen: `0`-`9`, then `A`-`F`.
pub open spec fn digit_char(d: nat) -> char {
    if d < 10 {
        ((d + 48) as u8) as char
    } else {
        ((d + 55) as u8) as char
    }
}

/// Whether `c` is one of the sixteen digit characters `0`-`9`, `A`-`F`.
pub open spec fn is_digit_char(c: char) -> bool {
    ('0' <= c && c <= '9') || ('A' <= c && c <= 'F')
}

/// The value of a digit character of `digit_char`, for the characters it yields.
pub open spec fn char_digit(c: char) -> nat {
    if '0' <= c && c <= '9' {
        (c as nat - 48) as nat
    } else {
        (c as nat - 55) as nat
    }
}

/// The digits of `n` in base `radix`, most significant first, without
/// leading zeros (zero is the single digit `0`).
pub open spec fn digits(n: nat, radix: nat) -> Seq<char>
    decreases n,
    when radix >= 2
{
    if n < radix {
        seq![digit_char(n)]
    } else {
        proof {
            vstd::arithmetic::div_mod::lemma_div_is_strictly_smaller(n as int, radix as int);
        }
        digits(n / radix, radix).push(digit_char(n % radix))
    }
}

/// The number that a digit string denotes in base `radix`.
pub open spec fn digits_value(s: Seq<char>, radix: nat) -> nat
    decreases s.len(),
{
    if s.len() == 0 {
        0
    } else {
        digits_value(s.drop_last(), radix) * radix + char_digit(s.last())
    }
}

/// `{}` of an `i32`: a minus sign for negative values, then the decimal
/// digits of the magnitude.
pub open spec fn decimal_i32(v: i32) -> Seq<char> {
    if v < 0 {
        seq!['-'] + digits((-v) as nat, 10)
    } else {
        digits(v as nat, 10)
    }
}

/// The 32-bit two's complement bit pattern of `v`, read as a natural number.
pub open spec fn twos_complement(v: i32) -> nat {
    if v < 0 {
        (v + 0x1_0000_0000) as nat
    } else {
        v as nat
    }
}

/// `{:X}` of an `i32`: the upper-case hexadecimal digits of its two's
/// complement bit pattern.
pub open spec fn upper_hex_i32(v: i32) -> Seq<char> {
    digits(twos_complement(v), 16)
}

/// Every digit character reads back as the digit it was made from.
pub proof fn lemma_digit_char_roundtrip(d: nat)
    requires
        d < 16,
    ensures
        char_digit(digit_char(d)) == d,
        is_digit_char(digit_char(d)),
        d > 0 ==> digit_char(d) != '0',
{
    if d < 10 {
        assert(((d + 48) as u8) as char as nat == d + 48);
    } else {
        assert(((d + 55) as u8) as char as nat == d + 55);
    }
}

/// The digits of `n` denote `n`: they are one or more digits below `radix`,
/// they read back as `n`, and they start with a zero only for `n == 0`.
pub proof fn lemma_digits_denote(n: nat, radix: nat)
    requires
        2 <= radix <= 16,
    ensures
        digits(n, radix).len() >= 1,
        digits_value(digits(n, radix), radix) == n,
        n > 0 ==> digits(n, radix)[0] != '0',
        forall|i: int|
            0 <= i < digits(n, radix).len() ==> #[trigger] char_digit(digits(n, radix)[i]) < radix
                && is_digit_char(digits(n, radix)[i]),
    decreases n,
{
    if n < radix {
        lemma_digit_char_roundtrip(n);
        assert(digits(n, radix) =~= seq![digit_char(n)]);
        assert(digits(n, radix).drop_last() =~= Seq::<char>::empty());
        assert(digits_value(Seq::<char>::empty(), radix) == 0);
        assert(digits(n, radix).last() == digit_char(n));
        assert(digits_value(digits(n, radix), radix) == 0 * radix + char_digit(digit_char(n)));
    } else {
        vstd::arithmetic::div_mod::lemma_div_is_strictly_smaller(n as int, radix as int);
        vstd::arithmetic::div_mod::lemma_fundamental_div_mod(n as int, radix as int);
        vstd::arithmetic::div_mod::lemma_mod_bound(n as int, radix as int);
        vstd::arithmetic::div_mod::lemma_div_pos_is_pos(n as int, radix as int);
        lemma_digits_denote(n / radix, radix);
        lemma_digit_char_roundtrip(n % radix);
        let prefix = digits(n / radix, radix);
        assert(digits(n, radix) == prefix.push(digit_char(n % radix)));
        assert(digits(n, radix).drop_last() =~= prefix);
        assert(digits_value(digits(n, radix), radix) == digits_value(prefix, radix) * radix + n % radix);
        assert(digits_value(prefix, radix) * radix == radix * (n / radix)) by (nonlinear_arith)
            requires
                digits_value(prefix, radix) == n / radix,
        ;
        assert(digits(n, radix)[0] == prefix[0]);
        assert forall|i: int| 0 <= i < digits(n, radix).len() implies #[trigger] char_digit(digits(n, radix)[i]) < radix
            && is_digit_char(digits(n, radix)[i]) by {
            if i < prefix.len() {
                assert(digits(n, radix)[i] == prefix[i]);
            }
        }
    }
}

/// The number that a `{}` rendering of an integer denotes: a leading minus
/// sign negates the decimal digits after it.
pub open spec fn signed_decimal_value(s: Seq<char>) -> int {
    if s.len() > 0 && s[0] == '-' {
        -digits_value(s.drop_first(), 10)
    } else {
        digits_value(s, 10) as int
    }
}

/// `{}` of an `i32` reads back as the value, carries a minus sign exactly
/// when the value is negative, and after the sign is the canonical decimal
/// numeral: one or more of `0`-`9`, starting with `0` only for zero.
pub proof fn lemma_decimal_i32_denotes(v: i32)
    ensures
        signed_decimal_value(decimal_i32(v)) == v,
        decimal_i32(v).len() >= 1,
        (decimal_i32(v)[0] == '-') == (v < 0),
        ({
            let n = if v < 0 { decimal_i32(v).drop_first() } else { decimal_i32(v) };
            &&& n.len() >= 1
            &&& (n[0] == '0') == (v == 0)
            &&& forall|i: int| 0 <= i < n.len() ==> '0' <= #[trigger] n[i] && n[i] <= '9'
        }),
{
    let m: nat = if v < 0 { (-v) as nat } else { v as nat };
    lemma_digits_denote(m, 10);
    let d = digits(m, 10);
    if v < 0 {
        assert((seq!['-'] + d).drop_first() =~= d);
    } else {
        assert(char_digit(d[0]) < 10);
        assert(is_digit_char(d[0]));
    }
    if m == 0 {
        lemma_digit_char_roundtrip(0);
        assert(d =~= seq![digit_char(0)]);
    }
    assert forall|i: int| 0 <= i < d.len() implies '0' <= #[trigger] d[i] && d[i] <= '9' by {
        assert(char_digit(d[i]) < 10);
        if 'A' <= d[i] && d[i] <= 'F' {
            assert(d[i] as nat >= 65);
        }
    }
}

/// `{:X}` of an `i32` is the canonical upper-case hexadecimal numeral of its
/// two's complement bit pattern: it reads back as that pattern (below 2^32,
/// different for different values), uses only `0`-`9` and `A`-`F`, and
/// starts with `0` only for zero, so it has the fewest digits.
pub proof fn lemma_upper_hex_i32_denotes(v: i32, w: i32)
    ensures
        digits_value(upper_hex_i32(v), 16) == twos_complement(v),
        twos_complement(v) < 0x1_0000_0000,
        v != w ==> upper_hex_i32(v) != upper_hex_i32(w),
        upper_hex_i32(v).len() >= 1,
        (upper_hex_i32(v)[0] == '0') == (v == 0),
        forall|i: int| 0 <= i < upper_hex_i32(v).len() ==> is_digit_char(#[trigger] upper_hex_i32(v)[i]),
{
    lemma_digits_denote(twos_complement(v), 16);
    lemma_digits_denote(twos_complement(w), 16);
    let d = upper_hex_i32(v);
    if v == 0 {
        lemma_digit_char_roundtrip(0);
        assert(d =~= seq![digit_char(0)]);
    }
    assert forall|i: int| 0 <= i < d.len() implies is_digit_char(#[trigger] d[i]) by {
        assert(char_digit(d[i]) < 16);
    }
}

fn digit(d: u32) -> (c: char)
    requires
        d < 16,
    ensures
        c == digit_char(d as nat),
{
    let b: u8 = d as u8;
    if b < 10 {
        (b + 48) as char
    } else {
        (b + 55) as char
    }
}

/// Appends the digits of `n` in base `radix`.
pub fn push_digits(s: &mut String, n: u32, radix: u32)
    requires
        2 <= radix <= 16,
    ensures
        final(s)@ == old(s)@ + digits(n as nat, radix as nat),
    decreases n,
{
    if n >= radix {
        proof {
            vstd::arithmetic::div_mod::lemma_div_is_strictly_smaller(n as int, radix as int);
        }
        push_digits(s, n / radix, radix);
    }
    let ghost before = s@;
    push_char(s, digit(n % radix));
    if n >= radix {
        assert(digits(n as nat, radix as nat) == digits((n / radix) as nat, radix as nat).push(
            digit_char((n % radix) as nat),
        ));
    } else {
        proof {
            vstd::arithmetic::div_mod::lemma_small_mod(n as nat, radix as nat);
        }
        assert(digits(n as nat, radix as nat) == seq![digit_char((n % radix) as nat)]);
    }
    assert(s@ =~= before.push(digit_char((n % radix) as nat)));
    assert(final(s)@ =~= old(s)@ + digits(n as nat, radix as nat));
}

/// Appends `v` as `{}` renders it.
pub fn push_decimal_i32(s: &mut String, v: i32)
    ensures
        final(s)@ == old(s)@ + decimal_i32(v),
{
    if v < 0 {
        push_char(s, '-');
        let magnitude: u32 = (0i64 - v as i64) as u32;
        push_digits(s, magnitude, 10);
        assert(final(s)@ =~= old(s)@ + decimal_i32(v));
    } else {
        push_digits(s, v as u32, 10);
    }
}

/// Appends `v` as `{:X}` renders it.
pub fn push_upper_hex_i32(s: &mut String, v: i32)
    ensures
        final(s)@ == old(s)@ + upper_hex_i32(v),
{
    let bits: u32 = v as u32;
    assert(v < 0 ==> (v as u32) == v + 0x1_0000_0000) by (bit_vector);
    assert(v >= 0 ==> (v as u32) == v) by (bit_vector);
    push_digits(s, bits, 16);
}

} // verus!
