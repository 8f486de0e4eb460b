//! Text building blocks: decimal rendering of integers, line counting,
//! character replacement and lower-casing.
use vstd::prelude::*;

verus! {

/// Appending one character to a `String` (std's `String::push`): the text
/// grows by exactly that character.
pub assume_specification[ String::push ](s: &mut String, ch: char)
    ensures
        final(s)@ == old(s)@.push(ch),
;

/// The character of a decimal digit `0..=9`.
pub open spec fn digit_char(d: int) -> char {
    ((d + 48) as u8) as char
}

/// The decimal digits of a natural number, most significant first, without
/// leading zeros (the number zero is the single digit `0`).
pub open spec fn decimal_digits(n: nat) -> Seq<char>
    decreases n,
{
    if n < 10 {
        seq![digit_char(n as int)]
    } else {
        decimal_digits(n / 10).push(digit_char((n % 10) as int))
    }
}

/// The decimal rendering of an integer, as `{}` prints it: a minus sign
/// before the digits of a negative number.
pub open spec fn decimal(n: int) -> Seq<char> {
    if n < 0 {
        seq!['-'] + decimal_digits((-n) as nat)
    } else {
        decimal_digits(n as nat)
    }
}

/// A decimal rendering is made of digits, after a minus sign for a
/// negative number.
pub proof fn lemma_decimal_chars(n: int, k: int)
    requires
        0 <= k < decimal(n).len(),
    ensures
        decimal(n)[k] == '-' || ('0' <= decimal(n)[k] <= '9'),
{
    if n < 0 {
        if k > 0 {
            lemma_digits_chars((-n) as nat, k - 1);
        }
    } else {
        lemma_digits_chars(n as nat, k);
    }
}

/// The number that a sequence of decimal digits writes.
pub open spec fn digits_value(s: Seq<char>) -> int
    decreases s.len(),
{
    if s.len() == 0 {
        0
    } else {
        digits_value(s.drop_last()) * 10 + (s.last() as int - 48)
    }
}

/// The digits of a natural number write that number.
pub proof fn lemma_digits_value(n: nat)
    ensures
        digits_value(decimal_digits(n)) == n,
        decimal_digits(n).len() > 0,
    decreases n,
{
    if n >= 10 {
        lemma_digits_value(n / 10);
        let s = decimal_digits(n);
        assert(s.drop_last() =~= decimal_digits(n / 10));
        assert(s.last() == digit_char((n % 10) as int));
        lemma_digit_char_value((n % 10) as int);
        assert(digits_value(s) == digits_value(s.drop_last()) * 10 + (s.last() as int - 48));
        assert((n / 10) * 10 + n % 10 == n);
    } else {
        let s = decimal_digits(n);
        lemma_digit_char_value(n as int);
        assert(s.drop_last() =~= Seq::<char>::empty());
        assert(s.last() == digit_char(n as int));
        assert(digits_value(s) == digits_value(s.drop_last()) * 10 + (s.last() as int - 48));
    }
}

/// The character of a digit encodes it.
pub proof fn lemma_digit_char_value(d: int)
    requires
        0 <= d < 10,
    ensures
        digit_char(d) as int - 48 == d,
{
    let b = (d + 48) as u8;
    assert(b as int == d + 48);
    assert((b as char) as int == b as int);
}

/// Distinct integers have distinct decimal renderings.
pub proof fn lemma_decimal_injective(a: int, b: int)
    requires
        decimal(a) == decimal(b),
    ensures
        a == b,
{
    if a < 0 {
        lemma_digits_value((-a) as nat);
    } else {
        lemma_digits_value(a as nat);
        lemma_digits_chars(a as nat, 0);
    }
    if b < 0 {
        lemma_digits_value((-b) as nat);
    } else {
        lemma_digits_value(b as nat);
        lemma_digits_chars(b as nat, 0);
    }
    if a < 0 && b < 0 {
        assert(decimal_digits((-a) as nat) =~= decimal(a).drop_first());
        assert(decimal_digits((-b) as nat) =~= decimal(b).drop_first());
    } else if a < 0 {
        assert(decimal(a)[0] == '-');
        assert(decimal(b)[0] == decimal_digits(b as nat)[0]);
    } else if b < 0 {
        assert(decimal(b)[0] == '-');
        assert(decimal(a)[0] == decimal_digits(a as nat)[0]);
    }
}

/// The digits of a natural number are digits.
pub proof fn lemma_digits_chars(n: nat, k: int)
    requires
        0 <= k < decimal_digits(n).len(),
    ensures
        '0' <= decimal_digits(n)[k] <= '9',
    decreases n,
{
    if n >= 10 {
        if k < decimal_digits(n / 10).len() {
            lemma_digits_chars(n / 10, k);
        } else {
            assert(0 <= n % 10 < 10);
        }
    }
}

fn digits_of(n: u64) -> (s: String)
    ensures
        s@ == decimal_digits(n as nat),
    decreases n,
{
    if n < 10 {
        let mut s = String::new();
        let c: u8 = (n as u8) + 48;
        s.push(c as char);
        s
    } else {
        let mut s = digits_of(n / 10);
        let c: u8 = ((n % 10) as u8) + 48;
        s.push(c as char);
        s
    }
}

/// The decimal rendering of a count.
pub fn count_text(n: usize) -> (s: String)
    ensures
        s@ == decimal(n as int),
{
    digits_of(n as u64)
}

/// The decimal rendering of `n`.
pub fn int_text(n: i64) -> (s: String)
    ensures
        s@ == decimal(n as int),
{
    if n < 0 {
        let magnitude: u64 = if n == i64::MIN {
            9223372036854775808u64
        } else {
            (-n) as u64
        };
        let digits = digits_of(magnitude);
        let mut s = String::new();
        s.push('-');
        s.append(digits.as_str());
        s
    } else {
        digits_of(n as u64)
    }
}


/// The characters of `s`, one by one.
pub fn char_vec(s: &str) -> (v: Vec<char>)
    ensures
        v@ == s@,
{
    let n = s.unicode_len();
    let mut v: Vec<char> = Vec::new();
    let mut i: usize = 0;
    while i < n
        invariant
            n == s@.len(),
            i <= n,
            v@ == s@.take(i as int),
        decreases n - i,
    {
        v.push(s.get_char(i));
        i = i + 1;
        assert(v@ =~= s@.take(i as int));
    }
    assert(s@.take(n as int) =~= s@);
    v
}

/// The number of newline characters in `s`.
pub open spec fn newline_count(s: Seq<char>) -> nat
    decreases s.len(),
{
    if s.len() == 0 {
        0
    } else {
        newline_count(s.drop_last()) + if s.last() == '\n' {
            1nat
        } else {
            0nat
        }
    }
}

/// The number of lines of `s`, as std's `str::lines` yields them: lines end
/// at a newline (a carriage return before it belongs to the line ending),
/// the last line needs none, and the empty text has no line.
pub open spec fn line_count_of(s: Seq<char>) -> nat {
    if s.len() == 0 {
        0
    } else if s.last() == '\n' {
        newline_count(s)
    } else {
        newline_count(s) + 1
    }
}

/// The number of lines of `s` (`s.lines().count()`).
pub fn line_count(s: &str) -> (n: usize)
    ensures
        n == line_count_of(s@),
{
    let chars = char_vec(s);
    let len = chars.len();
    let mut newlines: usize = 0;
    let mut i: usize = 0;
    while i < len
        invariant
            len == chars@.len(),
            chars@ == s@,
            i <= len,
            newlines == newline_count(chars@.take(i as int)),
            newlines <= i,
        decreases len - i,
    {
        assert(chars@.take((i + 1) as int).drop_last() =~= chars@.take(i as int));
        if chars[i] == '\n' {
            newlines = newlines + 1;
        }
        i = i + 1;
    }
    assert(chars@.take(len as int) =~= chars@);
    if len == 0 {
        0
    } else if chars[len - 1] == '\n' {
        newlines
    } else {
        assert(newlines < len) by {
            lemma_newline_count_bound(chars@);
        }
        newlines + 1
    }
}

/// A text never has more newlines than characters, and fewer when it does
/// not end with one.
pub proof fn lemma_newline_count_bound(s: Seq<char>)
    ensures
        newline_count(s) <= s.len(),
        s.len() > 0 && s.last() != '\n' ==> newline_count(s) < s.len(),
    decreases s.len(),
{
    if s.len() > 0 {
        lemma_newline_count_bound(s.drop_last());
    }
}

/// The newlines of two texts put together are those of each.
pub proof fn lemma_newline_count_concat(a: Seq<char>, b: Seq<char>)
    ensures
        newline_count(a + b) == newline_count(a) + newline_count(b),
    decreases b.len(),
{
    if b.len() == 0 {
        assert(a + b =~= a);
    } else {
        lemma_newline_count_concat(a, b.drop_last());
        assert((a + b).drop_last() =~= a + b.drop_last());
    }
}

/// A text without a newline character has no newline.
pub proof fn lemma_newline_count_none(s: Seq<char>)
    requires
        !s.contains('\n'),
    ensures
        newline_count(s) == 0,
    decreases s.len(),
{
    if s.len() > 0 {
        assert(s.drop_last().contains('\n') ==> s.contains('\n')) by {
            if s.drop_last().contains('\n') {
                let k = choose|k: int| 0 <= k < s.drop_last().len() && s.drop_last()[k] == '\n';
                assert(s[k] == '\n');
            }
        }
        assert(s[s.len() - 1] != '\n');
        lemma_newline_count_none(s.drop_last());
    }
}

/// `s` with every `from` replaced by `to`.
pub open spec fn replace_char(s: Seq<char>, from: char, to: char) -> Seq<char> {
    s.map_values(|c: char| if c == from { to } else { c })
}

/// `s` with every `from` replaced by `to` (`s.replace(from, to)` for a
/// one-character replacement).
pub fn replace_char_text(s: &str, from: char, to: char) -> (r: String)
    ensures
        r@ == replace_char(s@, from, to),
        from != to ==> !r@.contains(from),
{
    let chars = char_vec(s);
    let mut r = String::new();
    let mut i: usize = 0;
    while i < chars.len()
        invariant
            chars@ == s@,
            i <= chars.len(),
            r@ == replace_char(s@.take(i as int), from, to),
        decreases chars.len() - i,
    {
        let c = chars[i];
        if c == from {
            r.push(to);
        } else {
            r.push(c);
        }
        i = i + 1;
        assert(r@ =~= replace_char(s@.take(i as int), from, to));
    }
    assert(s@.take(chars.len() as int) =~= s@);
    r
}

/// Replacing a character by another leaves none of it.
pub proof fn lemma_replace_removes(s: Seq<char>, from: char, to: char)
    requires
        from != to,
    ensures
        !replace_char(s, from, to).contains(from),
{
    let r = replace_char(s, from, to);
    assert forall|k: int| 0 <= k < r.len() implies r[k] != from by {
        assert(r[k] == (if s[k] == from { to } else { s[k] }));
    }
}

/// What std's `str::to_lowercase` returns for a text: the lowercase
/// equivalent of each character as Unicode defines it.
pub uninterp spec fn lowercase_text(s: Seq<char>) -> Seq<char>;

/// std's `str::to_lowercase`: the result is the lowercase form of `s`, named
/// `lowercase_text` (what Unicode's case mapping gives is not spelt out).
#[verifier::external_body]
pub(crate) fn lowercase(s: &str) -> (r: String)
    ensures
        r@ == lowercase_text(s@),
{
    s.to_lowercase()
}

/// std's `String::from_utf8`: the bytes decode exactly when they are valid
/// UTF-8, and then into the characters that UTF-8 encodes in them.
#[verifier::external_body]
pub(crate) fn utf8_decode(bytes: Vec<u8>) -> (r: Option<String>)
    ensures
        r is Some <==> vstd::utf8::valid_utf8(bytes@),
        r matches Some(s) ==> s@ == vstd::utf8::decode_utf8(bytes@),
{
    String::from_utf8(bytes).ok()
}

/// The text of an optional text, or the empty text.
pub open spec fn text_or_empty(o: Option<Seq<char>>) -> Seq<char> {
    match o {
        Some(t) => t,
        None => Seq::empty(),
    }
}

/// The view of an optional `String`.
pub open spec fn opt_text(o: Option<String>) -> Option<Seq<char>> {
    match o {
        Some(t) => Some(t@),
        None => None,
    }
}

} // verus!
