use vstd::prelude::*;

verus! {

/// The characters of `s`, in order.
pub fn chars_of(s: &str) -> (v: Vec<char>)
    ensures
        v@ == s@,
{
    let mut v: Vec<char> = Vec::new();
    for c in it: s.chars()
        invariant
            v@ == it.seq().take(it.index() as int),
    {
        v.push(c);
    }
    v
}

/// Appends `c` to `s`, through `String::push`; its documentation says that
/// it appends the character to the end of the string.
#[verifier::external_body]
pub(crate) fn push_char(s: &mut String, c: char)
    ensures
        final(s)@ == old(s)@.push(c),
{
    s.push(c)
}

/// The string made of the characters of `chars`, in order.
pub fn string_from_chars(chars: &[char]) -> (s: String)
    ensures
        s@ == chars@,
{
    let mut s = String::new();
    let mut i: usize = 0;
    while i < chars.len()
        invariant
            i <= chars.len(),
            s@ == chars@.take(i as int),
        decreases chars.len() - i,
    {
        push_char(&mut s, chars[i]);
        i = i + 1;
        assert(chars@.take(i as int) =~= chars@.take((i - 1) as int).push(chars@[i - 1]));
    }
    assert(chars@.take(chars.len() as int) =~= chars@);
    s
}

/// The string made of `prefix` followed by `suffix`.
pub fn concat_str(prefix: &str, suffix: &str) -> (s: String)
    ensures
        s@ == prefix@ + suffix@,
{
    let mut s = String::from_str(prefix);
    s.append(suffix);
    s
}

/// Whether `c` has the Unicode `White_Space` property: the controls U+0009
/// to U+000D, the space, U+0085, the no-break space, the Ogham space mark,
/// the spaces U+2000 to U+200A, the line and paragraph separators, the
/// narrow no-break space, the medium mathematical space and the ideographic
/// space. This is the whitespace of `str::trim` and `char::is_whitespace`,
/// and the class `\s` of the `regex` crate.
pub open spec fn is_white_space(c: char) -> bool {
    let v = c as u32;
    ||| 0x09 <= v <= 0x0d
    ||| v == 0x20
    ||| v == 0x85
    ||| v == 0xa0
    ||| v == 0x1680
    ||| 0x2000 <= v <= 0x200a
    ||| v == 0x2028
    ||| v == 0x2029
    ||| v == 0x202f
    ||| v == 0x205f
    ||| v == 0x3000
}

/// Whether `c` is whitespace.
pub fn is_whitespace(c: char) -> (b: bool)
    ensures
        b == is_white_space(c),
{
    let v = c as u32;
    (0x09 <= v && v <= 0x0d) || v == 0x20 || v == 0x85 || v == 0xa0 || v == 0x1680 || (0x2000
        <= v && v <= 0x200a) || v == 0x2028 || v == 0x2029 || v == 0x202f || v == 0x205f || v
        == 0x3000
}

/// `s` without the whitespace (in the sense of `is_white_space`) at its
/// start and at its end, as `str::trim` returns it.
pub open spec fn spec_trim(s: Seq<char>) -> Seq<char> {
    spec_trim_start(spec_trim_end(s))
}

/// `s` without the whitespace at its end.
pub open spec fn spec_trim_end(s: Seq<char>) -> Seq<char>
    decreases s.len(),
{
    if s.len() > 0 && is_white_space(s.last()) {
        spec_trim_end(s.drop_last())
    } else {
        s
    }
}

/// `s` without the whitespace at its start.
pub open spec fn spec_trim_start(s: Seq<char>) -> Seq<char>
    decreases s.len(),
{
    if s.len() > 0 && is_white_space(s[0]) {
        spec_trim_start(s.drop_first())
    } else {
        s
    }
}

/// The characters `s[start..end]` without surrounding whitespace.
pub fn trim_chars(s: &[char], start: usize, end: usize) -> (r: String)
    requires
        start <= end <= s.len(),
    ensures
        r@ == spec_trim(s@.subrange(start as int, end as int)),
{
    let mut hi = end;
    while hi > start && is_whitespace(s[hi - 1])
        invariant
            start <= hi <= end <= s.len(),
            spec_trim_end(s@.subrange(start as int, end as int)) == spec_trim_end(
                s@.subrange(start as int, hi as int),
            ),
        decreases hi,
    {
        assert(s@.subrange(start as int, hi as int).drop_last() =~= s@.subrange(
            start as int,
            hi - 1,
        ));
        hi = hi - 1;
    }
    let mut lo = start;
    while lo < hi && is_whitespace(s[lo])
        invariant
            start <= lo <= hi <= end <= s.len(),
            spec_trim(s@.subrange(start as int, end as int)) == spec_trim_start(
                s@.subrange(lo as int, hi as int),
            ),
        decreases hi - lo,
    {
        assert(s@.subrange(lo as int, hi as int).drop_first() =~= s@.subrange(
            lo + 1,
            hi as int,
        ));
        lo = lo + 1;
    }
    string_from_chars(slice_subrange(s, lo, hi))
}

/// The sub-slice `s[start..end]`.
pub fn slice_subrange<T>(s: &[T], start: usize, end: usize) -> (r: &[T])
    requires
        start <= end <= s.len(),
    ensures
        r@ == s@.subrange(start as int, end as int),
{
    &s[start..end]
}

/// Whether `pattern` compiles as a regular expression of the `regex` crate
/// and finds a match somewhere in `text` (the whole text, for a pattern
/// anchored with `^` and `$`).
pub uninterp spec fn regex_finds_match(pattern: Seq<char>, text: Seq<char>) -> bool;

/// `regex::Regex::new(pattern)` followed by `Regex::is_match(text)`; a
/// pattern that does not compile matches nothing. The result is a function
/// of the pattern and the text alone, named `regex_finds_match`.
#[verifier::external_body]
pub(crate) fn regex_matches(pattern: &str, text: &str) -> (b: bool)
    ensures
        b == regex_finds_match(pattern@, text@),
{
    match regex::Regex::new(pattern) {
        Ok(re) => re.is_match(text),
        Err(_) => false,
    }
}

/// The pattern that matches a text made of one word character (`\w`).
pub const WORD_CLASS: &'static str = "^\\w$";

/// The pattern that matches a text made of one decimal digit (`\d`).
pub const DIGIT_CLASS: &'static str = "^\\d$";

/// Whether `c` belongs to the class that `class` matches on its own.
pub open spec fn in_class(class: &str, c: char) -> bool {
    regex_finds_match(class@, seq![c])
}

/// Whether `c` belongs to the regular-expression class `class`.
pub fn char_in_class(class: &str, c: char) -> (b: bool)
    ensures
        b == in_class(class, c),
{
    let mut one = String::new();
    push_char(&mut one, c);
    assert(one@ =~= seq![c]);
    regex_matches(class, one.as_str())
}

/// What `String::from_utf8_lossy` makes of `bytes`.
pub uninterp spec fn utf8_lossy_decode(bytes: Seq<u8>) -> Seq<char>;

/// The text that `bytes` read as UTF-8 give, with invalid sequences
/// replaced: valid UTF-8 is decoded as it is.
pub open spec fn read_utf8_lossy(bytes: Seq<u8>) -> Seq<char> {
    if vstd::utf8::valid_utf8(bytes) {
        vstd::utf8::decode_utf8(bytes)
    } else {
        utf8_lossy_decode(bytes)
    }
}

/// `String::from_utf8_lossy`, made an owned `String`. Its result is a
/// function of the bytes alone; of bytes that are valid UTF-8 its
/// documentation says that they are decoded as they are, and what it makes
/// of others is named `utf8_lossy_decode`.
#[verifier::external_body]
pub(crate) fn utf8_lossy(bytes: &[u8]) -> (s: String)
    ensures
        s@ == (if vstd::utf8::valid_utf8(bytes@) {
            vstd::utf8::decode_utf8(bytes@)
        } else {
            utf8_lossy_decode(bytes@)
        }),
{
    String::from_utf8_lossy(bytes).into_owned()
}

/// The decimal digits of `n`, most significant first, without leading zeros.
pub open spec fn decimal(n: nat) -> Seq<char>
    decreases n,
{
    if n < 10 {
        seq![digit_char(n)]
    } else {
        decimal(n / 10).push(digit_char(n % 10))
    }
}

/// The ASCII character of the decimal digit `d`.
pub open spec fn digit_char(d: nat) -> char {
    (d + 48) as char
}

/// The decimal representation of `n`.
pub fn decimal_string(n: u16) -> (s: String)
    ensures
        s@ == decimal(n as nat),
{
    let mut digits: Vec<char> = Vec::new();
    let mut m: u16 = n;
    let ghost mut rest: Seq<char> = Seq::empty();
    // Digits are produced least significant first.
    loop
        invariant
            decimal(n as nat) == decimal(m as nat) + rest,
            digits@ == rest.reverse(),
        decreases m,
    {
        let d: u16 = m % 10;
        let c: char = if d == 0 { '0' } else if d == 1 { '1' } else if d == 2 { '2' } else if d == 3 { '3' }
            else if d == 4 { '4' } else if d == 5 { '5' } else if d == 6 { '6' } else if d == 7 { '7' }
            else if d == 8 { '8' } else { '9' };
        assert(c == digit_char(d as nat));
        if m < 10 {
            proof {
                assert(decimal(m as nat) == seq![c]);
                assert(decimal(n as nat) == seq![c] + rest);
            }
            digits.push(c);
            proof {
                assert(digits@ =~= (seq![c] + rest).reverse());
            }
            let mut s = String::new();
            let mut i: usize = digits.len();
            let ghost all = digits@.reverse();
            assert(all == decimal(n as nat)) by {
                assert(all =~= seq![c] + rest);
            }
            while i > 0
                invariant
                    i <= digits.len(),
                    all == digits@.reverse(),
                    s@ == all.take((digits.len() - i) as int),
                decreases i,
            {
                i = i - 1;
                push_char(&mut s, digits[i]);
                assert(all.take((digits.len() - i) as int) =~= all.take(
                    (digits.len() - i - 1) as int,
                ).push(digits@[i as int]));
            }
            assert(all.take(digits.len() as int) =~= all);
            return s;
        }
        proof {
            assert(decimal(m as nat) == decimal((m / 10) as nat).push(c));
            assert(decimal(n as nat) =~= decimal((m / 10) as nat) + (seq![c] + rest));
        }
        digits.push(c);
        proof {
            assert(digits@ =~= (seq![c] + rest).reverse());
            rest = seq![c] + rest;
        }
        m = m / 10;
    }
}

/// The number that a text of decimal digits spells, most significant digit
/// first.
pub open spec fn numeral_value(s: Seq<char>) -> int
    decreases s.len(),
{
    if s.len() == 0 {
        0
    } else {
        numeral_value(s.drop_last()) * 10 + (s.last() as int - 48)
    }
}

/// Every character of `s` is an ASCII decimal digit.
pub open spec fn all_decimal_digits(s: Seq<char>) -> bool {
    forall|i: int| 0 <= i < s.len() ==> '0' <= #[trigger] s[i] <= '9'
}

/// The decimal text of `n` spells `n`: it is a non-empty text of ASCII
/// digits, without a leading zero unless `n` is zero, and reading it back as
/// a number gives `n`.
pub proof fn lemma_decimal_spells(n: nat)
    ensures
        decimal(n).len() > 0,
        all_decimal_digits(decimal(n)),
        numeral_value(decimal(n)) == n,
        decimal(n)[0] == '0' ==> n == 0,
    decreases n,
{
    let d = (n % 10) as nat;
    assert(((d + 48) as char) as int == d + 48);
    if n < 10 {
        assert(decimal(n) == seq![digit_char(n)]);
        assert(seq![digit_char(n)].drop_last() =~= Seq::<char>::empty());
        assert(numeral_value(seq![digit_char(n)]) == numeral_value(Seq::<char>::empty()) * 10 + (
        digit_char(n) as int - 48));
    } else {
        lemma_decimal_spells(n / 10);
        let s = decimal(n / 10);
        assert(decimal(n) == s.push(digit_char(d)));
        assert(s.push(digit_char(d)).drop_last() =~= s);
        assert(s.push(digit_char(d))[0] == s[0]);
        assert(numeral_value(s.push(digit_char(d))) == numeral_value(s) * 10 + (digit_char(d) as int
            - 48));
        assert(n == (n / 10) * 10 + d);
    }
}

} // verus!
