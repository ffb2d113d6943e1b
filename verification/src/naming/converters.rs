//! Conversion of lengths to decimal notation and of thread sizes to
//! designations with their pitch.

use crate::models::product::{attribute_value, ProductDetail, ProductView, SpecificationView};
use crate::text::{
    append, append_str, chars_of, contains, contains_char, has_prefix, has_substring, matches_at,
    replace, replaced, slice, string_of, trim, trimmed,
};
use regex::Regex;
use vstd::prelude::*;

verus! {

/// The most digits a numeral may have to be read as a number.
///
/// A mixed number multiplies three numerals, and rounding scales the result
/// by a hundred thousand; with eleven digits each, every such product stays
/// below two to the power 128, the widest integer there is to compute with.
pub const MAX_DIGITS: usize = 11;

/// `c` is one of the digits `0` to `9`.
pub open spec fn is_digit(c: char) -> bool {
    '0' <= c && c <= '9'
}

/// The number that the digit `c` stands for.
pub open spec fn digit_value(c: char) -> nat {
    (c as int - '0' as int) as nat
}

/// Every character of `s` is a digit.
pub open spec fn all_digits(s: Seq<char>) -> bool {
    forall|i: int| 0 <= i < s.len() ==> is_digit(#[trigger] s[i])
}

/// The number written by the digits `s` in base ten; zero for no digits.
pub open spec fn digits_value(s: Seq<char>) -> nat
    decreases s.len(),
{
    if s.len() == 0 {
        0
    } else {
        digits_value(s.drop_last()) * 10 + digit_value(s.last())
    }
}

/// Ten to the power `n`.
pub open spec fn pow10(n: nat) -> nat
    decreases n,
{
    if n == 0 {
        1
    } else {
        10 * pow10((n - 1) as nat)
    }
}

/// The position of the first `c` in `s`, or the length of `s` where there is none.
pub open spec fn first_index_of(s: Seq<char>, c: char) -> int
    decreases s.len(),
{
    if s.len() == 0 {
        0
    } else if s[0] == c {
        0
    } else {
        1 + first_index_of(s.drop_first(), c)
    }
}

/// A non-negative rational number `num / den`.
pub struct Fraction {
    pub num: u128,
    pub den: u128,
}

/// The mathematical content of a [`Fraction`]: numerator and denominator.
pub struct Ratio {
    pub num: nat,
    pub den: nat,
}

impl View for Fraction {
    type V = Ratio;

    open spec fn view(&self) -> Ratio {
        Ratio { num: self.num as nat, den: self.den as nat }
    }
}

/// The number that the numeral `s` writes, as a ratio over a power of ten.
///
/// A numeral is a run of digits that may hold one decimal point anywhere; it
/// has at least one digit and at most [`MAX_DIGITS`]. Anything else, a sign or
/// an exponent included, is no numeral.
pub open spec fn numeral(s: Seq<char>) -> Option<Ratio> {
    let dot = first_index_of(s, '.');
    let whole = s.take(dot);
    let part = s.skip(dot + 1);
    if dot >= s.len() {
        if 1 <= s.len() <= MAX_DIGITS && all_digits(s) {
            Some(Ratio { num: digits_value(s), den: 1 })
        } else {
            None
        }
    } else if 1 <= whole.len() + part.len() <= MAX_DIGITS && all_digits(whole) && all_digits(
        part,
    ) {
        Some(Ratio { num: digits_value(whole + part), den: pow10(part.len()) })
    } else {
        None
    }
}

/// The value of `numerator/denominator`, both numerals, the denominator not zero.
pub open spec fn simple_fraction(s: Seq<char>) -> Option<Ratio> {
    let slash = first_index_of(s, '/');
    if slash >= s.len() {
        None
    } else {
        match (numeral(s.take(slash)), numeral(s.skip(slash + 1))) {
            (Some(n), Some(d)) => if d.num == 0 {
                None
            } else {
                Some(Ratio { num: n.num * d.den, den: d.num * n.den })
            },
            _ => None,
        }
    }
}

/// The value of `whole-numerator/denominator`: a numeral plus a simple fraction.
pub open spec fn mixed_number(s: Seq<char>) -> Option<Ratio> {
    let dash = first_index_of(s, '-');
    if dash >= s.len() {
        None
    } else {
        match (numeral(s.take(dash)), simple_fraction(s.skip(dash + 1))) {
            (Some(w), Some(f)) => Some(
                Ratio { num: w.num * f.den + f.num * w.den, den: w.den * f.den },
            ),
            _ => None,
        }
    }
}

/// The value of a length written as a mixed number, a simple fraction or a
/// numeral; `None` where the text is none of these.
pub open spec fn fraction_value(s: Seq<char>) -> Option<Ratio> {
    if s.contains('-') && s.contains('/') {
        mixed_number(s)
    } else if s.contains('/') {
        simple_fraction(s)
    } else {
        numeral(s)
    }
}

/// The position of the first `c` in `s`, or the length of `s`.
fn index_of(s: &Vec<char>, c: char) -> (r: usize)
    ensures
        r == first_index_of(s@, c),
        r <= s.len(),
        r < s.len() ==> s@[r as int] == c,
        forall|j: int| 0 <= j < r ==> s@[j] != c,
{
    let mut i: usize = 0;
    assert(s@.skip(0) =~= s@);
    while i < s.len()
        invariant
            i <= s.len(),
            first_index_of(s@, c) == i + first_index_of(s@.skip(i as int), c),
            forall|j: int| 0 <= j < i ==> s@[j] != c,
        decreases s.len() - i,
    {
        assert(s@.skip(i as int).drop_first() =~= s@.skip(i + 1));
        if s[i] == c {
            return i;
        }
        i += 1;
    }
    i
}

/// The digit that writes `d`, a number below ten.
pub open spec fn digit_char(d: nat) -> char {
    (d + 48) as char
}

/// The numeral of `n` in base ten, without leading zeros.
pub open spec fn decimal_text(n: nat) -> Seq<char>
    decreases n,
{
    if n < 10 {
        seq![digit_char(n)]
    } else {
        decimal_text(n / 10).push(digit_char(n % 10))
    }
}

/// `n / d` rounded to the nearest whole number, a tie going to the even one.
pub open spec fn rounded_half_even(n: nat, d: nat) -> nat {
    let q = n / d;
    let twice = 2 * (n % d);
    if twice < d {
        q
    } else if twice > d {
        q + 1
    } else if q % 2 == 0 {
        q
    } else {
        q + 1
    }
}

/// `scaled / 100000` written with exactly five decimal places.
pub open spec fn fixed_five(scaled: nat) -> Seq<char> {
    let f = scaled % 100000;
    decimal_text(scaled / 100000) + seq![
        '.',
        digit_char(f / 10000),
        digit_char(f / 1000 % 10),
        digit_char(f / 100 % 10),
        digit_char(f / 10 % 10),
        digit_char(f % 10),
    ]
}

/// `s` without the run of `c` at its end.
pub open spec fn without_trailing(s: Seq<char>, c: char) -> Seq<char>
    decreases s.len(),
{
    if s.len() > 0 && s.last() == c {
        without_trailing(s.drop_last(), c)
    } else {
        s
    }
}

/// The decimal notation of `q`: a whole number without a decimal point,
/// anything else rounded to five decimal places, with trailing zeros and a
/// trailing decimal point removed.
pub open spec fn decimal_notation(q: Ratio) -> Seq<char> {
    if q.num % q.den == 0 {
        decimal_text(q.num / q.den)
    } else {
        without_trailing(
            without_trailing(fixed_five(rounded_half_even(q.num * 100000, q.den)), '0'),
            '.',
        )
    }
}

/// What a length reads as in decimal notation.
///
/// A value with an inch mark loses its marks, has a space turned into a
/// hyphen, and is then converted where it is a number; a value in
/// millimetres loses its unit; any other value stays as it is.
pub open spec fn length_text(value: Seq<char>) -> Seq<char> {
    if value.contains('"') {
        let clean = replaced(replaced(value, "\""@, ""@), " "@, "-"@);
        match fraction_value(clean) {
            Some(q) => decimal_notation(q),
            None => clean,
        }
    } else if has_substring(value, "mm"@) {
        trimmed(replaced(value, "mm"@, ""@))
    } else {
        value
    }
}

/// The powers of ten up to the eleventh are at most a hundred thousand
/// million.
proof fn lemma_pow10_small(n: nat)
    requires
        n <= 11,
    ensures
        1 <= pow10(n) <= 100_000_000_000,
        pow10(n + 1) == 10 * pow10(n),
{
    reveal_with_fuel(pow10, 13);
}

/// A run of `k` digits writes a number below ten to the `k`.
proof fn lemma_digits_value_bound(s: Seq<char>)
    requires
        all_digits(s),
    ensures
        digits_value(s) < pow10(s.len()),
    decreases s.len(),
{
    if s.len() > 0 {
        lemma_digits_value_bound(s.drop_last());
        assert(is_digit(s[s.len() - 1]));
    }
}

/// Whether every character of `s` is a digit.
fn only_digits(s: &Vec<char>) -> (r: bool)
    ensures
        r == all_digits(s@),
{
    let mut i: usize = 0;
    while i < s.len()
        invariant
            i <= s.len(),
            forall|j: int| 0 <= j < i ==> is_digit(#[trigger] s@[j]),
        decreases s.len() - i,
    {
        if !(s[i] >= '0' && s[i] <= '9') {
            return false;
        }
        i += 1;
    }
    true
}

/// The number written by a short run of digits.
fn value_of_digits(s: &Vec<char>) -> (r: u128)
    requires
        all_digits(s@),
        s.len() <= MAX_DIGITS,
    ensures
        r == digits_value(s@),
        r < 100_000_000_000,
{
    let mut acc: u128 = 0;
    let mut i: usize = 0;
    while i < s.len()
        invariant
            i <= s.len() <= MAX_DIGITS,
            all_digits(s@),
            acc == digits_value(s@.take(i as int)),
            acc < pow10(i as nat),
        decreases s.len() - i,
    {
        proof {
            lemma_pow10_small(i as nat);
            assert(s@.take(i + 1).drop_last() =~= s@.take(i as int));
            assert(is_digit(s@[i as int]));
        }
        let d: u32 = s[i] as u32 - 48;
        acc = acc * 10 + d as u128;
        i += 1;
    }
    proof {
        assert(s@.take(s.len() as int) =~= s@);
        lemma_pow10_small(s.len() as nat);
    }
    acc
}

/// Ten to the power `n`, for a small `n`.
fn power_of_ten(n: usize) -> (r: u128)
    requires
        n <= MAX_DIGITS,
    ensures
        r == pow10(n as nat),
        1 <= r <= 100_000_000_000,
{
    let mut r: u128 = 1;
    let mut i: usize = 0;
    while i < n
        invariant
            i <= n <= MAX_DIGITS,
            r == pow10(i as nat),
        decreases n - i,
    {
        proof {
            lemma_pow10_small(i as nat);
        }
        r = r * 10;
        i += 1;
    }
    proof {
        lemma_pow10_small(n as nat);
    }
    r
}

/// Reads a numeral.
fn parse_numeral(s: &Vec<char>) -> (r: Option<Fraction>)
    ensures
        match r {
            Some(q) => numeral(s@) == Some(q@) && q.num < 100_000_000_000 && 1 <= q.den
                <= 100_000_000_000,
            None => numeral(s@) is None,
        },
{
    let dot = index_of(s, '.');
    if dot >= s.len() {
        if s.len() < 1 || s.len() > MAX_DIGITS || !only_digits(s) {
            return None;
        }
        let num = value_of_digits(s);
        return Some(Fraction { num, den: 1 });
    }
    let whole = slice(s, 0, dot);
    let part = slice(s, dot + 1, s.len());
    assert(whole@ =~= s@.take(dot as int));
    assert(part@ =~= s@.skip(dot + 1));
    let count = whole.len() + part.len();
    if count < 1 || count > MAX_DIGITS || !only_digits(&whole) || !only_digits(&part) {
        return None;
    }
    let mut digits: Vec<char> = Vec::new();
    append(&mut digits, &whole);
    append(&mut digits, &part);
    assert(digits@ =~= whole@ + part@);
    let num = value_of_digits(&digits);
    let den = power_of_ten(part.len());
    Some(Fraction { num, den })
}

/// Reads `numerator/denominator`.
fn parse_simple_fraction(s: &Vec<char>) -> (r: Option<Fraction>)
    ensures
        match r {
            Some(q) => simple_fraction(s@) == Some(q@) && q.num < 10_000_000_000_000_000_000_000 && 1
                <= q.den < 10_000_000_000_000_000_000_000,
            None => simple_fraction(s@) is None,
        },
{
    let slash = index_of(s, '/');
    if slash >= s.len() {
        return None;
    }
    let above = slice(s, 0, slash);
    let below = slice(s, slash + 1, s.len());
    assert(above@ =~= s@.take(slash as int));
    assert(below@ =~= s@.skip(slash + 1));
    match (parse_numeral(&above), parse_numeral(&below)) {
        (Some(n), Some(d)) => {
            if d.num == 0 {
                None
            } else {
                assert(n.num * d.den < 10_000_000_000_000_000_000_000) by (nonlinear_arith)
                    requires
                        n.num < 100_000_000_000,
                        d.den <= 100_000_000_000,
                ;
                assert(1 <= d.num * n.den < 10_000_000_000_000_000_000_000) by (nonlinear_arith)
                    requires
                        1 <= d.num < 100_000_000_000,
                        1 <= n.den <= 100_000_000_000,
                ;
                Some(Fraction { num: n.num * d.den, den: d.num * n.den })
            }
        },
        _ => None,
    }
}

/// Reads `whole-numerator/denominator`.
fn parse_mixed_number(s: &Vec<char>) -> (r: Option<Fraction>)
    ensures
        match r {
            Some(q) => mixed_number(s@) == Some(q@) && in_reach(q@),
            None => mixed_number(s@) is None,
        },
{
    let dash = index_of(s, '-');
    if dash >= s.len() {
        return None;
    }
    let whole = slice(s, 0, dash);
    let rest = slice(s, dash + 1, s.len());
    assert(whole@ =~= s@.take(dash as int));
    assert(rest@ =~= s@.skip(dash + 1));
    match (parse_numeral(&whole), parse_simple_fraction(&rest)) {
        (Some(w), Some(f)) => {
            assert(w.num * f.den < 1_000_000_000_000_000_000_000_000_000_000_000) by (nonlinear_arith)
                requires
                    w.num < 100_000_000_000,
                    f.den < 10_000_000_000_000_000_000_000,
            ;
            assert(f.num * w.den < 1_000_000_000_000_000_000_000_000_000_000_000) by (nonlinear_arith)
                requires
                    f.num < 10_000_000_000_000_000_000_000,
                    w.den <= 100_000_000_000,
            ;
            assert(1 <= w.den * f.den < 1_000_000_000_000_000_000_000_000_000_000_000)
                by (nonlinear_arith)
                requires
                    1 <= w.den <= 100_000_000_000,
                    1 <= f.den < 10_000_000_000_000_000_000_000,
            ;
            Some(Fraction { num: w.num * f.den + f.num * w.den, den: w.den * f.den })
        },
        _ => None,
    }
}

/// The sizes up to which this module computes: every number read from a
/// text lies within them.
pub open spec fn in_reach(q: Ratio) -> bool {
    q.num < 2_000_000_000_000_000_000_000_000_000_000_000 && 1 <= q.den
        < 1_000_000_000_000_000_000_000_000_000_000_000
}

/// Reads a length written as a mixed number (`2-3/8`), a simple fraction
/// (`3/4`) or a numeral (`2`, `0.5`) into an exact fraction.
pub fn parse_fraction_to_decimal(fraction_str: &str) -> (r: Option<Fraction>)
    ensures
        match r {
            Some(q) => fraction_value(fraction_str@) == Some(q@) && in_reach(q@),
            None => fraction_value(fraction_str@) is None,
        },
{
    let s = chars_of(fraction_str);
    parse_fraction(&s)
}

/// Reads a length from its characters.
fn parse_fraction(s: &Vec<char>) -> (r: Option<Fraction>)
    ensures
        match r {
            Some(q) => fraction_value(s@) == Some(q@) && in_reach(q@),
            None => fraction_value(s@) is None,
        },
{
    let slashed = contains_char(s, '/');
    if contains_char(s, '-') && slashed {
        parse_mixed_number(s)
    } else if slashed {
        parse_simple_fraction(s)
    } else {
        parse_numeral(s)
    }
}

/// The digit that writes `d`.
fn digit_of(d: u128) -> (c: char)
    requires
        d < 10,
    ensures
        c == digit_char(d as nat),
{
    (d as u8 + 48) as char
}

/// Appends the numeral of `n`.
pub fn push_decimal(out: &mut Vec<char>, n: u128)
    ensures
        final(out)@ == old(out)@ + decimal_text(n as nat),
    decreases n,
{
    if n < 10 {
        out.push(digit_of(n));
        assert(out@ =~= old(out)@ + decimal_text(n as nat));
    } else {
        push_decimal(out, n / 10);
        out.push(digit_of(n % 10));
        assert(out@ =~= old(out)@ + decimal_text(n as nat));
    }
}

/// Removes the run of `c` at the end of `out`.
fn strip_trailing(out: &mut Vec<char>, c: char)
    ensures
        final(out)@ == without_trailing(old(out)@, c),
{
    while out.len() > 0 && out[out.len() - 1] == c
        invariant
            without_trailing(out@, c) == without_trailing(old(out)@, c),
        decreases out.len(),
    {
        out.pop();
    }
}

/// Writes a fraction in decimal notation.
fn render(q: &Fraction) -> (r: Vec<char>)
    requires
        in_reach(q@),
    ensures
        r@ == decimal_notation(q@),
{
    let mut out: Vec<char> = Vec::new();
    if q.num % q.den == 0 {
        push_decimal(&mut out, q.num / q.den);
        assert(out@ =~= decimal_text(q@.num / q@.den));
    } else {
        let n: u128 = q.num * 100000;
        let quotient: u128 = n / q.den;
        let twice: u128 = 2 * (n % q.den);
        let scaled: u128 = if twice < q.den {
            quotient
        } else if twice > q.den {
            quotient + 1
        } else if quotient % 2 == 0 {
            quotient
        } else {
            quotient + 1
        };
        assert(scaled == rounded_half_even(q@.num * 100000, q@.den));
        let f: u128 = scaled % 100000;
        push_decimal(&mut out, scaled / 100000);
        out.push('.');
        out.push(digit_of(f / 10000));
        out.push(digit_of(f / 1000 % 10));
        out.push(digit_of(f / 100 % 10));
        out.push(digit_of(f / 10 % 10));
        out.push(digit_of(f % 10));
        assert(out@ =~= fixed_five(scaled as nat));
        strip_trailing(&mut out, '0');
        strip_trailing(&mut out, '.');
    }
    out
}

/// Converts a length to decimal notation.
///
/// `3/4"` becomes `0.75`, `1-3/8"` and `1 3/8"` become `1.375`, `2"` becomes
/// `2` and `10mm` becomes `10`. A value with an inch mark that is no number,
/// a division by zero included, comes back with its marks removed and its
/// spaces turned into hyphens; a value without an inch mark or `mm` comes
/// back unchanged.
pub fn convert_length_to_decimal(value: &str) -> (r: String)
    ensures
        r@ == length_text(value@),
{
    let v = chars_of(value);
    if contains_char(&v, '"') {
        let clean = replace(&replace(&v, "\"", ""), " ", "-");
        match parse_fraction(&clean) {
            Some(q) => string_of(&render(&q)),
            None => string_of(&clean),
        }
    } else if contains(&v, "mm") {
        string_of(&trim(&replace(&v, "mm", "")))
    } else {
        string_of(&v)
    }
}

/// The text of capture group `group` in the leftmost match of the regular
/// expression `pattern` in `text`, as the `regex` crate finds it; `None`
/// where the pattern does not compile, nothing matches, or the group takes
/// no part in the match.
pub uninterp spec fn captured_group(pattern: Seq<char>, text: Seq<char>, group: nat) -> Option<
    Seq<char>,
>;

/// The characters of an optional string.
pub open spec fn text_of(o: Option<String>) -> Option<Seq<char>> {
    match o {
        Some(s) => Some(s@),
        None => None,
    }
}

/// `Regex::new`, `Regex::captures`, `Captures::get` and `Match::as_str` of
/// the `regex` crate: compiles `pattern`, searches `text` for its leftmost
/// match and hands out the text of one capture group. None of the calls
/// panics; a pattern that does not compile gives `None`. The contract only
/// names the result.
#[verifier::external_body]
fn capture_group(pattern: &str, text: &str, group: usize) -> (r: Option<String>)
    ensures
        text_of(r) == captured_group(pattern@, text@, group as nat),
{
    match Regex::new(pattern) {
        Ok(re) => re.captures(text).and_then(|c| c.get(group)).map(|m| m.as_str().to_string()),
        Err(_) => None,
    }
}

/// The pattern that finds a metric thread with its pitch, such as
/// `M8 x 1.25 mm`, in a description; its first group is the pitch.
pub open spec fn pitch_pattern() -> Seq<char> {
    "M\\d+\\s*x?\\s*(\\d+\\.?\\d*)\\s*mm"@
}

/// A thread size that is metric and names no pitch: it begins with `M` and
/// holds no `x`.
pub open spec fn lacks_pitch(size: Seq<char>) -> bool {
    size.len() > 0 && size[0] == 'M' && !size.contains('x')
}

/// The position of the first specification, from `from` on, whose attribute
/// holds `Threads per Inch` or `threads per inch`.
pub open spec fn position_of_thread_count(specs: Seq<SpecificationView>, from: int) -> Option<int>
    decreases specs.len() - from,
{
    if from < 0 || from >= specs.len() {
        None
    } else if has_substring(specs[from].attribute, "Threads per Inch"@) || has_substring(
        specs[from].attribute,
        "threads per inch"@,
    ) {
        Some(from)
    } else {
        position_of_thread_count(specs, from + 1)
    }
}

/// The first value of the first threads-per-inch specification.
pub open spec fn thread_count(specs: Seq<SpecificationView>) -> Option<Seq<char>> {
    match position_of_thread_count(specs, 0) {
        Some(i) => if specs[i].values.len() > 0 {
            Some(specs[i].values[0])
        } else {
            None
        },
        None => None,
    }
}

/// `size` without a leading `No. `.
pub open spec fn without_number_sign(size: Seq<char>) -> Seq<char> {
    if has_prefix(size, "No. "@) {
        size.skip("No. "@.len() as int)
    } else {
        size
    }
}

/// The thread designation of a product with the thread size `size`, where
/// `pitch_found` is the pitch that the detail description names, if any.
///
/// Hyphens become `x`. A metric size without a pitch gains the pitch found
/// in the description, else the value of `Thread Pitch` without its `mm`.
/// Failing that, a product with a threads-per-inch specification reads
/// `<size>x<count>`, the size as given but for a leading `No. `.
pub open spec fn thread_designation(
    p: ProductView,
    size: Seq<char>,
    pitch_found: Option<Seq<char>>,
) -> Seq<char> {
    let with_x = replaced(size, "-"@, "x"@);
    if lacks_pitch(with_x) && pitch_found is Some {
        with_x + "x"@ + pitch_found->0
    } else if lacks_pitch(with_x) && attribute_value(p.specifications, "Thread Pitch"@) is Some {
        with_x + "x"@ + trimmed(
            replaced(attribute_value(p.specifications, "Thread Pitch"@)->0, "mm"@, ""@),
        )
    } else {
        match thread_count(p.specifications) {
            Some(count) => without_number_sign(size) + "x"@ + trimmed(count),
            None => with_x,
        }
    }
}

/// Whether a thread size is metric and names no pitch.
fn wants_pitch(size: &Vec<char>) -> (r: bool)
    ensures
        r == lacks_pitch(size@),
{
    size.len() > 0 && size[0] == 'M' && !contains_char(size, 'x')
}

/// The first value of the first threads-per-inch specification.
fn thread_count_of(product: &ProductDetail) -> (r: Option<&String>)
    ensures
        match r {
            Some(v) => thread_count(product@.specifications) == Some(v@),
            None => thread_count(product@.specifications) is None,
        },
{
    let mut i: usize = 0;
    while i < product.specifications.len()
        invariant
            i <= product.specifications.len(),
            position_of_thread_count(product@.specifications, 0) == position_of_thread_count(
                product@.specifications,
                i as int,
            ),
        decreases product.specifications.len() - i,
    {
        let attribute = chars_of(product.specifications[i].attribute.as_str());
        if contains(&attribute, "Threads per Inch") || contains(&attribute, "threads per inch") {
            if product.specifications[i].values.len() > 0 {
                return Some(&product.specifications[i].values[0]);
            } else {
                return None;
            }
        }
        i += 1;
    }
    None
}

/// Builds the thread designation of a product from its thread size and the
/// pitch that was found in its detail description.
pub fn thread_with_pitch(
    product: &ProductDetail,
    thread_size: &str,
    pitch_found: Option<String>,
) -> (r: String)
    ensures
        r@ == thread_designation(product@, thread_size@, text_of(pitch_found)),
{
    let size = chars_of(thread_size);
    let mut with_x = replace(&size, "-", "x");
    if wants_pitch(&with_x) {
        match pitch_found {
            Some(pitch) => {
                append_str(&mut with_x, "x");
                append_str(&mut with_x, pitch.as_str());
                return string_of(&with_x);
            },
            None => {},
        }
        match product.specification_value("Thread Pitch") {
            Some(value) => {
                let pitch = trim(&replace(&chars_of(value.as_str()), "mm", ""));
                append_str(&mut with_x, "x");
                append(&mut with_x, &pitch);
                return string_of(&with_x);
            },
            None => {},
        }
    }
    match thread_count_of(product) {
        Some(count) => {
            let number_prefix = chars_of("No. ");
            let mut out = if matches_at(&size, &number_prefix, 0) {
                let rest = slice(&size, number_prefix.len(), size.len());
                assert(rest@ =~= size@.skip("No. "@.len() as int));
                rest
            } else {
                size
            };
            append_str(&mut out, "x");
            append(&mut out, &trim(&chars_of(count.as_str())));
            string_of(&out)
        },
        None => string_of(&with_x),
    }
}

/// Extracts the thread designation of a product: the thread size with `x`
/// for its hyphens and, where it can be found, its pitch or thread count.
pub fn extract_thread_with_pitch(product: &ProductDetail, thread_size: &str) -> (r: String)
    ensures
        r@ == thread_designation(
            product@,
            thread_size@,
            captured_group(pitch_pattern(), product@.detail_description, 1),
        ),
{
    let size = chars_of(thread_size);
    let with_x = replace(&size, "-", "x");
    let pitch_found = if wants_pitch(&with_x) {
        capture_group(
            "M\\d+\\s*x?\\s*(\\d+\\.?\\d*)\\s*mm",
            product.detail_description.as_str(),
            1,
        )
    } else {
        None
    };
    thread_with_pitch(product, thread_size, pitch_found)
}

} // verus!
