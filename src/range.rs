//! The range notation: `"2-4"`, `"5+"`, `"7"`, `"3-6[even]"`.

use vstd::prelude::*;

verus! {

/// A parity constraint on the values a range admits.
#[derive(Debug, Clone, Copy, PartialEq, Eq, Structural)]
pub enum RangeModifier {
    Even,
    Odd,
}

/// An inclusive range of counts. A `max` of zero means "no upper bound".
#[derive(Debug, Clone, Copy, PartialEq, Eq, Structural)]
pub struct Range {
    pub min: u8,
    pub max: u8,
    pub modifier: Option<RangeModifier>,
}

/// The character that spells the decimal digit `d`.
pub open spec fn digit_char(d: nat) -> char {
    if d == 0 {
        '0'
    } else if d == 1 {
        '1'
    } else if d == 2 {
        '2'
    } else if d == 3 {
        '3'
    } else if d == 4 {
        '4'
    } else if d == 5 {
        '5'
    } else if d == 6 {
        '6'
    } else if d == 7 {
        '7'
    } else if d == 8 {
        '8'
    } else {
        '9'
    }
}

/// The shortest decimal spelling of `n`.
pub open spec fn decimal(n: nat) -> Seq<char>
    decreases n,
{
    if n < 10 {
        seq![digit_char(n)]
    } else {
        decimal(n / 10).push(digit_char(n % 10))
    }
}

/// The word that names a modifier.
pub open spec fn modifier_word(m: RangeModifier) -> Seq<char> {
    match m {
        RangeModifier::Even => seq!['e', 'v', 'e', 'n'],
        RangeModifier::Odd => seq!['o', 'd', 'd'],
    }
}

/// The bracketed suffix that an optional modifier adds to a range's text.
pub open spec fn modifier_suffix(m: Option<RangeModifier>) -> Seq<char> {
    match m {
        None => Seq::empty(),
        Some(w) => seq!['['] + modifier_word(w) + seq![']'],
    }
}

/// The canonical text of a range.
pub open spec fn range_text(r: Range) -> Seq<char> {
    let bounds = if r.min == r.max {
        decimal(r.min as nat)
    } else if r.max == 0 {
        decimal(r.min as nat).push('+')
    } else {
        decimal(r.min as nat) + seq!['-'] + decimal(r.max as nat)
    };
    bounds + modifier_suffix(r.modifier)
}

/// Why a text is not a range; each names the character position where
/// reading failed.
#[derive(Debug, Clone, Copy, PartialEq, Eq, Structural)]
pub enum RangeSyntaxError {
    /// A bound was expected here and no digit stands there.
    MissingNumber(usize),
    /// The bound that starts here does not fit in `0..=255`.
    OutOfRange(usize),
    /// What follows the bounds, from here on, is not `[even]` or `[odd]`.
    UnexpectedText(usize),
}

pub open spec fn is_digit(c: char) -> bool {
    '0' <= c && c <= '9'
}

pub open spec fn digit_value(c: char) -> nat {
    (c as int - '0' as int) as nat
}

/// Where the run of digits that starts at `i` ends.
pub open spec fn digits_end(s: Seq<char>, i: int) -> int
    decreases s.len() - i,
{
    if 0 <= i < s.len() && is_digit(s[i]) {
        digits_end(s, i + 1)
    } else {
        i
    }
}

/// The value of a sequence of decimal digits.
pub open spec fn digits_value(s: Seq<char>) -> nat
    decreases s.len(),
{
    if s.len() == 0 {
        0
    } else {
        digits_value(s.drop_last()) * 10 + digit_value(s.last())
    }
}

/// The bound spelled at `i`, and where its digits end.
pub open spec fn bound_at(s: Seq<char>, i: int) -> Result<(u8, int), RangeSyntaxError> {
    let j = digits_end(s, i);
    if j == i {
        Err(RangeSyntaxError::MissingNumber(i as usize))
    } else if digits_value(s.subrange(i, j)) > 255 {
        Err(RangeSyntaxError::OutOfRange(i as usize))
    } else {
        Ok((digits_value(s.subrange(i, j)) as u8, j))
    }
}

/// The upper bound that follows the lower bound `min` ending at `i`: `+` for
/// none (zero), `-` and a number, or nothing for `min` itself.
pub open spec fn upper_at(s: Seq<char>, min: u8, i: int) -> Result<(u8, int), RangeSyntaxError> {
    if i < s.len() && s[i] == '+' {
        Ok((0u8, i + 1))
    } else if i < s.len() && s[i] == '-' {
        bound_at(s, i + 1)
    } else {
        Ok((min, i))
    }
}

/// The modifier that the text after the bounds, from `j` on, spells.
pub open spec fn modifier_of(s: Seq<char>, j: int) -> Result<Option<RangeModifier>, RangeSyntaxError> {
    let rest = s.subrange(j, s.len() as int);
    if rest.len() == 0 {
        Ok(None)
    } else if rest == modifier_suffix(Some(RangeModifier::Even)) {
        Ok(Some(RangeModifier::Even))
    } else if rest == modifier_suffix(Some(RangeModifier::Odd)) {
        Ok(Some(RangeModifier::Odd))
    } else {
        Err(RangeSyntaxError::UnexpectedText(j as usize))
    }
}

/// The range that a text denotes under the grammar
/// `bound ('-' bound | '+')? ('[even]' | '[odd]')?`, `bound` being one or
/// more decimal digits whose value is at most 255.
pub open spec fn parse_range(s: Seq<char>) -> Result<Range, RangeSyntaxError> {
    match bound_at(s, 0) {
        Err(e) => Err(e),
        Ok((min, i)) => match upper_at(s, min, i) {
            Err(e) => Err(e),
            Ok((max, j)) => match modifier_of(s, j) {
                Err(e) => Err(e),
                Ok(modifier) => Ok(Range { min, max, modifier }),
            },
        },
    }
}

proof fn lemma_digit_char(d: nat)
    requires
        d < 10,
    ensures
        is_digit(digit_char(d)),
        digit_value(digit_char(d)) == d,
{
}

proof fn lemma_decimal(n: nat)
    ensures
        decimal(n).len() >= 1,
        forall|k: int| 0 <= k < decimal(n).len() ==> is_digit(#[trigger] decimal(n)[k]),
        digits_value(decimal(n)) == n,
    decreases n,
{
    if n < 10 {
        lemma_digit_char(n);
        assert(decimal(n).drop_last() =~= Seq::<char>::empty());
        assert(digits_value(Seq::<char>::empty()) == 0);
    } else {
        lemma_digit_char(n % 10);
        lemma_decimal(n / 10);
        assert(decimal(n).drop_last() =~= decimal(n / 10));
        assert(decimal(n).last() == digit_char(n % 10));
        assert(digits_value(decimal(n)) == digits_value(decimal(n / 10)) * 10 + n % 10);
        assert(n == (n / 10) * 10 + n % 10);
    }
}

proof fn lemma_digits_end_at(s: Seq<char>, i: int, j: int)
    requires
        0 <= i <= j <= s.len(),
        forall|k: int| i <= k < j ==> is_digit(#[trigger] s[k]),
        j == s.len() || !is_digit(s[j]),
    ensures
        digits_end(s, i) == j,
    decreases j - i,
{
    if i < j {
        lemma_digits_end_at(s, i + 1, j);
    }
}

/// The bound spelled by `decimal(n)` at `i`, followed by something other
/// than a digit, reads back as `n`.
proof fn lemma_bound_reads_back(s: Seq<char>, i: int, n: u8)
    requires
        0 <= i,
        i + decimal(n as nat).len() <= s.len(),
        s.subrange(i, i + decimal(n as nat).len()) == decimal(n as nat),
        i + decimal(n as nat).len() == s.len() || !is_digit(s[i + decimal(n as nat).len()]),
    ensures
        bound_at(s, i) == Ok::<(u8, int), RangeSyntaxError>((n, i + decimal(n as nat).len())),
{
    let d = decimal(n as nat);
    lemma_decimal(n as nat);
    assert forall|k: int| i <= k < i + d.len() implies is_digit(#[trigger] s[k]) by {
        assert(s[k] == s.subrange(i, i + d.len())[k - i]);
    }
    lemma_digits_end_at(s, i, i + d.len());
}

/// Reading back the text of any range gives that range.
pub proof fn lemma_parse_of_text(r: Range)
    ensures
        parse_range(range_text(r)) == Ok::<Range, RangeSyntaxError>(r),
{
    let s = range_text(r);
    let lo = decimal(r.min as nat);
    let hi = decimal(r.max as nat);
    let suffix = modifier_suffix(r.modifier);
    lemma_decimal(r.min as nat);
    lemma_decimal(r.max as nat);
    let j: int;
    if r.min == r.max {
        assert(s =~= lo + suffix);
        assert(s.subrange(0, lo.len() as int) =~= lo);
        lemma_bound_reads_back(s, 0, r.min);
        j = lo.len() as int;
    } else if r.max == 0 {
        assert(s =~= lo + seq!['+'] + suffix);
        assert(s.subrange(0, lo.len() as int) =~= lo);
        lemma_bound_reads_back(s, 0, r.min);
        j = lo.len() + 1int;
    } else {
        assert(s =~= lo + seq!['-'] + hi + suffix);
        assert(s.subrange(0, lo.len() as int) =~= lo);
        lemma_bound_reads_back(s, 0, r.min);
        let k: int = lo.len() + 1int;
        assert(s.subrange(k, k + hi.len()) =~= hi);
        lemma_bound_reads_back(s, k, r.max);
        j = k + hi.len();
    }
    assert(s.subrange(j, s.len() as int) =~= suffix);
    assert(upper_at(s, r.min, lo.len() as int) == Ok::<(u8, int), RangeSyntaxError>((r.max, j)));
    assert(modifier_of(s, j) == Ok::<Option<RangeModifier>, RangeSyntaxError>(r.modifier));
}

/// A canonical text, one that some range is written as, reads back to a
/// range that is written as that same text.
pub proof fn lemma_text_of_parse(s: Seq<char>)
    requires
        exists|r: Range| range_text(r) == s,
    ensures
        parse_range(s) is Ok,
        range_text(parse_range(s)->Ok_0) == s,
{
    let r = choose|r: Range| range_text(r) == s;
    lemma_parse_of_text(r);
}

/// The text of one decimal digit.
fn digit_text(d: u8) -> (t: &'static str)
    requires
        d < 10,
    ensures
        t@ == seq![digit_char(d as nat)],
{
    proof {
        reveal_strlit("0");
        reveal_strlit("1");
        reveal_strlit("2");
        reveal_strlit("3");
        reveal_strlit("4");
        reveal_strlit("5");
        reveal_strlit("6");
        reveal_strlit("7");
        reveal_strlit("8");
        reveal_strlit("9");
    }
    match d {
        0 => "0",
        1 => "1",
        2 => "2",
        3 => "3",
        4 => "4",
        5 => "5",
        6 => "6",
        7 => "7",
        8 => "8",
        _ => "9",
    }
}

/// Appends the decimal spelling of `n` to `out`.
fn push_decimal(out: &mut String, n: u8)
    ensures
        final(out)@ == old(out)@ + decimal(n as nat),
{
    reveal_with_fuel(decimal, 3);
    if n >= 100 {
        out.append(digit_text(n / 100));
        out.append(digit_text((n / 10) % 10));
        out.append(digit_text(n % 10));
        assert(decimal(n as nat) =~= seq![
            digit_char((n / 100) as nat),
            digit_char(((n / 10) % 10) as nat),
            digit_char((n % 10) as nat),
        ]);
    } else if n >= 10 {
        out.append(digit_text(n / 10));
        out.append(digit_text(n % 10));
        assert(decimal(n as nat) =~= seq![digit_char((n / 10) as nat), digit_char((n % 10) as nat)]);
    } else {
        out.append(digit_text(n));
    }
}

proof fn lemma_digits_end_bounds(s: Seq<char>, i: int)
    requires
        0 <= i <= s.len(),
    ensures
        i <= digits_end(s, i) <= s.len(),
        forall|k: int| i <= k < digits_end(s, i) ==> is_digit(#[trigger] s[k]),
    decreases s.len() - i,
{
    if i < s.len() && is_digit(s[i]) {
        lemma_digits_end_bounds(s, i + 1);
    }
}

proof fn lemma_digits_value_grows(s: Seq<char>, i: int, j: int, k: int)
    requires
        0 <= i <= j <= k <= s.len(),
    ensures
        digits_value(s.subrange(i, j)) <= digits_value(s.subrange(i, k)),
    decreases k - j,
{
    if j < k {
        lemma_digits_value_grows(s, i, j, k - 1);
        assert(s.subrange(i, k).drop_last() =~= s.subrange(i, k - 1));
    }
}

/// Reads the bound spelled at `start`.
fn scan_bound(text: &str, len: usize, start: usize) -> (r: Result<(u8, usize), RangeSyntaxError>)
    requires
        len == text@.len(),
        start <= len,
    ensures
        match r {
            Ok((v, j)) => start < j <= len && bound_at(text@, start as int) == Ok::<(u8, int), RangeSyntaxError>((v, j as int)),
            Err(e) => bound_at(text@, start as int) == Err::<(u8, int), RangeSyntaxError>(e),
        },
{
    let ghost s = text@;
    let mut i: usize = start;
    let mut value: u32 = 0;
    while i < len && '0' <= text.get_char(i) && text.get_char(i) <= '9'
        invariant
            len == s.len(),
            s == text@,
            start <= i <= len,
            digits_end(s, start as int) == digits_end(s, i as int),
            value == digits_value(s.subrange(start as int, i as int)),
            value <= 255,
        decreases len - i,
    {
        let c = text.get_char(i);
        assert(s.subrange(start as int, i + 1).drop_last() =~= s.subrange(start as int, i as int));
        value = value * 10 + (c as u32 - '0' as u32);
        i = i + 1;
        if value > 255 {
            proof {
                lemma_digits_end_bounds(s, i as int);
                lemma_digits_value_grows(s, start as int, i as int, digits_end(s, i as int));
            }
            return Err(RangeSyntaxError::OutOfRange(start));
        }
    }
    if i == start {
        Err(RangeSyntaxError::MissingNumber(start))
    } else {
        Ok((value as u8, i))
    }
}

/// Whether the text from `at` to the end is exactly `word`.
fn rest_is(text: &str, len: usize, at: usize, word: &str) -> (b: bool)
    requires
        len == text@.len(),
        at <= len,
    ensures
        b == (text@.subrange(at as int, len as int) == word@),
{
    let n = word.unicode_len();
    if len - at != n {
        return false;
    }
    let mut k: usize = 0;
    while k < n
        invariant
            len == text@.len(),
            at + n == len,
            n == word@.len(),
            k <= n,
            forall|x: int| 0 <= x < k ==> text@[at + x] == word@[x],
        decreases n - k,
    {
        if text.get_char(at + k) != word.get_char(k) {
            assert(text@.subrange(at as int, len as int)[k as int] != word@[k as int]);
            return false;
        }
        k = k + 1;
    }
    assert(text@.subrange(at as int, len as int) =~= word@);
    true
}

impl RangeModifier {
    /// The modifier's word: `"even"` or `"odd"`.
    pub fn to_string(&self) -> (s: String)
        ensures
            s@ == modifier_word(*self),
    {
        proof {
            reveal_strlit("even");
            reveal_strlit("odd");
        }
        match self {
            RangeModifier::Even => String::from_str("even"),
            RangeModifier::Odd => String::from_str("odd"),
        }
    }
}

impl Range {

    /// Reads a range from its text.
    ///
    /// The grammar is strict: one or more digits for the lower bound, then
    /// either `+` (no upper bound), or `-` and the digits of the upper bound,
    /// or nothing (both bounds equal), and last an optional `[even]` or
    /// `[odd]`. Any other text, a missing number or a bound above 255 is an
    /// error; stray dashes and unknown modifier words are not skipped.
    pub fn parse(text: &str) -> (r: Result<Range, RangeSyntaxError>)
        ensures
            r == parse_range(text@),
    {
        let len = text.unicode_len();
        let (min, i) = match scan_bound(text, len, 0) {
            Ok(found) => found,
            Err(e) => return Err(e),
        };
        let mut max = min;
        let mut j = i;
        if i < len && text.get_char(i) == '+' {
            max = 0;
            j = i + 1;
        } else if i < len && text.get_char(i) == '-' {
            match scan_bound(text, len, i + 1) {
                Ok((v, k)) => {
                    max = v;
                    j = k;
                },
                Err(e) => return Err(e),
            }
        }
        proof {
            reveal_strlit("[even]");
            reveal_strlit("[odd]");
            assert("[even]"@ =~= modifier_suffix(Some(RangeModifier::Even)));
            assert("[odd]"@ =~= modifier_suffix(Some(RangeModifier::Odd)));
        }
        let modifier = if j == len {
            None
        } else if rest_is(text, len, j, "[even]") {
            Some(RangeModifier::Even)
        } else if rest_is(text, len, j, "[odd]") {
            Some(RangeModifier::Odd)
        } else {
            return Err(RangeSyntaxError::UnexpectedText(j));
        };
        Ok(Range { min, max, modifier })
    }

    /// A range whose bounds are both `count`, with no modifier.
    pub fn exact(count: u8) -> (r: Range)
        ensures
            r == (Range { min: count, max: count, modifier: None }),
    {
        Range { min: count, max: count, modifier: None }
    }

    /// The range that a document writes as a bare integer: both bounds equal
    /// to `value`, which must lie in `0..=255` (else the error names position
    /// zero, where the number starts).
    pub fn from_integer(value: i64) -> (r: Result<Range, RangeSyntaxError>)
        ensures
            0 <= value <= 255 ==> r == Ok::<Range, RangeSyntaxError>(
                Range { min: value as u8, max: value as u8, modifier: None },
            ),
            !(0 <= value <= 255) ==> r == Err::<Range, RangeSyntaxError>(RangeSyntaxError::OutOfRange(0)),
    {
        if 0 <= value && value <= 255 {
            Ok(Range::exact(value as u8))
        } else {
            Err(RangeSyntaxError::OutOfRange(0))
        }
    }

    pub fn min(&self) -> (m: u8)
        ensures
            m == self.min,
    {
        self.min
    }

    pub fn max(&self) -> (m: u8)
        ensures
            m == self.max,
    {
        self.max
    }

    pub fn modifier(&self) -> (m: Option<RangeModifier>)
        ensures
            m == self.modifier,
    {
        self.modifier
    }

    /// The canonical text of this range: `"5"` when both bounds agree,
    /// `"5+"` when there is no upper bound, `"5-10"` otherwise, followed by
    /// `"[even]"` or `"[odd]"` when a modifier is present.
    pub fn to_string(&self) -> (s: String)
        ensures
            s@ == range_text(*self),
    {
        proof {
            reveal_strlit("+");
            reveal_strlit("-");
            reveal_strlit("[");
            reveal_strlit("]");
        }
        let mut out = String::new();
        push_decimal(&mut out, self.min);
        if self.min == self.max {
        } else if self.max == 0 {
            out.append("+");
        } else {
            out.append("-");
            push_decimal(&mut out, self.max);
        }
        match self.modifier {
            None => {},
            Some(m) => {
                out.append("[");
                let word = m.to_string();
                out.append(word.as_str());
                out.append("]");
            },
        }
        assert(out@ =~= range_text(*self));
        out
    }
}

impl std::str::FromStr for Range {
    type Err = RangeSyntaxError;

    /// Reads a range from its text, as `Range::parse` does.
    fn from_str(text: &str) -> (r: Result<Range, RangeSyntaxError>)
        ensures
            r == parse_range(text@),
    {
        Range::parse(text)
    }
}

} // verus!
