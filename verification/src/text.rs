//! Text, one character at a time.
//!
//! Everything the crate writes to a journal or reads off a wire passes through
//! here: numbers in decimal, lines, fields, and the flattening that keeps one
//! journal entry on one line.
use vstd::prelude::*;
use vstd::string::StringExecFns;
use vstd::utf8;

verus! {

/// `String::push`: the character goes to the end and nothing else changes.
pub assume_specification[ String::push ](string: &mut String, c: char)
    ensures
        final(string)@ == old(string)@.push(c),
;

/// `String::from_utf8`: the text that bytes encode, or nothing where they are
/// not valid UTF-8.
#[verifier::external_body]
pub(crate) fn utf8_text(bytes: Vec<u8>) -> (text: Option<String>)
    ensures
        text is Some <==> utf8::valid_utf8(bytes@),
        text matches Some(decoded) ==> decoded@ == utf8::decode_utf8(bytes@),
{
    String::from_utf8(bytes).ok()
}

/// Why a run of characters is not an unsigned number.
#[derive(Debug, Clone, Copy, PartialEq, Eq, Structural)]
pub enum NumberError {
    /// There was nothing to read.
    Empty,
    /// Something other than a decimal digit, or a sign standing alone.
    InvalidDigit,
    /// More than the target holds.
    TooLarge,
}

/// The character for a decimal digit.
pub open spec fn digit_char(d: nat) -> char {
    if d == 0 {
        '0'
    } else if d == 1 {
        '1'
    } else if d == 2 {
        '2'
    } else if d == 3 {
        '3'
    } else if d == 4 {
        '4'
    } else if d == 5 {
        '5'
    } else if d == 6 {
        '6'
    } else if d == 7 {
        '7'
    } else if d == 8 {
        '8'
    } else {
        '9'
    }
}

/// A number in decimal, without sign or leading zeros.
pub open spec fn decimal(n: nat) -> Seq<char>
    decreases n,
{
    if n < 10 {
        seq![digit_char(n)]
    } else {
        decimal(n / 10).push(digit_char(n % 10))
    }
}

/// A signed number in decimal, with a leading `-` below zero.
pub open spec fn signed_decimal(n: int) -> Seq<char> {
    if n < 0 {
        seq!['-'] + decimal((-n) as nat)
    } else {
        decimal(n as nat)
    }
}

/// A text no reader of a journal would take for two entries.
pub open spec fn one_line(text: Seq<char>) -> bool {
    forall|i: int| 0 <= i < text.len() ==> text[i] != '\n' && text[i] != '\r'
}

/// A text with every line break replaced by a space.
pub open spec fn flattened(text: Seq<char>) -> Seq<char> {
    text.map_values(
        |c: char|
            if c == '\n' || c == '\r' {
                ' '
            } else {
                c
            },
    )
}

/// The first `limit` characters of a text, flattened.
pub open spec fn bounded(text: Seq<char>, limit: nat) -> Seq<char> {
    flattened(
        text.take(
            if text.len() < limit {
                text.len() as int
            } else {
                limit as int
            },
        ),
    )
}

/// Unicode's `White_Space` property.
pub open spec fn is_blank(c: char) -> bool {
    ||| '\u{9}' <= c <= '\u{d}'
    ||| c == ' '
    ||| c == '\u{85}'
    ||| c == '\u{a0}'
    ||| c == '\u{1680}'
    ||| '\u{2000}' <= c <= '\u{200a}'
    ||| c == '\u{2028}'
    ||| c == '\u{2029}'
    ||| c == '\u{202f}'
    ||| c == '\u{205f}'
    ||| c == '\u{3000}'
}

/// An ASCII capital as its small letter; anything else as it is.
pub open spec fn ascii_lower(c: char) -> char {
    if 'A' <= c <= 'Z' {
        ((c as u32 + 32) as u32) as char
    } else {
        c
    }
}

/// A text with its ASCII capitals made small.
pub open spec fn lowered(text: Seq<char>) -> Seq<char> {
    text.map_values(|c: char| ascii_lower(c))
}

/// The position of the first `c`, or the length where there is none.
pub open spec fn position(text: Seq<char>, c: char) -> int
    decreases text.len(),
{
    if text.len() == 0 || text[0] == c {
        0
    } else {
        1 + position(text.skip(1), c)
    }
}

/// A line without the carriage return that ended it, if one did.
pub open spec fn without_carriage_return(line: Seq<char>) -> Seq<char> {
    if line.len() > 0 && line.last() == '\r' {
        line.drop_last()
    } else {
        line
    }
}

/// The lines of a text: split after each `\n`, without their `\n` or `\r\n`.
/// What follows the last `\n` is a line too, unless it is empty.
pub open spec fn lines(text: Seq<char>) -> Seq<Seq<char>>
    decreases text.len(),
{
    if text.len() == 0 {
        seq![]
    } else {
        let end = position(text, '\n');
        if 0 <= end < text.len() {
            seq![without_carriage_return(text.take(end))] + lines(text.skip(end + 1))
        } else {
            seq![text]
        }
    }
}

/// How many characters stand before the first blank one.
pub open spec fn field_len(text: Seq<char>) -> int
    decreases text.len(),
{
    if text.len() == 0 || is_blank(text[0]) {
        0
    } else {
        1 + field_len(text.skip(1))
    }
}

/// The maximal runs of characters that are not blank, in order.
pub open spec fn fields(text: Seq<char>) -> Seq<Seq<char>>
    decreases text.len(),
{
    if text.len() == 0 {
        seq![]
    } else if is_blank(text[0]) {
        fields(text.skip(1))
    } else {
        let end = field_len(text);
        if 0 < end <= text.len() {
            seq![text.take(end)] + fields(text.skip(end))
        } else {
            seq![]
        }
    }
}

/// A text without the blanks at its start.
pub open spec fn trimmed_start(text: Seq<char>) -> Seq<char>
    decreases text.len(),
{
    if text.len() > 0 && is_blank(text[0]) {
        trimmed_start(text.skip(1))
    } else {
        text
    }
}

/// A text without the blanks at its end.
pub open spec fn trimmed_end(text: Seq<char>) -> Seq<char>
    decreases text.len(),
{
    if text.len() > 0 && is_blank(text.last()) {
        trimmed_end(text.drop_last())
    } else {
        text
    }
}

/// A text without the blanks at either end.
pub open spec fn trimmed(text: Seq<char>) -> Seq<char> {
    trimmed_end(trimmed_start(text))
}

/// Whether a character is a decimal digit.
pub open spec fn is_digit(c: char) -> bool {
    '0' <= c <= '9'
}

/// The value of a decimal digit.
pub open spec fn digit_value(c: char) -> nat {
    (c as u32 - '0' as u32) as nat
}

/// Decimal digits read from the left on top of `high`, none of the values on
/// the way above `max`. The leftmost fault is the one reported.
pub open spec fn digits_value(digits: Seq<char>, high: nat, max: nat) -> Result<nat, NumberError>
    decreases digits.len(),
{
    if digits.len() == 0 {
        Ok(high)
    } else if !is_digit(digits[0]) {
        Err(NumberError::InvalidDigit)
    } else if high * 10 + digit_value(digits[0]) > max {
        Err(NumberError::TooLarge)
    } else {
        digits_value(digits.skip(1), high * 10 + digit_value(digits[0]), max)
    }
}

/// An unsigned number of at most `max`: decimal digits, after a `+` or not.
pub open spec fn number(text: Seq<char>, max: nat) -> Result<nat, NumberError> {
    if text.len() == 0 {
        Err(NumberError::Empty)
    } else if text.len() > 1 && text[0] == '+' {
        digits_value(text.skip(1), 0, max)
    } else {
        digits_value(text, 0, max)
    }
}

/// The wording of a [`NumberError`].
pub open spec fn number_error_text(error: NumberError) -> Seq<char> {
    match error {
        NumberError::Empty => "cannot parse integer from empty string"@,
        NumberError::InvalidDigit => "invalid digit found in string"@,
        NumberError::TooLarge => "number too large to fit in target type"@,
    }
}

/// What the members of a vector of characters spell, each for itself.
pub open spec fn spelled(parts: Seq<Vec<char>>) -> Seq<Seq<char>> {
    parts.map_values(|part: Vec<char>| part@)
}

/// The text that an optional string holds.
pub open spec fn text_in(string: Option<String>) -> Option<Seq<char>> {
    match string {
        Some(string) => Some(string@),
        None => None,
    }
}

/// The text that an optional string slice holds.
pub open spec fn slice_text(slice: Option<&str>) -> Option<Seq<char>> {
    match slice {
        Some(string) => Some(string@),
        None => None,
    }
}

impl NumberError {
    /// The error in words.
    pub fn text(&self) -> (text: &'static str)
        ensures
            text@ == number_error_text(*self),
    {
        match self {
            NumberError::Empty => "cannot parse integer from empty string",
            NumberError::InvalidDigit => "invalid digit found in string",
            NumberError::TooLarge => "number too large to fit in target type",
        }
    }
}

/// The characters of a text.
pub fn chars_of(text: &str) -> (chars: Vec<char>)
    ensures
        chars@ == text@,
{
    let mut chars: Vec<char> = Vec::new();
    for c in walk: text.chars()
        invariant
            walk.seq() == text@,
            chars@ == text@.take(walk.index() as int),
    {
        chars.push(c);
        assert(text@.take(walk.index() + 1) =~= text@.take(walk.index() as int).push(c));
    }
    assert(text@.take(text@.len() as int) =~= text@);
    chars
}

/// The text that characters spell.
pub fn text_of(chars: &[char]) -> (text: String)
    ensures
        text@ == chars@,
{
    let mut text = String::new();
    let mut at: usize = 0;
    while at < chars.len()
        invariant
            at <= chars@.len(),
            text@ == chars@.take(at as int),
        decreases chars@.len() - at,
    {
        text.push(chars[at]);
        assert(chars@.take(at + 1) =~= chars@.take(at as int).push(chars@[at as int]));
        at = at + 1;
    }
    assert(chars@.take(chars@.len() as int) =~= chars@);
    text
}

/// Whether two runs of characters are the same.
pub fn same_chars(left: &[char], right: &[char]) -> (same: bool)
    ensures
        same == (left@ == right@),
{
    if left.len() != right.len() {
        return false;
    }
    let mut at: usize = 0;
    while at < left.len()
        invariant
            left@.len() == right@.len(),
            at <= left@.len(),
            forall|i: int| 0 <= i < at ==> left@[i] == right@[i],
        decreases left@.len() - at,
    {
        if left[at] != right[at] {
            return false;
        }
        at = at + 1;
    }
    assert(left@ =~= right@);
    true
}

/// Whether two texts are the same.
pub fn same_text(left: &str, right: &str) -> (same: bool)
    ensures
        same == (left@ == right@),
{
    same_chars(chars_of(left).as_slice(), chars_of(right).as_slice())
}

/// Where the first occurrence of a character lies, and what lies before it.
pub proof fn position_is_first(text: Seq<char>, c: char)
    ensures
        0 <= position(text, c) <= text.len(),
        forall|i: int| 0 <= i < position(text, c) ==> text[i] != c,
        position(text, c) < text.len() ==> text[position(text, c)] == c,
    decreases text.len(),
{
    if text.len() > 0 && text[0] != c {
        let rest = text.skip(1);
        position_is_first(rest, c);
        assert forall|i: int| 0 <= i < position(text, c) implies text[i] != c by {
            if i > 0 {
                assert(text[i] == rest[i - 1]);
            }
        }
        if position(text, c) < text.len() {
            assert(text[position(text, c)] == rest[position(rest, c)]);
        }
    }
}

/// Only one place is the first occurrence of a character.
pub proof fn position_unique(text: Seq<char>, c: char, at: int)
    requires
        0 <= at <= text.len(),
        forall|i: int| 0 <= i < at ==> text[i] != c,
        at < text.len() ==> text[at] == c,
    ensures
        position(text, c) == at,
{
    position_is_first(text, c);
    let p = position(text, c);
    if p < at {
        assert(text[p] != c);
    }
    if at < p {
        assert(text[at] != c);
    }
}

/// How far a field reaches, and that nothing in it is blank.
pub proof fn field_len_is_first(text: Seq<char>)
    ensures
        0 <= field_len(text) <= text.len(),
        forall|i: int| 0 <= i < field_len(text) ==> !is_blank(#[trigger] text[i]),
        field_len(text) < text.len() ==> is_blank(text[field_len(text)]),
    decreases text.len(),
{
    if text.len() > 0 && !is_blank(text[0]) {
        let rest = text.skip(1);
        field_len_is_first(rest);
        assert forall|i: int| 0 <= i < field_len(text) implies !is_blank(#[trigger] text[i]) by {
            if i > 0 {
                assert(text[i] == rest[i - 1]);
            }
        }
        if field_len(text) < text.len() {
            assert(text[field_len(text)] == rest[field_len(rest)]);
        }
    }
}

/// Only one place is the end of the field that a text starts with.
pub proof fn field_len_unique(text: Seq<char>, end: int)
    requires
        0 <= end <= text.len(),
        forall|i: int| 0 <= i < end ==> !is_blank(#[trigger] text[i]),
        end < text.len() ==> is_blank(text[end]),
    ensures
        field_len(text) == end,
{
    field_len_is_first(text);
    let n = field_len(text);
    if n < end {
        assert(!is_blank(text[n]));
    }
    if end < n {
        assert(!is_blank(text[end]));
    }
}

/// Blanks at the start do not show in what trimming leaves.
proof fn trimmed_start_skips(text: Seq<char>, blanks: int)
    requires
        0 <= blanks <= text.len(),
        forall|i: int| 0 <= i < blanks ==> is_blank(#[trigger] text[i]),
        blanks < text.len() ==> !is_blank(text[blanks]),
    ensures
        trimmed_start(text) == text.skip(blanks),
    decreases text.len(),
{
    if blanks > 0 {
        let rest = text.skip(1);
        assert(is_blank(text[0]));
        assert forall|i: int| 0 <= i < blanks - 1 implies is_blank(#[trigger] rest[i]) by {
            assert(rest[i] == text[i + 1]);
        }
        trimmed_start_skips(rest, blanks - 1);
        assert(rest.skip(blanks - 1) =~= text.skip(blanks));
    } else {
        assert(text.skip(0) =~= text);
    }
}

/// Blanks at the end do not show in what trimming leaves.
proof fn trimmed_end_takes(text: Seq<char>, kept: int)
    requires
        0 <= kept <= text.len(),
        forall|i: int| kept <= i < text.len() ==> is_blank(#[trigger] text[i]),
        kept > 0 ==> !is_blank(text[kept - 1]),
    ensures
        trimmed_end(text) == text.take(kept),
    decreases text.len(),
{
    if kept < text.len() {
        let rest = text.drop_last();
        assert(is_blank(text[text.len() - 1]));
        assert forall|i: int| kept <= i < rest.len() implies is_blank(#[trigger] rest[i]) by {
            assert(rest[i] == text[i]);
        }
        trimmed_end_takes(rest, kept);
        assert(rest.take(kept) =~= text.take(kept));
    } else {
        assert(text.take(kept) =~= text);
    }
}

/// Whether a character is a blank, by Unicode's `White_Space`.
pub fn blank(c: char) -> (answer: bool)
    ensures
        answer == is_blank(c),
{
    ('\u{9}' <= c && c <= '\u{d}') || c == ' ' || c == '\u{85}' || c == '\u{a0}' || c == '\u{1680}'
        || ('\u{2000}' <= c && c <= '\u{200a}') || c == '\u{2028}' || c == '\u{2029}' || c
        == '\u{202f}' || c == '\u{205f}' || c == '\u{3000}'
}

/// Where the first `c` stands at or after `from`; the length where none does.
pub fn find(text: &[char], from: usize, c: char) -> (at: usize)
    requires
        from <= text@.len(),
    ensures
        from <= at <= text@.len(),
        at - from == position(text@.skip(from as int), c),
{
    let mut at: usize = from;
    while at < text.len() && text[at] != c
        invariant
            from <= at <= text@.len(),
            forall|i: int| from <= i < at ==> text@[i] != c,
        decreases text@.len() - at,
    {
        at = at + 1;
    }
    proof {
        let rest = text@.skip(from as int);
        assert forall|i: int| 0 <= i < at - from implies rest[i] != c by {
            assert(rest[i] == text@[i + from]);
        }
        position_unique(rest, c, at - from);
    }
    at
}

/// The characters from `from` up to `to`.
pub fn cut(text: &[char], from: usize, to: usize) -> (part: Vec<char>)
    requires
        from <= to <= text@.len(),
    ensures
        part@ == text@.subrange(from as int, to as int),
{
    let mut part: Vec<char> = Vec::new();
    let mut at: usize = from;
    while at < to
        invariant
            from <= at <= to <= text@.len(),
            part@ == text@.subrange(from as int, at as int),
        decreases to - at,
    {
        part.push(text[at]);
        assert(text@.subrange(from as int, at + 1) =~= text@.subrange(from as int, at as int).push(
            text@[at as int],
        ));
        at = at + 1;
    }
    part
}

/// The [`lines`] of a text.
pub fn lines_of(text: &[char]) -> (parts: Vec<Vec<char>>)
    ensures
        spelled(parts@) == lines(text@),
{
    let mut parts: Vec<Vec<char>> = Vec::new();
    let mut from: usize = 0;
    assert(text@.skip(0) =~= text@);
    assert(spelled(parts@) + lines(text@) =~= lines(text@));
    while from < text.len()
        invariant
            from <= text@.len(),
            spelled(parts@) + lines(text@.skip(from as int)) == lines(text@),
        decreases text@.len() - from,
    {
        let ghost rest = text@.skip(from as int);
        let ghost done = spelled(parts@);
        let at = find(text, from, '\n');
        if at < text.len() {
            let end = if at > from && text[at - 1] == '\r' {
                at - 1
            } else {
                at
            };
            let line = cut(text, from, end);
            proof {
                let whole = rest.take(at - from);
                assert(whole =~= text@.subrange(from as int, at as int));
                if at > from {
                    assert(whole.last() == text@[at - 1]);
                }
                assert(line@ =~= without_carriage_return(whole));
                assert(rest.skip(at - from + 1) =~= text@.skip(at + 1));
            }
            parts.push(line);
            assert(spelled(parts@) =~= done.push(line@));
            assert(done + (seq![line@] + lines(text@.skip(at + 1))) =~= done.push(line@) + lines(
                text@.skip(at + 1),
            ));
            from = at + 1;
        } else {
            let line = cut(text, from, at);
            assert(line@ =~= rest);
            parts.push(line);
            assert(spelled(parts@) =~= done.push(line@));
            assert(lines(text@.skip(at as int)) =~= Seq::empty());
            assert(done + seq![line@] =~= done.push(line@) + lines(text@.skip(at as int)));
            from = at;
        }
    }
    assert(lines(text@.skip(from as int)) =~= Seq::empty());
    assert(spelled(parts@) + Seq::<Seq<char>>::empty() =~= spelled(parts@));
    parts
}

/// The [`fields`] of a text.
pub fn fields_of(text: &[char]) -> (parts: Vec<Vec<char>>)
    ensures
        spelled(parts@) == fields(text@),
{
    let mut parts: Vec<Vec<char>> = Vec::new();
    let mut from: usize = 0;
    assert(text@.skip(0) =~= text@);
    assert(spelled(parts@) + fields(text@) =~= fields(text@));
    while from < text.len()
        invariant
            from <= text@.len(),
            spelled(parts@) + fields(text@.skip(from as int)) == fields(text@),
        decreases text@.len() - from,
    {
        let ghost rest = text@.skip(from as int);
        let ghost done = spelled(parts@);
        if blank(text[from]) {
            assert(rest.skip(1) =~= text@.skip(from + 1));
            from = from + 1;
        } else {
            let mut to: usize = from;
            while to < text.len() && !blank(text[to])
                invariant
                    from <= to <= text@.len(),
                    forall|i: int| from <= i < to ==> !is_blank(#[trigger] text@[i]),
                decreases text@.len() - to,
            {
                to = to + 1;
            }
            proof {
                assert forall|i: int| 0 <= i < to - from implies !is_blank(#[trigger] rest[i]) by {
                    assert(rest[i] == text@[i + from]);
                }
                field_len_unique(rest, to - from);
                assert(rest[0] == text@[from as int]);
            }
            let field = cut(text, from, to);
            parts.push(field);
            assert(field@ =~= rest.take(to - from));
            assert(rest.skip(to - from) =~= text@.skip(to as int));
            assert(spelled(parts@) =~= done.push(field@));
            assert(done + (seq![field@] + fields(text@.skip(to as int))) =~= done.push(field@)
                + fields(text@.skip(to as int)));
            from = to;
        }
    }
    assert(fields(text@.skip(from as int)) =~= Seq::empty());
    assert(spelled(parts@) + Seq::<Seq<char>>::empty() =~= spelled(parts@));
    parts
}

/// A text without the blanks at either end.
pub fn trim(text: &[char]) -> (kept: Vec<char>)
    ensures
        kept@ == trimmed(text@),
{
    let mut from: usize = 0;
    while from < text.len() && blank(text[from])
        invariant
            from <= text@.len(),
            forall|i: int| 0 <= i < from ==> is_blank(#[trigger] text@[i]),
        decreases text@.len() - from,
    {
        from = from + 1;
    }
    let mut to: usize = text.len();
    while to > from && blank(text[to - 1])
        invariant
            from <= to <= text@.len(),
            forall|i: int| to <= i < text@.len() ==> is_blank(#[trigger] text@[i]),
        decreases to,
    {
        to = to - 1;
    }
    proof {
        let rest = text@.skip(from as int);
        trimmed_start_skips(text@, from as int);
        assert forall|i: int| to - from <= i < rest.len() implies is_blank(#[trigger] rest[i]) by {
            assert(rest[i] == text@[i + from]);
        }
        trimmed_end_takes(rest, to - from);
        assert(rest.take(to - from) =~= text@.subrange(from as int, to as int));
    }
    cut(text, from, to)
}

/// The character for a decimal digit.
fn digit(d: u128) -> (c: char)
    requires
        d < 10,
    ensures
        c == digit_char(d as nat),
{
    if d == 0 {
        '0'
    } else if d == 1 {
        '1'
    } else if d == 2 {
        '2'
    } else if d == 3 {
        '3'
    } else if d == 4 {
        '4'
    } else if d == 5 {
        '5'
    } else if d == 6 {
        '6'
    } else if d == 7 {
        '7'
    } else if d == 8 {
        '8'
    } else {
        '9'
    }
}

/// A number in [`decimal`].
pub fn decimal_text(n: u128) -> (text: String)
    ensures
        text@ == decimal(n as nat),
    decreases n,
{
    if n < 10 {
        let mut text = String::new();
        text.push(digit(n));
        assert(text@ =~= seq![digit_char(n as nat)]);
        text
    } else {
        let mut text = decimal_text(n / 10);
        text.push(digit(n % 10));
        text
    }
}

/// A number in [`signed_decimal`].
pub fn signed_decimal_text(n: i32) -> (text: String)
    ensures
        text@ == signed_decimal(n as int),
{
    if n < 0 {
        let mut text = String::new();
        text.push('-');
        assert(text@ =~= seq!['-']);
        let magnitude = -(n as i64);
        text.append(decimal_text(magnitude as u128).as_str());
        text
    } else {
        decimal_text(n as u128)
    }
}

/// Read a [`number`] of at most `max`.
pub fn parse_number(text: &[char], max: u64) -> (parsed: Result<u64, NumberError>)
    ensures
        match parsed {
            Ok(n) => number(text@, max as nat) == Ok::<nat, NumberError>(n as nat),
            Err(error) => number(text@, max as nat) == Err::<nat, NumberError>(error),
        },
{
    if text.len() == 0 {
        return Err(NumberError::Empty);
    }
    let mut at: usize = 0;
    if text.len() > 1 && text[0] == '+' {
        at = 1;
    }
    let mut value: u64 = 0;
    assert(text@.skip(0) =~= text@);
    while at < text.len()
        invariant
            at <= text@.len(),
            value <= max,
            digits_value(text@.skip(at as int), value as nat, max as nat) == number(
                text@,
                max as nat,
            ),
        decreases text@.len() - at,
    {
        let c = text[at];
        assert(text@.skip(at as int)[0] == c);
        assert(text@.skip(at as int).skip(1) =~= text@.skip(at + 1));
        if !('0' <= c && c <= '9') {
            return Err(NumberError::InvalidDigit);
        }
        let next = value as u128 * 10 + (c as u32 - '0' as u32) as u128;
        if next > max as u128 {
            return Err(NumberError::TooLarge);
        }
        value = next as u64;
        at = at + 1;
    }
    Ok(value)
}

/// The first `limit` characters of a text, [`flattened`].
pub fn bounded_line(text: &str, limit: usize) -> (line: String)
    ensures
        line@ == bounded(text@, limit as nat),
{
    let chars = chars_of(text);
    let kept = if chars.len() < limit {
        chars.len()
    } else {
        limit
    };
    let mut line = String::new();
    let mut at: usize = 0;
    while at < kept
        invariant
            at <= kept <= chars@.len(),
            line@ == flattened(chars@.take(at as int)),
        decreases kept - at,
    {
        let c = chars[at];
        assert(chars@.take(at + 1) =~= chars@.take(at as int).push(c));
        if c == '\n' || c == '\r' {
            line.push(' ');
        } else {
            line.push(c);
        }
        assert(line@ =~= flattened(chars@.take(at + 1)));
        at = at + 1;
    }
    line
}

/// Whether a run of characters is `word` but for the case of ASCII letters.
pub fn is_word_ignoring_case(text: &[char], word: &str) -> (same: bool)
    ensures
        same == (lowered(text@) == lowered(word@)),
{
    let letters = chars_of(word);
    if text.len() != letters.len() {
        assert(lowered(text@).len() != lowered(word@).len());
        return false;
    }
    let mut at: usize = 0;
    while at < text.len()
        invariant
            letters@ == word@,
            text@.len() == letters@.len(),
            at <= text@.len(),
            forall|i: int|
                0 <= i < at ==> ascii_lower(#[trigger] text@[i]) == ascii_lower(letters@[i]),
        decreases text@.len() - at,
    {
        if to_ascii_lower(text[at]) != to_ascii_lower(letters[at]) {
            assert(lowered(text@)[at as int] != lowered(word@)[at as int]);
            return false;
        }
        at = at + 1;
    }
    assert(lowered(text@) =~= lowered(word@));
    true
}

/// An ASCII capital as its small letter; anything else as it is.
fn to_ascii_lower(c: char) -> (lower: char)
    ensures
        lower == ascii_lower(c),
{
    if 'A' <= c && c <= 'Z' {
        let byte = c as u8;
        (byte + 32) as char
    } else {
        c
    }
}

/// However long a text is and whatever it holds, what is kept of it is one
/// line of at most `limit` characters.
pub proof fn bounded_is_one_short_line(text: Seq<char>, limit: nat)
    ensures
        one_line(bounded(text, limit)),
        bounded(text, limit).len() <= limit,
{
}

/// A short text of one line is kept as it is.
pub proof fn bounded_keeps_what_fits(text: Seq<char>, limit: nat)
    requires
        one_line(text),
        text.len() <= limit,
    ensures
        bounded(text, limit) == text,
{
    assert(text.take(text.len() as int) =~= text);
    assert(flattened(text) =~= text);
}

/// Reading one more digit at the right.
proof fn digits_value_push(digits: Seq<char>, c: char, high: nat, max: nat)
    ensures
        digits_value(digits.push(c), high, max) == match digits_value(digits, high, max) {
            Err(error) => Err::<nat, NumberError>(error),
            Ok(value) => if !is_digit(c) {
                Err(NumberError::InvalidDigit)
            } else if value * 10 + digit_value(c) > max {
                Err(NumberError::TooLarge)
            } else {
                Ok((value * 10 + digit_value(c)) as nat)
            },
        },
    decreases digits.len(),
{
    reveal_with_fuel(digits_value, 2);
    if digits.len() == 0 {
        assert(digits.push(c).skip(1) =~= Seq::<char>::empty());
    } else {
        assert(digits.push(c).skip(1) =~= digits.skip(1).push(c));
        if is_digit(digits[0]) && high * 10 + digit_value(digits[0]) <= max {
            digits_value_push(
                digits.skip(1),
                c,
                (high * 10 + digit_value(digits[0])) as nat,
                max,
            );
        }
    }
}

/// The characters of a number in decimal are digits, and there is at least one.
pub proof fn decimal_is_digits(n: nat)
    ensures
        decimal(n).len() > 0,
        forall|i: int| 0 <= i < decimal(n).len() ==> is_digit(#[trigger] decimal(n)[i]),
    decreases n,
{
    if n >= 10 {
        decimal_is_digits(n / 10);
    }
}

/// A number written in decimal is read back as that number.
pub proof fn decimal_reads_back(n: nat, max: nat)
    requires
        n <= max,
    ensures
        number(decimal(n), max) == Ok::<nat, NumberError>(n),
    decreases n,
{
    decimal_is_digits(n);
    assert(is_digit(decimal(n)[0]));
    if n < 10 {
        reveal_with_fuel(digits_value, 2);
        assert(decimal(n).skip(1) =~= Seq::<char>::empty());
    } else {
        decimal_reads_back(n / 10, max);
        decimal_is_digits(n / 10);
        assert(is_digit(decimal(n / 10)[0]));
        digits_value_push(decimal(n / 10), digit_char(n % 10), 0, max);
    }
}

/// A number that was read is within the limit it was read under.
pub proof fn number_within(text: Seq<char>, max: nat)
    ensures
        number(text, max) matches Ok(n) ==> n <= max,
{
    if text.len() > 1 && text[0] == '+' {
        digits_value_within(text.skip(1), 0, max);
    } else if text.len() > 0 {
        digits_value_within(text, 0, max);
    }
}

proof fn digits_value_within(digits: Seq<char>, high: nat, max: nat)
    requires
        high <= max,
    ensures
        digits_value(digits, high, max) matches Ok(n) ==> n <= max,
    decreases digits.len(),
{
    if digits.len() > 0 && is_digit(digits[0]) && high * 10 + digit_value(digits[0]) <= max {
        digits_value_within(digits.skip(1), (high * 10 + digit_value(digits[0])) as nat, max);
    }
}

/// A line that ends in `\r\n` comes first, and the lines of the rest follow.
pub proof fn lines_of_first_and_rest(line: Seq<char>, rest: Seq<char>)
    requires
        one_line(line),
    ensures
        lines(line + seq!['\r', '\n'] + rest) == seq![line] + lines(rest),
{
    let whole = line + seq!['\r', '\n'] + rest;
    let end: int = line.len() + 1int;
    assert forall|i: int| 0 <= i < end implies whole[i] != '\n' by {
        if i < line.len() {
            assert(whole[i] == line[i]);
        } else {
            assert(whole[i] == '\r');
        }
    }
    assert(whole[end] == '\n');
    position_unique(whole, '\n', end);
    assert(whole.take(end) =~= line.push('\r'));
    assert(line.push('\r').drop_last() =~= line);
    assert(whole.skip(end + 1) =~= rest);
}

/// A field before a blank comes first, and the fields after the blank follow.
pub proof fn fields_of_first_and_rest(field: Seq<char>, blank: char, rest: Seq<char>)
    requires
        field.len() > 0,
        forall|i: int| 0 <= i < field.len() ==> !is_blank(#[trigger] field[i]),
        is_blank(blank),
    ensures
        fields(field + seq![blank] + rest) == seq![field] + fields(rest),
{
    let whole = field + seq![blank] + rest;
    let end = field.len() as int;
    assert forall|i: int| 0 <= i < end implies !is_blank(#[trigger] whole[i]) by {
        assert(whole[i] == field[i]);
    }
    assert(whole[0] == field[0]);
    assert(whole[end] == blank);
    field_len_unique(whole, end);
    assert(whole.take(end) =~= field);
    let tail = whole.skip(end);
    assert(tail[0] == blank);
    assert(tail.skip(1) =~= rest);
    assert(fields(tail) == fields(rest));
}

/// A text without blanks is one field.
pub proof fn fields_of_one(field: Seq<char>)
    requires
        field.len() > 0,
        forall|i: int| 0 <= i < field.len() ==> !is_blank(#[trigger] field[i]),
    ensures
        fields(field) == seq![field],
{
    field_len_unique(field, field.len() as int);
    assert(!is_blank(field[0]));
    assert(field.take(field.len() as int) =~= field);
    assert(field.skip(field.len() as int) =~= Seq::<char>::empty());
    assert(fields(Seq::<char>::empty()) =~= Seq::empty());
    assert(fields(field) =~= seq![field]);
}

/// Nothing is left of a text of blanks.
pub proof fn trimmed_of_blanks(text: Seq<char>)
    requires
        forall|i: int| 0 <= i < text.len() ==> is_blank(#[trigger] text[i]),
    ensures
        trimmed(text) == Seq::<char>::empty(),
{
    trimmed_start_skips(text, text.len() as int);
    assert(text.skip(text.len() as int) =~= Seq::<char>::empty());
}

/// A number in decimal ends in its last digit, behind the decimal of its tens.
pub proof fn decimal_counts_in_tens(n: nat)
    ensures
        decimal(n).len() > 0,
        decimal(n).last() as int == '0' as int + n % 10,
        n < 10 ==> decimal(n).len() == 1,
        n >= 10 ==> decimal(n).drop_last() == decimal(n / 10),
{
    if n >= 10 {
        assert(decimal(n).drop_last() =~= decimal(n / 10));
    }
}

/// Two numbers are never written alike.
pub proof fn decimal_tells_numbers_apart(one: nat, other: nat)
    requires
        decimal(one) == decimal(other),
    ensures
        one == other,
{
    let max = if one < other {
        other
    } else {
        one
    };
    decimal_reads_back(one, max);
    decimal_reads_back(other, max);
}

/// A number below zero is written as a minus and what it is short of zero, and
/// any other as it is.
pub proof fn a_minus_stands_before_what_is_below_zero(n: int)
    ensures
        n < 0 ==> signed_decimal(n).len() > 0 && signed_decimal(n)[0] == '-'
            && signed_decimal(n).skip(1) == decimal((-n) as nat),
        n >= 0 ==> signed_decimal(n) == decimal(n as nat),
{
    if n < 0 {
        assert(signed_decimal(n).skip(1) =~= decimal((-n) as nat));
    }
}

/// What is kept of a text is as much of it as fits, character by character,
/// but for its line breaks, which become spaces.
pub proof fn bounded_keeps_each_character(text: Seq<char>, limit: nat)
    ensures
        text.len() <= limit ==> bounded(text, limit).len() == text.len(),
        text.len() >= limit ==> bounded(text, limit).len() == limit,
        forall|i: int|
            #![trigger bounded(text, limit)[i]]
            0 <= i < bounded(text, limit).len() ==> {
                &&& text[i] == '\n' || text[i] == '\r' ==> bounded(text, limit)[i] == ' '
                &&& text[i] != '\n' && text[i] != '\r' ==> bounded(text, limit)[i] == text[i]
            },
{
}

/// A text is one line exactly where it holds neither of the characters that
/// end one.
pub proof fn one_line_holds_no_line_break(text: Seq<char>)
    ensures
        one_line(text) <==> !text.contains('\n') && !text.contains('\r'),
{
    if one_line(text) {
        assert forall|i: int| 0 <= i < text.len() implies text[i] != '\n' && text[i] != '\r' by {}
    }
    if !text.contains('\n') && !text.contains('\r') {
        assert forall|i: int| 0 <= i < text.len() implies text[i] != '\n' && text[i] != '\r' by {
            assert(text.contains(text[i]));
        }
    }
}

/// The blanks, by their numbers: tab to carriage return, the space, the next
/// line, and Unicode's spaces and separators.
pub proof fn blanks_by_number(c: char)
    ensures
        is_blank(c) <==> {
            let code = c as int;
            ||| 9 <= code <= 13
            ||| code == 32
            ||| code == 133
            ||| code == 160
            ||| code == 5760
            ||| 8192 <= code <= 8202
            ||| code == 8232
            ||| code == 8233
            ||| code == 8239
            ||| code == 8287
            ||| code == 12288
        },
{
}

/// Lowering moves each ASCII capital to its small letter, and nothing else.
pub proof fn lowering_moves_capitals_alone(text: Seq<char>)
    ensures
        lowered(text).len() == text.len(),
        forall|i: int|
            #![trigger lowered(text)[i]]
            0 <= i < text.len() ==> {
                &&& 65 <= text[i] as int <= 90 ==> lowered(text)[i] as int == text[i] as int + 32
                &&& !(65 <= text[i] as int <= 90) ==> lowered(text)[i] == text[i]
            },
        lowered(lowered(text)) == lowered(text),
{
    assert forall|i: int|
        #![trigger lowered(text)[i]]
        0 <= i < text.len() && 65 <= text[i] as int <= 90 implies lowered(text)[i] as int
        == text[i] as int + 32 by {
        let c = text[i];
        assert('A' <= c <= 'Z');
        assert((c as u32 + 32) as u32 == c as int + 32);
    }
    assert forall|i: int| 0 <= i < text.len() implies #[trigger] lowered(lowered(text))[i]
        == lowered(text)[i] by {
        let c = text[i];
        if 'A' <= c <= 'Z' {
            assert(lowered(text)[i] as int == c as int + 32);
        }
    }
    assert(lowered(lowered(text)) =~= lowered(text));
}

/// A text is cut into lines at its line feeds. The carriage return before one
/// goes with it, and what is left at the end is a line unless it is empty.
pub proof fn lines_are_cut_at_line_feeds(line: Seq<char>, rest: Seq<char>)
    requires
        forall|i: int| 0 <= i < line.len() ==> line[i] != '\n',
    ensures
        line.len() == 0 ==> lines(line) == Seq::<Seq<char>>::empty(),
        line.len() > 0 ==> lines(line) == seq![line],
        line.len() == 0 || line.last() != '\r' ==> lines(line + seq!['\n'] + rest) == seq![line]
            + lines(rest),
        lines(line + seq!['\r', '\n'] + rest) == seq![line] + lines(rest),
{
    position_unique(line, '\n', line.len() as int);
    let bare = line + seq!['\n'] + rest;
    position_unique(bare, '\n', line.len() as int);
    assert(bare.take(line.len() as int) =~= line);
    assert(bare.skip(line.len() + 1int) =~= rest);
    let whole = line + seq!['\r', '\n'] + rest;
    let end: int = line.len() + 1int;
    assert forall|i: int| 0 <= i < end implies whole[i] != '\n' by {
        if i < line.len() {
            assert(whole[i] == line[i]);
        }
    }
    position_unique(whole, '\n', end);
    assert(whole.take(end) =~= line.push('\r'));
    assert(line.push('\r').drop_last() =~= line);
    assert(whole.skip(end + 1) =~= rest);
    assert(lines(Seq::<char>::empty()) =~= Seq::<Seq<char>>::empty());
}

/// A blank before the fields of a text makes no difference to them, and a text
/// without anything has none.
pub proof fn fields_pass_over_blanks(blank: char, rest: Seq<char>)
    requires
        is_blank(blank),
    ensures
        fields(seq![blank] + rest) == fields(rest),
        fields(Seq::<char>::empty()) == Seq::<Seq<char>>::empty(),
{
    assert((seq![blank] + rest).skip(1) =~= rest);
}

/// Trimming takes the blanks off either end and leaves what is between them.
pub proof fn trimming_takes_the_blanks_at_the_ends(
    left: Seq<char>,
    kept: Seq<char>,
    right: Seq<char>,
)
    requires
        forall|i: int| 0 <= i < left.len() ==> is_blank(#[trigger] left[i]),
        forall|i: int| 0 <= i < right.len() ==> is_blank(#[trigger] right[i]),
        kept.len() > 0 ==> !is_blank(kept[0]) && !is_blank(kept.last()),
    ensures
        trimmed(left + kept + right) == kept,
{
    let text = left + kept + right;
    if kept.len() == 0 {
        assert forall|i: int| 0 <= i < text.len() implies is_blank(#[trigger] text[i]) by {
            if i < left.len() {
                assert(text[i] == left[i]);
            } else {
                assert(text[i] == right[i - left.len()]);
            }
        }
        trimmed_of_blanks(text);
        assert(kept =~= Seq::<char>::empty());
    } else {
        assert forall|i: int| 0 <= i < left.len() implies is_blank(#[trigger] text[i]) by {
            assert(text[i] == left[i]);
        }
        assert(text[left.len() as int] == kept[0]);
        trimmed_start_skips(text, left.len() as int);
        let rest = text.skip(left.len() as int);
        assert forall|i: int| kept.len() <= i < rest.len() implies is_blank(#[trigger] rest[i]) by {
            assert(rest[i] == right[i - kept.len()]);
        }
        assert(rest[kept.len() - 1] == kept.last());
        trimmed_end_takes(rest, kept.len() as int);
        assert(rest.take(kept.len() as int) =~= kept);
    }
}

/// Reading goes on from the left part to the right one.
proof fn digits_value_goes_on(left: Seq<char>, right: Seq<char>, high: nat, max: nat)
    ensures
        digits_value(left + right, high, max) == match digits_value(left, high, max) {
            Err(error) => Err::<nat, NumberError>(error),
            Ok(value) => digits_value(right, value, max),
        },
    decreases left.len(),
{
    if left.len() == 0 {
        assert(left + right =~= right);
    } else {
        assert((left + right).skip(1) =~= left.skip(1) + right);
        if is_digit(left[0]) && high * 10 + digit_value(left[0]) <= max {
            digits_value_goes_on(
                left.skip(1),
                right,
                (high * 10 + digit_value(left[0])) as nat,
                max,
            );
        }
    }
}

/// Digits can be too many, and nothing else is wrong with them.
proof fn digits_fail_for_size_alone(digits: Seq<char>, high: nat, max: nat)
    requires
        forall|i: int| 0 <= i < digits.len() ==> '0' <= #[trigger] digits[i] <= '9',
    ensures
        digits_value(digits, high, max) matches Err(error) ==> error is TooLarge,
    decreases digits.len(),
{
    if digits.len() > 0 {
        assert('0' <= digits[0] <= '9');
        let rest = digits.skip(1);
        assert forall|i: int| 0 <= i < rest.len() implies '0' <= #[trigger] rest[i] <= '9' by {
            assert(rest[i] == digits[i + 1]);
        }
        if high * 10 + digit_value(digits[0]) <= max {
            digits_fail_for_size_alone(rest, (high * 10 + digit_value(digits[0])) as nat, max);
        }
    }
}

/// One more digit makes ten times the number and the digit, as long as that is
/// within the limit; a number that is too large stays so.
pub proof fn a_digit_more_is_ten_times_as_much(digits: Seq<char>, c: char, max: nat)
    requires
        forall|i: int| 0 <= i < digits.len() ==> '0' <= #[trigger] digits[i] <= '9',
        '0' <= c <= '9',
    ensures
        ({
            let digit = c as int - '0' as int;
            let before = if digits.len() == 0 {
                Ok::<nat, NumberError>(0)
            } else {
                number(digits, max)
            };
            match before {
                Ok(value) => if value * 10 + digit <= max {
                    number(digits.push(c), max) == Ok::<nat, NumberError>(
                        (value * 10 + digit) as nat,
                    )
                } else {
                    number(digits.push(c), max) == Err::<nat, NumberError>(NumberError::TooLarge)
                },
                Err(error) => error is TooLarge && number(digits.push(c), max) == Err::<
                    nat,
                    NumberError,
                >(NumberError::TooLarge),
            }
        }),
{
    digits_value_push(digits, c, 0, max);
    digits_fail_for_size_alone(digits, 0, max);
    if digits.len() > 0 {
        assert('0' <= digits[0] <= '9');
    }
    assert(digits.push(c)[0] != '+');
}

/// A plus before a number makes no difference, but only one may stand there,
/// and it may not stand alone.
pub proof fn a_plus_may_stand_before_a_number(text: Seq<char>, max: nat)
    ensures
        number(seq!['+'], max) == Err::<nat, NumberError>(NumberError::InvalidDigit),
        text.len() > 0 && text[0] != '+' ==> number(seq!['+'] + text, max) == number(text, max),
        text.len() > 0 && text[0] == '+' ==> number(seq!['+'] + text, max) == Err::<
            nat,
            NumberError,
        >(NumberError::InvalidDigit),
{
    assert((seq!['+'] + text).skip(1) =~= text);
    reveal_with_fuel(digits_value, 2);
}

/// Nothing is no number. Nor is anything with a character in it that is no
/// digit, unless it is the plus before the first of them: it fails there, or
/// before that for being too large.
pub proof fn a_number_is_digits_alone(digits: Seq<char>, c: char, rest: Seq<char>, max: nat)
    requires
        forall|i: int| 0 <= i < digits.len() ==> '0' <= #[trigger] digits[i] <= '9',
        !('0' <= c <= '9'),
        digits.len() > 0 || c != '+' || rest.len() == 0,
    ensures
        number(Seq::<char>::empty(), max) == Err::<nat, NumberError>(NumberError::Empty),
        number(digits + seq![c] + rest, max) == if digits.len() > 0 && number(digits, max) is Err {
            Err::<nat, NumberError>(NumberError::TooLarge)
        } else {
            Err::<nat, NumberError>(NumberError::InvalidDigit)
        },
{
    let text = digits + seq![c] + rest;
    let tail = seq![c] + rest;
    assert(text =~= digits + tail);
    digits_value_goes_on(digits, tail, 0, max);
    digits_fail_for_size_alone(digits, 0, max);
    if digits.len() > 0 {
        assert('0' <= digits[0] <= '9');
        assert(text[0] == digits[0]);
    } else {
        assert(text[0] == c);
    }
}

/// Each way in which a number can fail has words of its own.
pub proof fn number_errors_in_words()
    ensures
        number_error_text(NumberError::Empty) == "cannot parse integer from empty string"@,
        number_error_text(NumberError::InvalidDigit) == "invalid digit found in string"@,
        number_error_text(NumberError::TooLarge) == "number too large to fit in target type"@,
{
}

/// A text that is there is the text that is meant, and one that is not is none.
pub proof fn optional_texts_hold_their_text(string: String, slice: &str, parts: Seq<Vec<char>>)
    ensures
        text_in(Some(string)) == Some(string@),
        text_in(None) is None,
        slice_text(Some(slice)) == Some(slice@),
        slice_text(None) is None,
        spelled(parts).len() == parts.len(),
        forall|i: int| 0 <= i < parts.len() ==> #[trigger] spelled(parts)[i] == parts[i]@,
{
}

/// A number that is written can be read back, under any limit that allows it.
pub proof fn a_written_number_is_read_back(
    n: u64,
    max: u64,
    written: String,
    slice: &[char],
    read: Result<u64, NumberError>,
)
    requires
        n <= max,
        call_ensures(decimal_text, (n as u128,), written),
        slice@ == written@,
        call_ensures(parse_number, (slice, max), read),
    ensures
        read == Ok::<u64, NumberError>(n),
{
    decimal_reads_back(n as nat, max as nat);
}

/// A text is its characters, and two texts are the same exactly where their
/// characters are.
pub proof fn a_text_is_its_characters(
    text: &str,
    other: &str,
    chars: Vec<char>,
    slice: &[char],
    again: String,
    same: bool,
)
    requires
        call_ensures(chars_of, (text,), chars),
        slice@ == chars@,
        call_ensures(text_of, (slice,), again),
        call_ensures(same_text, (text, other), same),
    ensures
        again@ == text@,
        same <==> text@ == other@,
{
}

/// What is kept of a text is kept again as it is.
pub proof fn what_was_kept_is_kept(
    text: &str,
    limit: usize,
    line: String,
    slice: &str,
    again: String,
)
    requires
        call_ensures(bounded_line, (text, limit), line),
        slice@ == line@,
        call_ensures(bounded_line, (slice, limit), again),
    ensures
        again@ == line@,
        line@.len() <= limit,
        !line@.contains('\n'),
        !line@.contains('\r'),
{
    bounded_is_one_short_line(text@, limit as nat);
    bounded_keeps_what_fits(line@, limit as nat);
    one_line_holds_no_line_break(line@);
}

}
