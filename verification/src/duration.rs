//! Spans of time written as a whole number and a unit, such as `5 minutes`.

use crate::integer::{
    digit_run, has_sign, is_digit, lemma_skip_digits, parse_i64, parse_i64_chars, unsigned_part,
    IntErrorKind,
};
use crate::text::{
    ascii_lower, ascii_lowercase, chars_of, is_blank, is_whitespace, lemma_skip_token,
    lemma_skip_token_to, lemma_skip_whitespace, lemma_skip_whitespace_back,
    lemma_skip_whitespace_back_to, lemma_skip_whitespace_to, scan_token, scan_whitespace,
    scan_whitespace_back, skip_whitespace_back, spells_ignoring_case, token, token_end,
    token_start,
};
use vstd::prelude::*;
use vstd::string::*;

verus! {

/// A signed span of time: whole seconds, and the nanoseconds beyond them.
#[derive(Clone, Copy, Debug, PartialEq, Eq, Structural)]
pub struct Duration {
    /// Whole seconds.
    pub seconds: i64,
    /// Nanoseconds beyond the whole seconds, with the sign of `seconds`.
    pub nanoseconds: i32,
}

/// The units a span can be written in.
#[derive(Clone, Copy, Debug, PartialEq, Eq, Structural)]
pub enum DurationUnit {
    Second,
    Minute,
    Hour,
    Day,
}

/// Why a text is no span of time.
#[derive(Debug)]
pub enum DurationValueParserError {
    /// The text holds no number. A text with any token at all has one, so
    /// this is never returned; it is kept for callers that match on it.
    NumberNotFound,
    /// The text holds a number and nothing after it.
    UnitNotFound,
    /// The first token is no 64-bit integer, or too large for its unit.
    NumberParseFailed { source: IntErrorKind },
    /// What follows the number, given here as written, names no unit: it is
    /// another word, or more than one token.
    UnitUnexpected { unit: String },
}

/// What a `DurationValueParserError` says, with text as characters.
pub enum DurationFault {
    NumberNotFound,
    UnitNotFound,
    NumberParseFailed(IntErrorKind),
    UnitUnexpected(Seq<char>),
}

impl View for DurationValueParserError {
    type V = DurationFault;

    open spec fn view(&self) -> DurationFault {
        match self {
            DurationValueParserError::NumberNotFound => DurationFault::NumberNotFound,
            DurationValueParserError::UnitNotFound => DurationFault::UnitNotFound,
            DurationValueParserError::NumberParseFailed { source } => {
                DurationFault::NumberParseFailed(*source)
            },
            DurationValueParserError::UnitUnexpected { unit } => DurationFault::UnitUnexpected(
                unit@,
            ),
        }
    }
}

impl DurationUnit {
    /// How many seconds one of this unit lasts.
    pub open spec fn seconds_per(self) -> int {
        match self {
            DurationUnit::Second => 1,
            DurationUnit::Minute => 60,
            DurationUnit::Hour => 3_600,
            DurationUnit::Day => 86_400,
        }
    }

    /// Whether `number` of this unit is a whole number of seconds within `i64`.
    pub open spec fn fits(self, number: int) -> bool {
        i64::MIN <= number * self.seconds_per() <= i64::MAX
    }

    /// The span of `number` of this unit, where it fits.
    pub open spec fn span(self, number: int) -> Option<Duration> {
        if self.fits(number) {
            Some(Duration { seconds: (number * self.seconds_per()) as i64, nanoseconds: 0 })
        } else {
            None
        }
    }

    /// How many seconds one of this unit lasts.
    pub fn seconds_in(self) -> (r: i64)
        ensures
            r == self.seconds_per(),
    {
        match self {
            DurationUnit::Second => 1,
            DurationUnit::Minute => 60,
            DurationUnit::Hour => 3_600,
            DurationUnit::Day => 86_400,
        }
    }

    /// The span of `number` of this unit, or `None` where that many seconds
    /// do not fit in `i64`.
    pub fn duration(self, number: i64) -> (r: Option<Duration>)
        ensures
            r == self.span(number as int),
    {
        let per = self.seconds_in();
        let seconds: i128 = number as i128 * per as i128;
        if seconds > i64::MAX as i128 || seconds < i64::MIN as i128 {
            return None;
        }
        Some(
            match self {
                DurationUnit::Second => time_seconds(number),
                DurationUnit::Minute => time_minutes(number),
                DurationUnit::Hour => time_hours(number),
                DurationUnit::Day => time_days(number),
            },
        )
    }
}

/// `time::Duration::seconds`: the span of that many whole seconds, read back
/// as whole seconds and nanoseconds beyond them.
#[verifier::external_body]
fn time_seconds(seconds: i64) -> (d: Duration)
    ensures
        d.seconds == seconds,
        d.nanoseconds == 0,
{
    let d = time::Duration::seconds(seconds);
    Duration { seconds: d.whole_seconds(), nanoseconds: d.subsec_nanoseconds() }
}

/// `time::Duration::minutes`: the span of `minutes * 60` whole seconds. It
/// panics where that product leaves `i64`, which `requires` rules out.
#[verifier::external_body]
fn time_minutes(minutes: i64) -> (d: Duration)
    requires
        i64::MIN <= minutes * 60 <= i64::MAX,
    ensures
        d.seconds == minutes * 60,
        d.nanoseconds == 0,
{
    let d = time::Duration::minutes(minutes);
    Duration { seconds: d.whole_seconds(), nanoseconds: d.subsec_nanoseconds() }
}

/// `time::Duration::hours`: the span of `hours * 3600` whole seconds. It
/// panics where that product leaves `i64`, which `requires` rules out.
#[verifier::external_body]
fn time_hours(hours: i64) -> (d: Duration)
    requires
        i64::MIN <= hours * 3_600 <= i64::MAX,
    ensures
        d.seconds == hours * 3_600,
        d.nanoseconds == 0,
{
    let d = time::Duration::hours(hours);
    Duration { seconds: d.whole_seconds(), nanoseconds: d.subsec_nanoseconds() }
}

/// `time::Duration::days`: the span of `days * 86400` whole seconds. It
/// panics where that product leaves `i64`, which `requires` rules out.
#[verifier::external_body]
fn time_days(days: i64) -> (d: Duration)
    requires
        i64::MIN <= days * 86_400 <= i64::MAX,
    ensures
        d.seconds == days * 86_400,
        d.nanoseconds == 0,
{
    let d = time::Duration::days(days);
    Duration { seconds: d.whole_seconds(), nanoseconds: d.subsec_nanoseconds() }
}

/// The unit that `word` names, whatever the case of its ASCII letters.
pub open spec fn unit_of(word: Seq<char>) -> Option<DurationUnit> {
    let lower = ascii_lowercase(word);
    if lower == "second"@ || lower == "seconds"@ {
        Some(DurationUnit::Second)
    } else if lower == "minute"@ || lower == "minutes"@ {
        Some(DurationUnit::Minute)
    } else if lower == "hour"@ || lower == "hours"@ {
        Some(DurationUnit::Hour)
    } else if lower == "day"@ || lower == "days"@ {
        Some(DurationUnit::Day)
    } else {
        None
    }
}

/// The span of `number` of `unit`, or the overflow that it runs into.
pub open spec fn scaled(number: i64, unit: DurationUnit) -> Result<Option<Duration>, DurationFault> {
    match unit.span(number as int) {
        Some(d) => Ok(Some(d)),
        None => Err(
            DurationFault::NumberParseFailed(
                if number < 0 {
                    IntErrorKind::NegOverflow
                } else {
                    IntErrorKind::PosOverflow
                },
            ),
        ),
    }
}

/// What follows the first token of `s`, without the whitespace around it:
/// from where the second token begins to where the last one ends. Empty when
/// `s` has no second token.
pub open spec fn unit_text(s: Seq<char>) -> Seq<char> {
    s.subrange(token_start(s, 1), skip_whitespace_back(s, token_start(s, 1), s.len() as int))
}

/// The span that `s` spells.
///
/// A blank text is no span at all. Otherwise `s` is exactly two tokens: a
/// 64-bit integer, and a unit. The number is looked at before the unit. What
/// follows the number is taken whole as the unit, so a text with a third
/// token names no unit: it is refused as `UnitUnexpected`, with all that
/// followed the number.
pub open spec fn parse_duration(s: Seq<char>) -> Result<Option<Duration>, DurationFault> {
    if is_blank(s) {
        Ok(None)
    } else if unit_text(s).len() == 0 {
        Err(DurationFault::UnitNotFound)
    } else {
        match parse_i64(token(s, 0)) {
            Err(kind) => Err(DurationFault::NumberParseFailed(kind)),
            Ok(number) => match unit_of(unit_text(s)) {
                None => Err(DurationFault::UnitUnexpected(unit_text(s))),
                Some(unit) => scaled(number, unit),
            },
        }
    }
}

impl DurationUnit {
    /// The unit that `word` names, whatever the case of its ASCII letters.
    pub fn from_word(word: &str) -> (r: Option<DurationUnit>)
        ensures
            r == unit_of(word@),
    {
        let v = chars_of(word);
        assert(v@.subrange(0, v.len() as int) =~= word@);
        unit_from_chars(&v, 0, v.len())
    }
}

/// The unit that the characters of `v` from `from` up to `to` name.
pub(crate) fn unit_from_chars(v: &Vec<char>, from: usize, to: usize) -> (r: Option<DurationUnit>)
    requires
        from <= to <= v.len(),
    ensures
        r == unit_of(v@.subrange(from as int, to as int)),
{
    if spells_ignoring_case(v, from, to, "second") || spells_ignoring_case(v, from, to, "seconds") {
        Some(DurationUnit::Second)
    } else if spells_ignoring_case(v, from, to, "minute") || spells_ignoring_case(
        v,
        from,
        to,
        "minutes",
    ) {
        Some(DurationUnit::Minute)
    } else if spells_ignoring_case(v, from, to, "hour") || spells_ignoring_case(
        v,
        from,
        to,
        "hours",
    ) {
        Some(DurationUnit::Hour)
    } else if spells_ignoring_case(v, from, to, "day") || spells_ignoring_case(v, from, to, "days") {
        Some(DurationUnit::Day)
    } else {
        None
    }
}

/// Reads `source` as a span of time.
pub fn parse_duration_value(source: &str) -> (r: Result<Option<Duration>, DurationValueParserError>)
    ensures
        match r {
            Ok(span) => parse_duration(source@) == Ok::<Option<Duration>, DurationFault>(span),
            Err(e) => parse_duration(source@) == Err::<Option<Duration>, DurationFault>(e@),
        },
{
    let v = chars_of(source);
    let number_start = scan_whitespace(&v, 0);
    proof {
        lemma_skip_whitespace(v@, 0);
    }
    if number_start == v.len() {
        return Ok(None);
    }
    let number_end = scan_token(&v, number_start);
    let unit_start = scan_whitespace(&v, number_end);
    let unit_end = scan_whitespace_back(&v, unit_start, v.len());
    proof {
        assert(token_start(v@, 1) == unit_start) by {
            reveal_with_fuel(token_start, 2);
        }
        lemma_skip_token(v@, number_start as int);
        lemma_skip_whitespace(v@, number_end as int);
        lemma_skip_whitespace_back(v@, unit_start as int, v@.len() as int);
        assert(!is_blank(v@));
    }
    if unit_start == unit_end {
        return Err(DurationValueParserError::UnitNotFound);
    }
    let number = match parse_i64_chars(&v, number_start, number_end) {
        Ok(number) => number,
        Err(kind) => {
            return Err(DurationValueParserError::NumberParseFailed { source: kind });
        },
    };
    let unit = match unit_from_chars(&v, unit_start, unit_end) {
        Some(unit) => unit,
        None => {
            let unit = source.substring_char(unit_start, unit_end).to_owned();
            return Err(DurationValueParserError::UnitUnexpected { unit });
        },
    };
    match unit.duration(number) {
        Some(span) => Ok(Some(span)),
        None => {
            let source = if number < 0 {
                IntErrorKind::NegOverflow
            } else {
                IntErrorKind::PosOverflow
            };
            Err(DurationValueParserError::NumberParseFailed { source })
        },
    }
}

/// Whether `s` is a token: not empty, and without whitespace.
pub open spec fn is_token(s: Seq<char>) -> bool {
    &&& s.len() > 0
    &&& forall|i: int| 0 <= i < s.len() ==> !is_whitespace(#[trigger] s[i])
}

/// A text that spells an integer is a token.
pub proof fn lemma_integer_is_token(s: Seq<char>)
    requires
        parse_i64(s) is Ok,
    ensures
        is_token(s),
{
    let digits = unsigned_part(s);
    lemma_skip_digits(digits, 0);
    assert(digit_run(s).len() == digits.len());
    assert forall|i: int| 0 <= i < s.len() implies !is_whitespace(#[trigger] s[i]) by {
        if has_sign(s) {
            if i > 0 {
                assert(s[i] == digits[i - 1]);
                assert(is_digit(digits[i - 1]));
            }
        } else {
            assert(is_digit(digits[i]));
        }
    }
}

/// Whether every character of `word` is a lower-case ASCII letter.
spec fn is_lower_word(word: Seq<char>) -> bool {
    forall|i: int| 0 <= i < word.len() ==> 'a' <= #[trigger] word[i] <= 'z'
}

/// A text whose lower-case form is a word of lower-case letters is a token.
proof fn lemma_spelling_is_token(s: Seq<char>, word: Seq<char>)
    requires
        ascii_lowercase(s) == word,
        word.len() > 0,
        is_lower_word(word),
    ensures
        is_token(s),
{
    assert forall|i: int| 0 <= i < s.len() implies !is_whitespace(#[trigger] s[i]) by {
        assert(ascii_lowercase(s)[i] == ascii_lower(s[i]));
        assert('a' <= word[i] <= 'z');
    }
}

/// A text that names a unit is a token.
pub proof fn lemma_unit_is_token(s: Seq<char>)
    requires
        unit_of(s) is Some,
    ensures
        is_token(s),
{
    reveal_strlit("second");
    reveal_strlit("seconds");
    reveal_strlit("minute");
    reveal_strlit("minutes");
    reveal_strlit("hour");
    reveal_strlit("hours");
    reveal_strlit("day");
    reveal_strlit("days");
    let lower = ascii_lowercase(s);
    assert(is_lower_word("second"@));
    assert(is_lower_word("seconds"@));
    assert(is_lower_word("minute"@));
    assert(is_lower_word("minutes"@));
    assert(is_lower_word("hour"@));
    assert(is_lower_word("hours"@));
    assert(is_lower_word("day"@));
    assert(is_lower_word("days"@));
    lemma_spelling_is_token(s, lower);
}

/// In a text made of two tokens with whitespace between them, and maybe
/// around them, the first token and what follows it are found again.
pub proof fn lemma_two_tokens(
    lead: Seq<char>,
    first: Seq<char>,
    gap: Seq<char>,
    second: Seq<char>,
    trail: Seq<char>,
)
    requires
        is_blank(lead),
        is_token(first),
        is_blank(gap),
        gap.len() > 0,
        is_token(second),
        is_blank(trail),
    ensures
        !is_blank(lead + first + gap + second + trail),
        token(lead + first + gap + second + trail, 0) == first,
        unit_text(lead + first + gap + second + trail) == second,
{
    let s = lead + first + gap + second + trail;
    let a = lead.len() as int;
    let b = a + first.len();
    let c = b + gap.len();
    let d = c + second.len();
    assert(forall|i: int| 0 <= i < a ==> s[i] == lead[i]);
    assert(forall|i: int| a <= i < b ==> s[i] == first[i - a]);
    assert(forall|i: int| b <= i < c ==> s[i] == gap[i - b]);
    assert(forall|i: int| c <= i < d ==> s[i] == second[i - c]);
    assert(forall|i: int| d <= i < s.len() ==> s[i] == trail[i - d]);
    assert(s[a] == first[0]);
    assert(s[b] == gap[0]);
    assert(s[c] == second[0]);
    assert(s[d - 1] == second[second.len() - 1]);
    lemma_skip_whitespace_to(s, 0, a);
    lemma_skip_token_to(s, a, b);
    lemma_skip_whitespace_to(s, b, c);
    lemma_skip_whitespace_back_to(s, c, s.len() as int, d);
    assert(token_start(s, 1) == c) by {
        reveal_with_fuel(token_start, 2);
    }
    assert(token(s, 0) =~= first);
    assert(unit_text(s) =~= second);
    assert(!is_whitespace(s[a]));
}

/// A well-formed text, an integer and a unit with whitespace between them,
/// spells that many of the unit: `value` times the seconds of the unit,
/// whatever the case of the unit's letters.
pub proof fn lemma_parse_duration_well_formed(
    lead: Seq<char>,
    number: Seq<char>,
    gap: Seq<char>,
    unit: Seq<char>,
    trail: Seq<char>,
    value: i64,
    scale: DurationUnit,
)
    requires
        is_blank(lead),
        is_blank(gap),
        gap.len() > 0,
        is_blank(trail),
        parse_i64(number) == Ok::<i64, IntErrorKind>(value),
        unit_of(unit) == Some(scale),
        scale.fits(value as int),
    ensures
        parse_duration(lead + number + gap + unit + trail) == Ok::<Option<Duration>, DurationFault>(
            Some(Duration { seconds: (value * scale.seconds_per()) as i64, nanoseconds: 0 }),
        ),
{
    lemma_integer_is_token(number);
    lemma_unit_is_token(unit);
    lemma_two_tokens(lead, number, gap, unit, trail);
}

/// A text whose second and last token names no unit is refused with that
/// token, as written.
pub proof fn lemma_parse_duration_unknown_unit(
    lead: Seq<char>,
    number: Seq<char>,
    gap: Seq<char>,
    unit: Seq<char>,
    trail: Seq<char>,
)
    requires
        is_blank(lead),
        is_blank(gap),
        gap.len() > 0,
        is_blank(trail),
        parse_i64(number) is Ok,
        is_token(unit),
        unit_of(unit) is None,
    ensures
        parse_duration(lead + number + gap + unit + trail) == Err::<
            Option<Duration>,
            DurationFault,
        >(DurationFault::UnitUnexpected(unit)),
{
    lemma_integer_is_token(number);
    lemma_two_tokens(lead, number, gap, unit, trail);
}

/// A blank text, the empty one first of all, spells no span and is no error.
pub proof fn lemma_parse_duration_blank(s: Seq<char>)
    requires
        is_blank(s),
    ensures
        parse_duration(s) == Ok::<Option<Duration>, DurationFault>(None),
        parse_duration(Seq::<char>::empty()) == Ok::<Option<Duration>, DurationFault>(None),
{
}

/// A text with a third token is refused, whatever its first two tokens are:
/// it is not exactly a number and a unit.
pub proof fn lemma_parse_duration_third_token(s: Seq<char>)
    requires
        token(s, 2).len() > 0,
    ensures
        parse_duration(s) is Err,
{
    reveal_with_fuel(token_start, 3);
    let a = token_start(s, 0);
    lemma_skip_whitespace(s, 0);
    let b = token_end(s, 0);
    lemma_skip_token(s, a);
    let c = token_start(s, 1);
    lemma_skip_whitespace(s, b);
    let d = token_end(s, 1);
    lemma_skip_token(s, c);
    let e = token_start(s, 2);
    lemma_skip_whitespace(s, d);
    let f = token_end(s, 2);
    lemma_skip_token(s, e);
    assert(a <= b <= c <= d <= e < f <= s.len());
    assert(!is_whitespace(s[e]));
    assert(d < e);
    assert(is_whitespace(s[d]));
    assert(c < d) by {
        if c == d {
            assert(c < s.len());
            assert(!is_whitespace(s[c]));
        }
    }
    assert(a < s.len() && !is_whitespace(s[a])) by {
        if a == s.len() {
            assert(b == a && c == a);
        }
    }
    let end = skip_whitespace_back(s, c, s.len() as int);
    lemma_skip_whitespace_back(s, c, s.len() as int);
    assert(end > e) by {
        if end <= e {
            assert(is_whitespace(s[e]));
        }
    }
    let rest = unit_text(s);
    assert(rest.len() == end - c);
    assert(rest[d - c] == s[d]);
    assert(unit_of(rest) is None) by {
        if unit_of(rest) is Some {
            lemma_unit_is_token(rest);
            assert(!is_whitespace(rest[d - c]));
        }
    }
}

} // verus!
