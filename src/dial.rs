//! Values that a dial displays: identities, percents and backlight colors.
use vstd::prelude::*;
use crate::api::{trim, trimmed};

verus! {

/// The unique, stable identifier of one physical dial.
#[derive(Clone, Debug, PartialEq, Eq, Hash)]
pub struct Id {
    uid: String,
}

impl View for Id {
    type V = Seq<char>;

    closed spec fn view(&self) -> Seq<char> {
        self.uid@
    }
}

impl Id {
    pub fn new(uid: String) -> (r: Id)
        ensures
            r@ == uid@,
    {
        Id { uid }
    }

    pub fn as_str(&self) -> (r: &str)
        ensures
            r@ == self@,
    {
        self.uid.as_str()
    }
}

/// An integer in the closed range `0..=100`.
#[derive(Copy, Clone, Debug, PartialEq, Eq, Hash)]
pub struct Percent(u8);

impl View for Percent {
    type V = int;

    closed spec fn view(&self) -> int {
        self.0 as int
    }
}

/// A value outside `0..=100` was offered as a percent.
#[derive(Copy, Clone, Debug, PartialEq, Eq)]
pub struct PercentError(pub u8);

impl Percent {
    #[verifier::type_invariant]
    spec fn in_range(self) -> bool {
        self.0 <= 100
    }

    /// Accepts exactly the values `0..=100`.
    pub fn new(value: u8) -> (r: Result<Percent, PercentError>)
        ensures
            r is Ok <==> value <= 100,
            r matches Ok(p) ==> p@ == value as int,
            r matches Err(e) ==> e.0 == value,
    {
        if value > 100 {
            Err(PercentError(value))
        } else {
            Ok(Percent(value))
        }
    }

    /// The percent whose value is `v`, for `v` in `0..=100`.
    pub closed spec fn from_value(v: int) -> Percent {
        Percent(v as u8)
    }

    /// A percent is determined by its value.
    pub proof fn lemma_from_value(p: Percent)
        ensures
            p == Percent::from_value(p@),
    {
    }

    pub fn get(&self) -> (r: u8)
        ensures
            r as int == self@,
            r <= 100,
    {
        proof {
            use_type_invariant(self);
        }
        self.0
    }
}

/// The backlight channel a [`BacklightError`] is about.
#[derive(Copy, Clone, Debug, PartialEq, Eq)]
pub enum Channel {
    Red,
    Green,
    Blue,
}

/// The red, green and blue intensities of a dial's backlight.
#[derive(Copy, Clone, Debug, PartialEq, Eq)]
pub struct Backlight {
    pub red: Percent,
    pub green: Percent,
    pub blue: Percent,
}

/// One channel of a backlight was out of range.
#[derive(Copy, Clone, Debug, PartialEq, Eq)]
pub struct BacklightError {
    pub value: PercentError,
    pub field: Channel,
}

/// Why a percent could not be read from text.
#[derive(Copy, Clone, Debug, PartialEq, Eq)]
pub enum PercentParseError {
    /// The text held a number over 100.
    InvalidPercent(PercentError),
    /// The text was not a number from 0 to 255.
    NotAU8,
}

impl Backlight {
    /// Builds a color from three channels, reporting the first channel (in
    /// red, green, blue order) that is out of range.
    pub fn new(red: u8, green: u8, blue: u8) -> (r: Result<Backlight, BacklightError>)
        ensures
            r is Ok <==> (red <= 100 && green <= 100 && blue <= 100),
            r matches Ok(b) ==> b.red@ == red as int && b.green@ == green as int && b.blue@
                == blue as int,
            r matches Err(e) ==> if red > 100 {
                e.field == Channel::Red && e.value.0 == red
            } else if green > 100 {
                e.field == Channel::Green && e.value.0 == green
            } else {
                e.field == Channel::Blue && e.value.0 == blue
            },
    {
        let red = match Percent::new(red) {
            Ok(p) => p,
            Err(value) => return Err(BacklightError { value, field: Channel::Red }),
        };
        let green = match Percent::new(green) {
            Ok(p) => p,
            Err(value) => return Err(BacklightError { value, field: Channel::Green }),
        };
        let blue = match Percent::new(blue) {
            Ok(p) => p,
            Err(value) => return Err(BacklightError { value, field: Channel::Blue }),
        };
        Ok(Backlight { red, green, blue })
    }
}

} // verus!

verus! {

/// How fast a dial animates its needle and backlight toward a new setting,
/// as the server reports it.
#[derive(Copy, Clone, Debug, PartialEq, Eq)]
pub struct Easing {
    pub backlight_step: Percent,
    pub backlight_period_ms: u64,
    pub dial_step: Percent,
    pub dial_period_ms: u64,
}

} // verus!

verus! {

/// Whether two texts are the same.
pub fn same_text(a: &str, b: &str) -> (r: bool)
    ensures
        r == (a@ == b@),
{
    let n = a.unicode_len();
    if n != b.unicode_len() {
        return false;
    }
    let mut i: usize = 0;
    while i < n
        invariant
            n == a@.len() == b@.len(),
            i <= n,
            forall|j: int| 0 <= j < i ==> a@[j] == b@[j],
        decreases n - i,
    {
        if a.get_char(i) != b.get_char(i) {
            return false;
        }
        i = i + 1;
    }
    assert(a@ =~= b@);
    true
}

impl Backlight {
    /// This color with each channel given replaced.
    pub fn with_channels(&self, red: Option<Percent>, green: Option<Percent>, blue: Option<Percent>) -> (r: Backlight)
        ensures
            r.red == (match red { Some(p) => p, None => self.red }),
            r.green == (match green { Some(p) => p, None => self.green }),
            r.blue == (match blue { Some(p) => p, None => self.blue }),
    {
        let mut b = *self;
        if let Some(p) = red {
            b.red = p;
        }
        if let Some(p) = green {
            b.green = p;
        }
        if let Some(p) = blue {
            b.blue = p;
        }
        b
    }
}

} // verus!

verus! {

pub open spec fn is_digit(c: char) -> bool {
    '0' <= c <= '9'
}

pub open spec fn digit_value(c: char) -> int {
    c as int - '0' as int
}

/// The number that a string of decimal digits spells.
pub open spec fn decimal_value(d: Seq<char>) -> int
    decreases d.len(),
{
    if d.len() == 0 {
        0
    } else {
        decimal_value(d.drop_last()) * 10 + digit_value(d.last())
    }
}

/// `t` without the `%` signs at its end.
pub open spec fn strip_percent_signs(t: Seq<char>) -> Seq<char>
    decreases t.len(),
{
    if t.len() > 0 && t.last() == '%' {
        strip_percent_signs(t.drop_last())
    } else {
        t
    }
}

/// The digits of an unsigned decimal number: one or more, after an optional
/// `+`.
pub open spec fn unsigned_digits(t: Seq<char>) -> Seq<char> {
    if t.len() > 0 && t[0] == '+' {
        t.drop_first()
    } else {
        t
    }
}

/// The byte that `t` spells as an unsigned decimal number, if any.
pub open spec fn u8_of(t: Seq<char>) -> Option<u8> {
    digits_u8(unsigned_digits(t))
}

/// What reading a percent from `t`, already trimmed, gives.
pub open spec fn percent_of(t: Seq<char>) -> Result<int, PercentParseError> {
    match u8_of(strip_percent_signs(t)) {
        Some(v) => if v <= 100 {
            Ok(v as int)
        } else {
            Err(PercentParseError::InvalidPercent(PercentError(v)))
        },
        None => Err(PercentParseError::NotAU8),
    }
}

proof fn lemma_decimal_prefix(d: Seq<char>, n: int)
    requires
        0 <= n <= d.len(),
        forall|i: int| 0 <= i < d.len() ==> is_digit(#[trigger] d[i]),
    ensures
        0 <= decimal_value(d.take(n)) <= decimal_value(d),
    decreases d.len(),
{
    if n < d.len() {
        assert(d.drop_last().take(n) == d.take(n));
        lemma_decimal_prefix(d.drop_last(), n);
        assert(is_digit(d.last()));
    } else {
        assert(d.take(n) == d);
        if d.len() > 0 {
            lemma_decimal_prefix(d.drop_last(), d.len() - 1);
            assert(d.drop_last().take(d.len() - 1) == d.drop_last());
            assert(is_digit(d.last()));
        }
    }
}

impl Percent {
    /// Reads a percent such as `42`, `42%` or ` 7 `: surrounding whitespace
    /// and trailing `%` signs are ignored.
    pub fn parse(s: &str) -> (r: Result<Percent, PercentParseError>)
        ensures
            match percent_of(trimmed(s@)) {
                Ok(v) => r matches Ok(p) && p@ == v,
                Err(e) => r == Err::<Percent, PercentParseError>(e),
            },
    {
        Percent::parse_trimmed(trim(s))
    }

    /// Reads a percent from text that has no surrounding whitespace.
    pub fn parse_trimmed(t: &str) -> (r: Result<Percent, PercentParseError>)
        ensures
            match percent_of(t@) {
                Ok(v) => r matches Ok(p) && p@ == v,
                Err(e) => r == Err::<Percent, PercentParseError>(e),
            },
    {
        let end = end_before_percent_signs(t);
        let ghost body = t@.take(end as int);
        let mut start: usize = 0;
        if end > 0 && t.get_char(0) == '+' {
            start = 1;
        }
        assert(end > 0 ==> body[0] == t@[0]);
        assert(body.subrange(start as int, end as int) == t@.subrange(start as int, end as int));
        assert(unsigned_digits(body) == t@.subrange(start as int, end as int));
        match read_digits(t, start, end) {
            None => Err(PercentParseError::NotAU8),
            Some(byte) => match Percent::new(byte) {
                Ok(p) => Ok(p),
                Err(e) => Err(PercentParseError::InvalidPercent(e)),
            },
        }
    }
}

/// Where the trailing `%` signs of `t` begin.
fn end_before_percent_signs(t: &str) -> (end: usize)
    ensures
        end <= t@.len(),
        t@.take(end as int) == strip_percent_signs(t@),
{
    let len = t.unicode_len();
    let mut end: usize = len;
    assert(t@.take(len as int) == t@);
    while end > 0 && t.get_char(end - 1) == '%'
        invariant
            end <= len == t@.len(),
            strip_percent_signs(t@.take(end as int)) == strip_percent_signs(t@),
        decreases end,
    {
        assert(t@.take(end as int).drop_last() == t@.take(end - 1));
        end = end - 1;
    }
    assert(end > 0 ==> t@.take(end as int).last() == t@[end - 1]);
    end
}

/// The byte spelled by the decimal digits `d`: one or more, value at most 255.
pub open spec fn digits_u8(d: Seq<char>) -> Option<u8> {
    if d.len() > 0 && (forall|i: int| 0 <= i < d.len() ==> is_digit(#[trigger] d[i]))
        && decimal_value(d) <= 255 {
        Some(decimal_value(d) as u8)
    } else {
        None
    }
}

fn read_digits(t: &str, start: usize, end: usize) -> (r: Option<u8>)
    requires
        start <= end <= t@.len(),
    ensures
        r == digits_u8(t@.subrange(start as int, end as int)),
{
    let ghost d = t@.subrange(start as int, end as int);
    if start == end {
        return None;
    }
    let mut value: u32 = 0;
    let mut i: usize = start;
    while i < end
        invariant
            start <= i <= end <= t@.len(),
            d == t@.subrange(start as int, end as int),
            forall|j: int| 0 <= j < i - start ==> is_digit(#[trigger] d[j]),
            value == decimal_value(d.take(i - start)),
            value <= 255,
        decreases end - i,
    {
        let c = t.get_char(i);
        assert(c == d[i - start]);
        if c < '0' || c > '9' {
            assert(!is_digit(d[i - start]));
            return None;
        }
        assert(d.take(i + 1 - start).drop_last() == d.take(i - start));
        assert(d.take(i + 1 - start).last() == c);
        value = value * 10 + (c as u32 - '0' as u32);
        if value > 255 {
            proof {
                if forall|k: int| 0 <= k < d.len() ==> is_digit(#[trigger] d[k]) {
                    lemma_decimal_prefix(d, i + 1 - start);
                }
            }
            return None;
        }
        i = i + 1;
    }
    assert(d.take(i - start) == d);
    Some(value as u8)
}

impl std::str::FromStr for Percent {
    type Err = PercentParseError;

    fn from_str(s: &str) -> Result<Percent, PercentParseError> {
        Percent::parse(s)
    }
}

} // verus!
