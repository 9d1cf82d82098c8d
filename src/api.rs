//! What the dial control server reports, and the kinds of failure its
//! client distinguishes.
use vstd::prelude::*;
use crate::dial::{Backlight, Id, Percent};

verus! {

/// The status field of a control server response.
#[derive(Copy, Clone, Debug, PartialEq, Eq, Hash, Structural)]
pub enum Status {
    /// The request succeeded (`ok` on the wire).
    Success,
    /// The request failed (`fail` on the wire).
    Fail,
}

/// Text that is neither `ok` nor `fail`.
#[derive(Copy, Clone, Debug, PartialEq, Eq)]
pub struct InvalidStatus;

/// A dial as the server lists it.
#[derive(Clone, Debug, PartialEq, Eq)]
pub struct DialInfo {
    pub uid: Id,
    pub dial_name: String,
    pub value: Percent,
    pub backlight: Backlight,
    pub image_file: String,
}

/// The kind of a failed call to the control server.
#[derive(Copy, Clone, Debug, PartialEq, Eq, Hash, Structural)]
pub enum ErrorKind {
    /// The HTTP request could not be built.
    BuildRequest,
    /// The request URL could not be built.
    BuildUrl,
    /// The request could not be sent or its answer not received.
    Request,
    /// The server's answer was not the JSON expected.
    DecodeJson,
    /// The server answered with an HTTP error status.
    ServerHttp,
    /// The server answered with status `fail`.
    Server,
}

pub open spec fn is_ascii_space(c: char) -> bool {
    c == ' ' || c == '\t' || c == '\n' || c == '\r' || c == '\x0c'
}

/// The code of `c` with ASCII upper case letters taken to lower case.
pub open spec fn lower_code(c: char) -> u32 {
    if 65 <= (c as u32) <= 90 {
        (c as u32 + 32) as u32
    } else {
        c as u32
    }
}

/// What `str::trim` leaves of `s`.
pub uninterp spec fn trimmed(s: Seq<char>) -> Seq<char>;

/// Relies on `str::trim`: the result depends on the text alone.
#[verifier::external_body]
pub(crate) fn trim(s: &str) -> (r: &str)
    ensures
        r@ == trimmed(s@),
{
    s.trim()
}

/// `s` equals `word` (given in lower case) when ASCII case is ignored.
pub open spec fn eq_ignore_case(s: Seq<char>, word: Seq<char>) -> bool {
    s.len() == word.len() && forall|i: int| 0 <= i < s.len() ==> lower_code(#[trigger] s[i]) == word[i] as u32
}

impl Status {
    /// Reads `ok` or `fail`, in any ASCII case, around any surrounding
    /// whitespace.
    pub fn parse(s: &str) -> (r: Result<Status, InvalidStatus>)
        ensures
            r == Status::from_word(trimmed(s@)),
    {
        Status::parse_word(trim(s))
    }

    pub open spec fn from_word(s: Seq<char>) -> Result<Status, InvalidStatus> {
        if eq_ignore_case(s, "ok"@) {
            Ok(Status::Success)
        } else if eq_ignore_case(s, "fail"@) {
            Ok(Status::Fail)
        } else {
            Err(InvalidStatus)
        }
    }

    /// Reads `ok` or `fail`, in any ASCII case, from already trimmed text.
    pub fn parse_word(s: &str) -> (r: Result<Status, InvalidStatus>)
        ensures
            r == Status::from_word(s@),
    {
        proof {
            reveal_strlit("ok");
            reveal_strlit("fail");
        }
        if matches_word(s, "ok") {
            Ok(Status::Success)
        } else if matches_word(s, "fail") {
            Ok(Status::Fail)
        } else {
            Err(InvalidStatus)
        }
    }
}

fn matches_word(s: &str, word: &str) -> (r: bool)
    ensures
        r == eq_ignore_case(s@, word@),
{
    let n = s.unicode_len();
    if n != word.unicode_len() {
        return false;
    }
    let mut i: usize = 0;
    while i < n
        invariant
            n == s@.len() == word@.len(),
            i <= n,
            forall|j: int| 0 <= j < i ==> lower_code(#[trigger] s@[j]) == word@[j] as u32,
        decreases n - i,
    {
        let code = s.get_char(i) as u32;
        let lower: u32 = if 65 <= code && code <= 90 {
            code + 32
        } else {
            code
        };
        if lower != word.get_char(i) as u32 {
            return false;
        }
        i = i + 1;
    }
    true
}

impl std::str::FromStr for Status {
    type Err = InvalidStatus;

    fn from_str(s: &str) -> Result<Status, InvalidStatus> {
        Status::parse(s)
    }
}

} // verus!
