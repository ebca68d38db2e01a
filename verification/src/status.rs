//! HTTP status codes as the upstream service reports them.

use vstd::prelude::*;
use vstd::string::*;

verus! {

/// Whether `code` is a three-digit number, as every HTTP status code is.
pub open spec fn is_status_code(code: u16) -> bool {
    100 <= code <= 999
}

/// Whether `code` reports success: the codes from 200 to 299.
pub open spec fn is_success_code(code: u16) -> bool {
    200 <= code <= 299
}

/// The character that stands for the decimal digit `d`.
pub open spec fn digit_char(d: int) -> char {
    "0123456789"@[d]
}

/// The three decimal digits of a status code, the hundreds first.
pub open spec fn code_digits(code: u16) -> Seq<char> {
    seq![digit_char(code as int / 100), digit_char(code as int / 10 % 10), digit_char(code as int % 10)]
}

/// The reason phrase that `http::StatusCode::canonical_reason` gives for the
/// status code `code`, and `None` where it knows none.
pub uninterp spec fn reason_phrase(code: u16) -> Option<Seq<char>>;

/// The words that stand in a status line where no reason phrase is known.
pub open spec fn unknown_reason() -> Seq<char> {
    "<unknown status code>"@
}

/// A status code as text: its three digits, a space, and its reason phrase
/// or, where none is known, the words of [`unknown_reason`].
pub open spec fn status_line(code: u16) -> Seq<char> {
    code_digits(code) + seq![' '] + match reason_phrase(code) {
        Some(reason) => reason,
        None => unknown_reason(),
    }
}

/// An HTTP status code: a number from 100 to 999.
#[derive(Clone, Copy, Debug, PartialEq, Eq)]
pub struct Status {
    code: u16,
}

impl View for Status {
    type V = u16;

    closed spec fn view(&self) -> u16 {
        self.code
    }
}

impl Status {
    #[verifier::type_invariant]
    spec fn in_range(self) -> bool {
        is_status_code(self.code)
    }

    /// The status with the number `code`.
    pub closed spec fn of(code: u16) -> Status {
        Status { code }
    }

    /// A status is known by its number.
    pub broadcast proof fn lemma_known_by_number(self)
        ensures
            #[trigger] Status::of(self@) == self,
    {
    }

    /// The number of the status with the number `code` is `code`.
    pub broadcast proof fn lemma_number_of(code: u16)
        ensures
            (#[trigger] Status::of(code))@ == code,
    {
    }

    /// The status with the number `code`, where `code` has three digits.
    pub fn new(code: u16) -> (r: Option<Status>)
        ensures
            r == if is_status_code(code) {
                Some(Status::of(code))
            } else {
                None
            },
    {
        if 100 <= code && code <= 999 {
            Some(Status { code })
        } else {
            None
        }
    }

    /// The number of this status.
    pub fn code(&self) -> (r: u16)
        ensures
            r == self@,
            is_status_code(r),
    {
        proof {
            use_type_invariant(self);
        }
        self.code
    }

    /// Whether this status reports success.
    pub fn is_success(&self) -> (r: bool)
        ensures
            r == is_success_code(self@),
    {
        200 <= self.code && self.code <= 299
    }

    /// This status as text, as in `500 Internal Server Error`.
    pub fn text(&self) -> (r: String)
        ensures
            r@ == status_line(self@),
    {
        proof {
            use_type_invariant(self);
        }
        let mut line = digit_text(self.code / 100).to_owned();
        line.append(digit_text(self.code / 10 % 10));
        line.append(digit_text(self.code % 10));
        line.append(" ");
        match canonical_reason(self.code) {
            Some(reason) => line.append(reason),
            None => line.append("<unknown status code>"),
        }
        proof {
            reveal_strlit(" ");
            assert(" "@ =~= seq![' ']);
            assert(line@ =~= status_line(self@));
        }
        line
    }
}

/// The decimal digit `d` as text.
fn digit_text(d: u16) -> (r: &'static str)
    requires
        d < 10,
    ensures
        r@ == seq![digit_char(d as int)],
{
    let digits: &'static str = "0123456789";
    proof {
        reveal_strlit("0123456789");
    }
    let r = digits.substring_ascii(d as usize, d as usize + 1);
    assert(r@ =~= seq![digit_char(d as int)]);
    r
}

/// `http::StatusCode::canonical_reason`, of the status code that
/// `http::StatusCode::from_u16` makes of `code`: the reason phrase from the
/// crate's table, or `None` for a code that the table does not hold. The crate
/// is reached through the name under which `reqwest` hands it on. Taken on
/// trust: the phrase depends on `code` alone, so that it is what
/// [`reason_phrase`] names.
#[verifier::external_body]
fn canonical_reason(code: u16) -> (r: Option<&'static str>)
    requires
        is_status_code(code),
    ensures
        match r {
            Some(reason) => reason_phrase(code) == Some(reason@),
            None => reason_phrase(code) is None,
        },
{
    match reqwest::StatusCode::from_u16(code) {
        Ok(status) => status.canonical_reason(),
        Err(_) => None,
    }
}

} // verus!
