use vstd::prelude::*;

verus! {

/// The port listened on when the port variable is not set.
pub const DEFAULT_PORT: u16 = 3000;

/// Why the configured port cannot be used.
#[derive(Clone, Copy, Debug, PartialEq, Eq, Structural)]
pub enum PortError {
    /// The text is not a decimal number from 0 to 65535.
    NotAPort,
}

pub open spec fn is_digit(c: char) -> bool {
    '0' <= c && c <= '9'
}

/// The text after an optional leading `+`.
pub open spec fn unsigned_digits(s: Seq<char>) -> Seq<char> {
    if s.len() > 0 && s[0] == '+' {
        s.drop_first()
    } else {
        s
    }
}

/// Every character is a decimal digit, and there is at least one.
pub open spec fn all_digits(d: Seq<char>) -> bool {
    d.len() > 0 && forall|i: int| 0 <= i < d.len() ==> is_digit(#[trigger] d[i])
}

/// The value of a string of decimal digits.
pub open spec fn digits_value(s: Seq<char>) -> int
    decreases s.len(),
{
    if s.len() == 0 {
        0
    } else {
        digits_value(s.drop_last()) * 10 + (s.last() as int - '0' as int)
    }
}

/// The number that `s` writes as an unsigned 16-bit integer: an optional `+`
/// followed by one or more decimal digits whose value fits.
pub open spec fn u16_of(s: Seq<char>) -> Option<u16> {
    let d = unsigned_digits(s);
    if all_digits(d) && digits_value(d) <= 65535 {
        Some(digits_value(d) as u16)
    } else {
        None
    }
}

/// Relies on `str::parse::<u16>`, which reads an optional `+` and then only
/// decimal digits, and fails where the value does not fit in a `u16`.
#[verifier::external_body]
fn parse_u16(s: &str) -> (r: Option<u16>)
    ensures
        r == u16_of(s@),
{
    s.parse::<u16>().ok()
}

/// The port to listen on, from the text of the port variable if it is set.
pub fn listen_port(var: Option<&str>) -> (r: Result<u16, PortError>)
    ensures
        var is None ==> r == Ok::<u16, PortError>(DEFAULT_PORT),
        var matches Some(s) ==> (match u16_of(s@) {
            Some(p) => r == Ok::<u16, PortError>(p),
            None => r == Err::<u16, PortError>(PortError::NotAPort),
        }),
{
    match var {
        None => Ok(DEFAULT_PORT),
        Some(s) => match parse_u16(s) {
            Some(p) => Ok(p),
            None => Err(PortError::NotAPort),
        },
    }
}

} // verus!
