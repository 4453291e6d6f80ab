//! The display connection's error slot and its error types.
//!
//! The native error interceptor records each failure of a call made through
//! the connection into a single slot; callers poll the slot right after a
//! call that may fail. Only the latest error since the previous poll is kept.

use vstd::prelude::*;
use vstd::string::StringExecFns;

use x11_dl::error::OpenError;

verus! {

#[verifier::external_type_specification]
#[verifier::external_body]
pub struct ExOpenError(OpenError);

/// Relies on the derived `Clone` of x11-dl's `OpenError`: a field-by-field
/// copy of its kind and detail text.
pub assume_specification[ <OpenError as Clone>::clone ](e: &OpenError) -> (r: OpenError)
    ensures
        r == *e,
;

/// Error raised by the display server for a request.
#[derive(Debug, Clone)]
pub struct XError {
    pub description: String,
    pub error_code: u8,
    pub request_code: u8,
    pub minor_code: u8,
}

/// The decimal digit `d`.
pub open spec fn digit_char(d: nat) -> char {
    if d < 10 {
        ((d + 48) as u8) as char
    } else {
        '?'
    }
}

/// The decimal notation of `n`, without leading zeros.
pub open spec fn decimal(n: nat) -> Seq<char>
    decreases n,
{
    if n < 10 {
        seq![digit_char(n)]
    } else {
        decimal(n / 10).push(digit_char(n % 10))
    }
}

/// The text that describes an error of the display server.
pub open spec fn error_text(e: XError) -> Seq<char> {
    "X error: "@ + e.description@ + " (code: "@ + decimal(e.error_code as nat) + ", request code: "@
        + decimal(e.request_code as nat) + ", minor code: "@ + decimal(e.minor_code as nat) + ")"@
}

/// The one-character string of the decimal digit `d`.
fn digit_str(d: u8) -> (r: &'static str)
    requires
        d < 10,
    ensures
        r@ == seq![digit_char(d as nat)],
{
    proof {
        reveal_strlit("0");
        reveal_strlit("1");
        reveal_strlit("2");
        reveal_strlit("3");
        reveal_strlit("4");
        reveal_strlit("5");
        reveal_strlit("6");
        reveal_strlit("7");
        reveal_strlit("8");
        reveal_strlit("9");
    }
    match d {
        0 => "0",
        1 => "1",
        2 => "2",
        3 => "3",
        4 => "4",
        5 => "5",
        6 => "6",
        7 => "7",
        8 => "8",
        _ => "9",
    }
}

/// Appends the decimal notation of `n` to `s`.
fn push_decimal(s: &mut String, n: u8)
    ensures
        final(s)@ == old(s)@ + decimal(n as nat),
{
    if n >= 100 {
        s.append(digit_str(n / 100));
        s.append(digit_str((n / 10) % 10));
        s.append(digit_str(n % 10));
        assert(decimal(n as nat / 100) == seq![digit_char(n as nat / 100)]);
        assert(decimal(n as nat / 10) =~= seq![digit_char(n as nat / 100), digit_char((n as nat / 10) % 10)]);
    } else if n >= 10 {
        s.append(digit_str(n / 10));
        s.append(digit_str(n % 10));
        assert(decimal(n as nat / 10) == seq![digit_char(n as nat / 10)]);
    } else {
        s.append(digit_str(n));
    }
    assert(final(s)@ =~= old(s)@ + decimal(n as nat));
}

impl XError {
    /// The text that describes this error, with its three codes in decimal.
    pub fn message(&self) -> (r: String)
        ensures
            r@ == error_text(*self),
    {
        proof {
            reveal_strlit("X error: ");
            reveal_strlit(" (code: ");
            reveal_strlit(", request code: ");
            reveal_strlit(", minor code: ");
            reveal_strlit(")");
        }
        let mut s = String::from_str("X error: ");
        s.append(self.description.as_str());
        s.append(" (code: ");
        push_decimal(&mut s, self.error_code);
        s.append(", request code: ");
        push_decimal(&mut s, self.request_code);
        s.append(", minor code: ");
        push_decimal(&mut s, self.minor_code);
        s.append(")");
        s
    }
}

/// Why no connection to the display server could be had.
#[derive(Clone, Debug)]
pub enum XNotSupported {
    /// Failed to load one or several shared libraries.
    LibraryOpenError(OpenError),
    /// Connecting to the display server failed.
    XOpenDisplayFailed,
}

impl XNotSupported {
    /// A short description of the failure.
    pub fn description(&self) -> (r: &'static str)
        ensures
            self is LibraryOpenError ==> r@ == "Failed to load one of xlib's shared libraries"@,
            self is XOpenDisplayFailed ==> r@ == "Failed to open connection to X server"@,
    {
        proof {
            reveal_strlit("Failed to load one of xlib's shared libraries");
            reveal_strlit("Failed to open connection to X server");
        }
        match self {
            XNotSupported::LibraryOpenError(_) => "Failed to load one of xlib's shared libraries",
            XNotSupported::XOpenDisplayFailed => "Failed to open connection to X server",
        }
    }
}

impl From<OpenError> for XNotSupported {
    fn from(err: OpenError) -> (r: XNotSupported) {
        XNotSupported::LibraryOpenError(err)
    }
}

impl vstd::std_specs::convert::FromSpecImpl<OpenError> for XNotSupported {
    open spec fn obeys_from_spec() -> bool {
        true
    }

    open spec fn from_spec(err: OpenError) -> XNotSupported {
        XNotSupported::LibraryOpenError(err)
    }
}

/// The result of polling a slot that holds `latest`.
pub open spec fn poll_result(latest: Option<XError>) -> Result<(), XError> {
    match latest {
        Some(e) => Err(e),
        None => Ok(()),
    }
}

/// The state that a connection to the display server keeps: its socket and
/// the slot of the latest error.
pub struct XConnection {
    /// File descriptor of the connection's socket.
    pub x11_fd: i32,
    /// The latest error recorded since the previous poll.
    pub latest_error: Option<XError>,
}

impl XConnection {
    /// The state of a connection just opened on the socket `x11_fd`.
    pub fn new(x11_fd: i32) -> (r: XConnection)
        ensures
            r.x11_fd == x11_fd,
            r.latest_error is None,
    {
        XConnection { x11_fd, latest_error: None }
    }

    /// Records an error that the display server raised: it replaces any
    /// error not yet polled.
    pub fn record_error(&mut self, error: XError)
        ensures
            final(self).latest_error == Some(error),
            final(self).x11_fd == old(self).x11_fd,
    {
        self.latest_error = Some(error);
    }

    /// Takes the error recorded since the previous poll, if any, and clears
    /// the slot.
    pub fn check_errors(&mut self) -> (r: Result<(), XError>)
        ensures
            r == poll_result(old(self).latest_error),
            final(self).latest_error is None,
            final(self).x11_fd == old(self).x11_fd,
    {
        match self.latest_error.take() {
            Some(error) => Err(error),
            None => Ok(()),
        }
    }

    /// Drops the error recorded since the previous poll, if any.
    pub fn ignore_error(&mut self)
        ensures
            final(self).latest_error is None,
            final(self).x11_fd == old(self).x11_fd,
    {
        self.latest_error = None;
    }
}

/// Polling right after an error was recorded gives that error; polling again
/// before anything else is recorded gives none.
pub proof fn lemma_poll_clears(e: XError)
    ensures
        poll_result(Some(e)) == Err::<(), XError>(e),
        poll_result(None) == Ok::<(), XError>(()),
{
}

} // verus!
