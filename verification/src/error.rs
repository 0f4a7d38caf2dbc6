//! The failures of the flow client, and how each is surfaced.

use vstd::prelude::*;
use vstd::string::*;

verus! {

/// Why an operation of the flow client failed.
#[derive(Debug, PartialEq)]
pub enum AuthError {
    /// The provider could not be reached; the text is the transport's message.
    NetworkFailure(String),
    /// The provider answered, but refused: its status and the body it sent,
    /// or the message of the parse error where a body could not be read.
    ProtocolFailure(u16, String),
    /// An input was refused before anything was sent: the field and the reason.
    ValidationFailure(String, String),
    /// The session is invalid, absent or inactive, or a session is already active.
    Unauthorized,
    /// The provider's answer lacked the named field.
    MissingField(String),
}

/// The name under which the flow protocol speaks of its failures.
pub type FlowError = AuthError;

/// The model of an [`AuthError`].
pub enum Failure {
    NetworkFailure(Seq<char>),
    ProtocolFailure(u16, Seq<char>),
    ValidationFailure(Seq<char>, Seq<char>),
    Unauthorized,
    MissingField(Seq<char>),
}

impl View for AuthError {
    type V = Failure;

    open spec fn view(&self) -> Failure {
        match self {
            AuthError::NetworkFailure(m) => Failure::NetworkFailure(m@),
            AuthError::ProtocolFailure(status, body) => Failure::ProtocolFailure(*status, body@),
            AuthError::ValidationFailure(field, reason) => Failure::ValidationFailure(
                field@,
                reason@,
            ),
            AuthError::Unauthorized => Failure::Unauthorized,
            AuthError::MissingField(name) => Failure::MissingField(name@),
        }
    }
}

/// The character that writes the digit `d`.
pub open spec fn digit(d: int) -> char {
    if d == 0 {
        '0'
    } else if d == 1 {
        '1'
    } else if d == 2 {
        '2'
    } else if d == 3 {
        '3'
    } else if d == 4 {
        '4'
    } else if d == 5 {
        '5'
    } else if d == 6 {
        '6'
    } else if d == 7 {
        '7'
    } else if d == 8 {
        '8'
    } else {
        '9'
    }
}

/// The decimal digits of `n`, without leading zeros.
pub open spec fn decimal(n: nat) -> Seq<char>
    decreases n,
{
    if n < 10 {
        seq![digit(n as int)]
    } else {
        decimal(n / 10).push(digit((n % 10) as int))
    }
}

impl Failure {
    /// The text under which the failure is reported.
    pub open spec fn message(self) -> Seq<char> {
        match self {
            Failure::NetworkFailure(m) => "Network error: "@ + m,
            Failure::ProtocolFailure(status, body) => "Kratos error: "@ + decimal(status as nat)
                + " - "@ + body,
            Failure::ValidationFailure(_, reason) => "Validation error: "@ + reason,
            Failure::Unauthorized => "Unauthorized"@,
            Failure::MissingField(name) => "Serialization error: missing field `"@ + name + "`"@,
        }
    }

    /// The HTTP status under which the failure is surfaced: 502 where the
    /// provider could not be reached or sent an answer that lacks a field,
    /// the provider's own status where it is an error status and 400
    /// otherwise, 400 for a refused input, 401 for a missing session.
    pub open spec fn http_status(self) -> u16 {
        match self {
            Failure::NetworkFailure(_) => 502,
            Failure::ProtocolFailure(status, _) => if 400 <= status <= 599 {
                status
            } else {
                400
            },
            Failure::ValidationFailure(_, _) => 400,
            Failure::Unauthorized => 401,
            Failure::MissingField(_) => 502,
        }
    }
}

/// The text that writes one digit.
fn digit_text(d: u16) -> (text: &'static str)
    requires
        d < 10,
    ensures
        text@ == seq![digit(d as int)],
{
    proof {
        reveal_strlit("0");
        reveal_strlit("1");
        reveal_strlit("2");
        reveal_strlit("3");
        reveal_strlit("4");
        reveal_strlit("5");
        reveal_strlit("6");
        reveal_strlit("7");
        reveal_strlit("8");
        reveal_strlit("9");
    }
    let text = if d == 0 {
        "0"
    } else if d == 1 {
        "1"
    } else if d == 2 {
        "2"
    } else if d == 3 {
        "3"
    } else if d == 4 {
        "4"
    } else if d == 5 {
        "5"
    } else if d == 6 {
        "6"
    } else if d == 7 {
        "7"
    } else if d == 8 {
        "8"
    } else {
        "9"
    };
    assert(text@ =~= seq![digit(d as int)]);
    text
}

/// The decimal digits of `n`, without leading zeros.
pub fn decimal_text(n: u16) -> (text: String)
    ensures
        text@ == decimal(n as nat),
    decreases n,
{
    if n < 10 {
        digit_text(n).to_owned()
    } else {
        let mut text = decimal_text(n / 10);
        text.append(digit_text(n % 10));
        assert(text@ =~= decimal((n / 10) as nat).push(digit((n % 10) as int)));
        text
    }
}

impl AuthError {
    /// A failure for a missing field.
    pub fn missing(name: &str) -> (e: AuthError)
        ensures
            e@ == Failure::MissingField(name@),
    {
        AuthError::MissingField(name.to_owned())
    }

    /// A failure for a refused input.
    pub fn invalid(field: &str, reason: &str) -> (e: AuthError)
        ensures
            e@ == Failure::ValidationFailure(field@, reason@),
    {
        AuthError::ValidationFailure(field.to_owned(), reason.to_owned())
    }

    /// The text under which the failure is reported.
    pub fn message(&self) -> (text: String)
        ensures
            text@ == self@.message(),
    {
        match self {
            AuthError::NetworkFailure(m) => {
                let mut text = "Network error: ".to_owned();
                text.append(m.as_str());
                text
            },
            AuthError::ProtocolFailure(status, body) => {
                let mut text = "Kratos error: ".to_owned();
                text.append(decimal_text(*status).as_str());
                text.append(" - ");
                text.append(body.as_str());
                text
            },
            AuthError::ValidationFailure(_, reason) => {
                let mut text = "Validation error: ".to_owned();
                text.append(reason.as_str());
                text
            },
            AuthError::Unauthorized => "Unauthorized".to_owned(),
            AuthError::MissingField(name) => {
                let mut text = "Serialization error: missing field `".to_owned();
                text.append(name.as_str());
                text.append("`");
                text
            },
        }
    }

    /// The HTTP status under which the failure is surfaced.
    pub fn http_status(&self) -> (status: u16)
        ensures
            status == self@.http_status(),
    {
        match self {
            AuthError::NetworkFailure(_) => 502,
            AuthError::ProtocolFailure(status, _) => if 400 <= *status && *status <= 599 {
                *status
            } else {
                400
            },
            AuthError::ValidationFailure(_, _) => 400,
            AuthError::Unauthorized => 401,
            AuthError::MissingField(_) => 502,
        }
    }

    /// A copy of this failure.
    pub fn duplicate(&self) -> (e: AuthError)
        ensures
            e@ == self@,
    {
        match self {
            AuthError::NetworkFailure(m) => AuthError::NetworkFailure(m.clone()),
            AuthError::ProtocolFailure(status, body) => AuthError::ProtocolFailure(
                *status,
                body.clone(),
            ),
            AuthError::ValidationFailure(field, reason) => AuthError::ValidationFailure(
                field.clone(),
                reason.clone(),
            ),
            AuthError::Unauthorized => AuthError::Unauthorized,
            AuthError::MissingField(name) => AuthError::MissingField(name.clone()),
        }
    }
}

/// Every failure is surfaced as a client or server error status, and a
/// refused input or a missing session never as a server error.
pub proof fn lemma_status_is_an_error(f: Failure)
    ensures
        400 <= f.http_status() <= 599,
        f is ValidationFailure ==> f.http_status() == 400,
        f is Unauthorized ==> f.http_status() == 401,
        f is NetworkFailure ==> f.http_status() >= 500,
{
}

} // verus!
