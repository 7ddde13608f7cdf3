//! The ways in which a run can fail, and the text that reports a failure.

use vstd::prelude::*;
use vstd::string::*;

verus! {

/// The page could not be fetched.
#[derive(Clone, Debug, PartialEq, Eq)]
pub enum FetchError {
    /// The origin answered with a status other than 200.
    Status(u16),
    /// The request itself failed: a network failure or a malformed URL.
    Request(String),
}

/// A read or a write against the state store failed.
#[derive(Clone, Debug, PartialEq, Eq)]
pub struct StoreError {
    pub reason: String,
}

/// The push notification could not be delivered.
#[derive(Clone, Debug, PartialEq, Eq)]
pub struct NotifyError {
    pub reason: String,
}

/// Why a run failed. Every one of these ends the run; none is retried.
#[derive(Clone, Debug, PartialEq, Eq)]
pub enum RunError {
    Fetch(FetchError),
    Store(StoreError),
    Notify(NotifyError),
}

/// The mathematical content of a [`RunError`].
pub enum Failure {
    FetchStatus(u16),
    FetchRequest(Seq<char>),
    Store(Seq<char>),
    Notify(Seq<char>),
}

impl View for RunError {
    type V = Failure;

    open spec fn view(&self) -> Failure {
        match self {
            RunError::Fetch(FetchError::Status(code)) => Failure::FetchStatus(*code),
            RunError::Fetch(FetchError::Request(reason)) => Failure::FetchRequest(reason@),
            RunError::Store(error) => Failure::Store(error.reason@),
            RunError::Notify(error) => Failure::Notify(error.reason@),
        }
    }
}

/// The character for a decimal digit.
pub open spec fn digit_char(digit: nat) -> char {
    ((48 + digit) as u8) as char
}

/// A number in decimal notation, without leading zeros.
pub open spec fn decimal(n: nat) -> Seq<char>
    decreases n,
{
    if n < 10 {
        seq![digit_char(n)]
    } else {
        decimal(n / 10).push(digit_char(n % 10))
    }
}

/// What went wrong, in words.
pub open spec fn description(failure: Failure) -> Seq<char> {
    match failure {
        Failure::FetchStatus(code) => "HTTP "@ + decimal(code as nat) + " from UCD page"@,
        Failure::FetchRequest(reason) => reason,
        Failure::Store(reason) => reason,
        Failure::Notify(reason) => reason,
    }
}

/// The text of the notification that reports a failed run.
pub open spec fn failure_text(failure: Failure) -> Seq<char> {
    "JLPT checker error: "@ + description(failure)
}

/// One decimal digit as text.
fn digit_text(digit: u16) -> (out: &'static str)
    requires
        digit < 10,
    ensures
        out@ == seq![digit_char(digit as nat)],
{
    proof {
        reveal_strlit("0");
        reveal_strlit("1");
        reveal_strlit("2");
        reveal_strlit("3");
        reveal_strlit("4");
        reveal_strlit("5");
        reveal_strlit("6");
        reveal_strlit("7");
        reveal_strlit("8");
        reveal_strlit("9");
    }
    let out = if digit == 0 {
        "0"
    } else if digit == 1 {
        "1"
    } else if digit == 2 {
        "2"
    } else if digit == 3 {
        "3"
    } else if digit == 4 {
        "4"
    } else if digit == 5 {
        "5"
    } else if digit == 6 {
        "6"
    } else if digit == 7 {
        "7"
    } else if digit == 8 {
        "8"
    } else {
        "9"
    };
    assert(out@ =~= seq![digit_char(digit as nat)]);
    out
}

/// A status code in decimal notation.
pub fn decimal_text(n: u16) -> (out: String)
    ensures
        out@ == decimal(n as nat),
    decreases n,
{
    if n < 10 {
        String::from_str(digit_text(n))
    } else {
        let mut out = decimal_text(n / 10);
        out.append(digit_text(n % 10));
        assert(out@ =~= decimal(n as nat));
        out
    }
}

impl RunError {
    /// What went wrong, in words.
    pub fn describe(&self) -> (out: String)
        ensures
            out@ == description(self@),
    {
        match self {
            RunError::Fetch(FetchError::Status(code)) => {
                let mut out = String::from_str("HTTP ");
                let number = decimal_text(*code);
                out.append(number.as_str());
                out.append(" from UCD page");
                out
            },
            RunError::Fetch(FetchError::Request(reason)) => reason.clone(),
            RunError::Store(error) => error.reason.clone(),
            RunError::Notify(error) => error.reason.clone(),
        }
    }

    /// The text of the notification that reports this failure.
    pub fn failure_message(&self) -> (out: String)
        ensures
            out@ == failure_text(self@),
    {
        let mut out = String::from_str("JLPT checker error: ");
        let what = self.describe();
        out.append(what.as_str());
        out
    }
}

} // verus!
