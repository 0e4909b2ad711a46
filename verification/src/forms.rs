//! The connection form: what the user typed for a host, and the host that
//! it stands for.

use crate::config::{Host, HostModel};
use crate::text::chars_of;
use crate::transfer::target::TargetModel;
use vstd::prelude::*;

verus! {

/// Whether `c` is one of the digits `0` to `9`.
pub open spec fn is_digit(c: char) -> bool {
    '0' <= c <= '9'
}

/// The number that the digits spell in base ten.
pub open spec fn digits_value(digits: Seq<char>) -> nat
    decreases digits.len(),
{
    if digits.len() == 0 {
        0
    } else {
        digits_value(digits.drop_last()) * 10 + ((digits.last() as u32 - '0' as u32) as nat)
    }
}

/// The digits of a port number as typed: the text without one leading `+`.
pub open spec fn port_digits(text: Seq<char>) -> Seq<char> {
    if text.len() > 0 && text[0] == '+' {
        text.skip(1)
    } else {
        text
    }
}

/// The port that `text` spells: at least one digit, after at most one `+`,
/// with a value of at most 65535. Anything else spells no port.
pub open spec fn port_of(text: Seq<char>) -> Option<u16> {
    let digits = port_digits(text);
    if digits.len() > 0 && (forall|i: int| 0 <= i < digits.len() ==> is_digit(#[trigger] digits[i]))
        && digits_value(digits) <= 65535 {
        Some(digits_value(digits) as u16)
    } else {
        None
    }
}

/// What is wrong with a connection form.
#[derive(Debug, Clone, Copy, PartialEq, Eq, Structural)]
pub enum FormError {
    /// A field that must be filled is empty.
    MissingField,
    /// The port is not a number from 0 to 65535.
    InvalidPort,
    /// Key authentication is chosen and no key file is named.
    MissingKey,
}

impl FormError {
    /// The message for the user.
    pub open spec fn text(self) -> Seq<char> {
        match self {
            FormError::MissingField => "All fields must be filled"@,
            FormError::InvalidPort => "Port must be a valid number"@,
            FormError::MissingKey => "SSH key file must be selected for key authentication"@,
        }
    }

    /// The message for the user.
    pub fn message(&self) -> (text: &'static str)
        ensures
            text@ == self.text(),
    {
        match self {
            FormError::MissingField => "All fields must be filled",
            FormError::InvalidPort => "Port must be a valid number",
            FormError::MissingKey => "SSH key file must be selected for key authentication",
        }
    }
}

/// The key file that counts: the one that was typed, if key authentication
/// is chosen and the field is not empty.
pub open spec fn key_of(use_key_auth: bool, key_text: Seq<char>) -> Option<Seq<char>> {
    if use_key_auth && key_text.len() > 0 {
        Some(key_text)
    } else {
        None
    }
}

/// The host that a form stands for, or what is wrong with the form. The
/// checks are made in this order: every one of name, host name, user name
/// and port is filled; the port is a number; a key file is named where key
/// authentication is chosen.
pub open spec fn host_of_form(
    name: Seq<char>,
    hostname: Seq<char>,
    username: Seq<char>,
    port_text: Seq<char>,
    use_key_auth: bool,
    key_text: Seq<char>,
) -> Result<HostModel, FormError> {
    if name.len() == 0 || hostname.len() == 0 || username.len() == 0 || port_text.len() == 0 {
        Err(FormError::MissingField)
    } else {
        match port_of(port_text) {
            None => Err(FormError::InvalidPort),
            Some(port) => if use_key_auth && key_text.len() == 0 {
                Err(FormError::MissingKey)
            } else {
                Ok(
                    HostModel {
                        name,
                        target: TargetModel {
                            hostname,
                            username,
                            port,
                            use_key_auth,
                            key_path: key_of(use_key_auth, key_text),
                        },
                    },
                )
            },
        }
    }
}

/// The value of a checked form.
pub open spec fn form_view(result: Result<Host, FormError>) -> Result<HostModel, FormError> {
    match result {
        Ok(host) => Ok(host.deep_view()),
        Err(error) => Err(error),
    }
}

/// Longer digit strings spell larger numbers.
proof fn lemma_digits_value_grows(digits: Seq<char>, k: int)
    requires
        0 <= k <= digits.len(),
    ensures
        digits_value(digits.take(k)) <= digits_value(digits),
    decreases digits.len() - k,
{
    if k == digits.len() {
        assert(digits.take(k) == digits);
    } else {
        lemma_digits_value_grows(digits.drop_last(), k);
        assert(digits.drop_last().take(k) == digits.take(k));
    }
}

/// Reads a port number: at least one digit, after at most one `+`, with a
/// value of at most 65535.
pub fn parse_port(text: &str) -> (port: Option<u16>)
    ensures
        port == port_of(text@),
{
    let t = chars_of(text);
    let start: usize = if t.len() > 0 && t[0] == '+' {
        1
    } else {
        0
    };
    if start == t.len() {
        return None;
    }
    let ghost digits = port_digits(t@);
    let mut value: u32 = 0;
    let mut i: usize = start;
    proof {
        assert(digits.take(0) == Seq::<char>::empty());
        assert(t@.skip(0) == t@);
    }
    while i < t.len()
        invariant
            start <= i <= t.len(),
            start < t.len(),
            t@ == text@,
            digits == port_digits(t@),
            digits == t@.skip(start as int),
            value <= 65535,
            value == digits_value(digits.take(i - start)),
            forall|j: int| 0 <= j < i - start ==> is_digit(#[trigger] digits[j]),
        decreases t.len() - i,
    {
        let c = t[i];
        if !('0' <= c && c <= '9') {
            proof {
                assert(digits[i - start] == c);
            }
            return None;
        }
        let d: u32 = c as u32 - '0' as u32;
        proof {
            let next = digits.take(i - start + 1);
            assert(next.drop_last() == digits.take(i - start));
            assert(next.last() == c);
            assert(digits_value(next) == value * 10 + d);
            lemma_digits_value_grows(digits, i - start + 1);
        }
        if value * 10 + d > 65535 {
            return None;
        }
        value = value * 10 + d;
        i += 1;
    }
    proof {
        assert(digits.take(digits.len() as int) == digits);
    }
    Some(value as u16)
}

/// Checks a connection form and makes the host that it stands for.
pub fn validate_host_form(
    name: &str,
    hostname: &str,
    username: &str,
    port_text: &str,
    use_key_auth: bool,
    key_text: &str,
) -> (result: Result<Host, FormError>)
    ensures
        form_view(result) == host_of_form(
            name@,
            hostname@,
            username@,
            port_text@,
            use_key_auth,
            key_text@,
        ),
{
    if name.is_empty() || hostname.is_empty() || username.is_empty() || port_text.is_empty() {
        return Err(FormError::MissingField);
    }
    let port = match parse_port(port_text) {
        Some(port) => port,
        None => {
            return Err(FormError::InvalidPort);
        },
    };
    if use_key_auth && key_text.is_empty() {
        return Err(FormError::MissingKey);
    }
    let key_path = if use_key_auth && !key_text.is_empty() {
        Some(key_text.to_owned())
    } else {
        None
    };
    Ok(
        Host {
            name: name.to_owned(),
            hostname: hostname.to_owned(),
            username: username.to_owned(),
            port,
            use_key_auth,
            key_path,
        },
    )
}

} // verus!
