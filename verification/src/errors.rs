//! The errors that node construction, configuration and execution can
//! produce, with a verified textual description of each.

use vstd::prelude::*;
use vstd::string::StringExecFns;

verus! {

/// An error raised while building or executing a node.
#[derive(Debug)]
pub enum NodeError {
    /// A single attempt of a node's internal logic failed.
    ExecutionError(String),
    /// A requested retry count exceeded the allowed ceiling.
    InvalidRetryCount(u8, u8),
    /// A requested wait time, in seconds, exceeded the allowed ceiling.
    InvalidWaitTime(u8, u8),
    /// A node name resolved to the empty string.
    EmptyNodeName,
    /// Every attempt of a node's execution failed; `message` carries the
    /// last attempt's failure detail.
    RetryLimitExceeded { attempts: u8, message: String },
}

/// The character that writes the decimal digit `d`.
pub open spec fn digit_char(d: nat) -> char {
    if d == 0 {
        '0'
    } else if d == 1 {
        '1'
    } else if d == 2 {
        '2'
    } else if d == 3 {
        '3'
    } else if d == 4 {
        '4'
    } else if d == 5 {
        '5'
    } else if d == 6 {
        '6'
    } else if d == 7 {
        '7'
    } else if d == 8 {
        '8'
    } else {
        '9'
    }
}

/// The decimal digits of `n`, most significant first, with no leading zeros
/// except for `n == 0` itself.
pub open spec fn decimal_digits(n: nat) -> Seq<char>
    decreases n,
{
    if n < 10 {
        seq![digit_char(n)]
    } else {
        decimal_digits(n / 10).push(digit_char(n % 10))
    }
}

/// The decimal digit `d` as a string slice.
fn digit_str(d: u8) -> (s: &'static str)
    requires
        d < 10,
    ensures
        s@ == seq![digit_char(d as nat)],
{
    if d == 0 {
        proof {
            reveal_strlit("0");
            assert("0"@ =~= seq![digit_char(0)]);
        }
        "0"
    } else if d == 1 {
        proof {
            reveal_strlit("1");
            assert("1"@ =~= seq![digit_char(1)]);
        }
        "1"
    } else if d == 2 {
        proof {
            reveal_strlit("2");
            assert("2"@ =~= seq![digit_char(2)]);
        }
        "2"
    } else if d == 3 {
        proof {
            reveal_strlit("3");
            assert("3"@ =~= seq![digit_char(3)]);
        }
        "3"
    } else if d == 4 {
        proof {
            reveal_strlit("4");
            assert("4"@ =~= seq![digit_char(4)]);
        }
        "4"
    } else if d == 5 {
        proof {
            reveal_strlit("5");
            assert("5"@ =~= seq![digit_char(5)]);
        }
        "5"
    } else if d == 6 {
        proof {
            reveal_strlit("6");
            assert("6"@ =~= seq![digit_char(6)]);
        }
        "6"
    } else if d == 7 {
        proof {
            reveal_strlit("7");
            assert("7"@ =~= seq![digit_char(7)]);
        }
        "7"
    } else if d == 8 {
        proof {
            reveal_strlit("8");
            assert("8"@ =~= seq![digit_char(8)]);
        }
        "8"
    } else {
        proof {
            reveal_strlit("9");
            assert("9"@ =~= seq![digit_char(9)]);
        }
        "9"
    }
}

/// The decimal representation of `n`.
fn u8_decimal(n: u8) -> (s: String)
    ensures
        s@ == decimal_digits(n as nat),
    decreases n,
{
    if n < 10 {
        String::from_str(digit_str(n))
    } else {
        let mut s = u8_decimal(n / 10);
        s.append(digit_str(n % 10));
        proof {
            assert(s@ =~= decimal_digits(n as nat));
        }
        s
    }
}

impl NodeError {
    /// The description of the error, as a sequence of characters.
    pub open spec fn spec_message(&self) -> Seq<char> {
        match self {
            NodeError::ExecutionError(detail) => "Node execution failed: "@ + detail@,
            NodeError::InvalidRetryCount(given, max) => "Invalid retry count: "@ + decimal_digits(
                *given as nat,
            ) + ". Maximum allowed retries is "@ + decimal_digits(*max as nat),
            NodeError::InvalidWaitTime(given, max) => "Invalid wait time: "@ + decimal_digits(
                *given as nat,
            ) + " seconds. Maximum allowed wait time is "@ + decimal_digits(*max as nat)
                + " seconds"@,
            NodeError::EmptyNodeName => "Node name cannot be empty"@,
            NodeError::RetryLimitExceeded { attempts, message } =>
                "Execution retry limit reached after "@ + decimal_digits(*attempts as nat)
                + " attempts: "@ + message@,
        }
    }

    /// The description of the error, exactly as `spec_message` states it.
    pub fn message(&self) -> (s: String)
        ensures
            s@ == self.spec_message(),
    {
        match self {
            NodeError::ExecutionError(detail) => {
                let mut s = String::from_str("Node execution failed: ");
                s.append(detail.as_str());
                s
            },
            NodeError::InvalidRetryCount(given, max) => {
                let mut s = String::from_str("Invalid retry count: ");
                s.append(u8_decimal(*given).as_str());
                s.append(". Maximum allowed retries is ");
                s.append(u8_decimal(*max).as_str());
                s
            },
            NodeError::InvalidWaitTime(given, max) => {
                let mut s = String::from_str("Invalid wait time: ");
                s.append(u8_decimal(*given).as_str());
                s.append(" seconds. Maximum allowed wait time is ");
                s.append(u8_decimal(*max).as_str());
                s.append(" seconds");
                s
            },
            NodeError::EmptyNodeName => String::from_str("Node name cannot be empty"),
            NodeError::RetryLimitExceeded { attempts, message } => {
                let mut s = String::from_str("Execution retry limit reached after ");
                s.append(u8_decimal(*attempts).as_str());
                s.append(" attempts: ");
                s.append(message.as_str());
                s
            },
        }
    }
}

} // verus!
