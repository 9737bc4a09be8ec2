//! The texts an exchange can fail with, built and pinned down exactly.

use vstd::prelude::*;
use vstd::string::StringExecFns;

verus! {

/// The digit character for a value below ten.
pub open spec fn digit_char(d: nat) -> char {
    if d == 0 {
        '0'
    } else if d == 1 {
        '1'
    } else if d == 2 {
        '2'
    } else if d == 3 {
        '3'
    } else if d == 4 {
        '4'
    } else if d == 5 {
        '5'
    } else if d == 6 {
        '6'
    } else if d == 7 {
        '7'
    } else if d == 8 {
        '8'
    } else {
        '9'
    }
}

/// The decimal representation of a number, most significant digit first,
/// with no leading zeros (zero itself is "0").
pub open spec fn decimal_rep(n: nat) -> Seq<char>
    decreases n,
{
    if n < 10 {
        seq![digit_char(n)]
    } else {
        decimal_rep(n / 10).push(digit_char(n % 10))
    }
}

fn digit_text(d: u16) -> (r: &'static str)
    requires
        d < 10,
    ensures
        r@ == seq![digit_char(d as nat)],
{
    match d {
        0 => {
            proof {
                reveal_strlit("0");
                assert("0"@ =~= seq![digit_char(0)]);
            }
            "0"
        },
        1 => {
            proof {
                reveal_strlit("1");
                assert("1"@ =~= seq![digit_char(1)]);
            }
            "1"
        },
        2 => {
            proof {
                reveal_strlit("2");
                assert("2"@ =~= seq![digit_char(2)]);
            }
            "2"
        },
        3 => {
            proof {
                reveal_strlit("3");
                assert("3"@ =~= seq![digit_char(3)]);
            }
            "3"
        },
        4 => {
            proof {
                reveal_strlit("4");
                assert("4"@ =~= seq![digit_char(4)]);
            }
            "4"
        },
        5 => {
            proof {
                reveal_strlit("5");
                assert("5"@ =~= seq![digit_char(5)]);
            }
            "5"
        },
        6 => {
            proof {
                reveal_strlit("6");
                assert("6"@ =~= seq![digit_char(6)]);
            }
            "6"
        },
        7 => {
            proof {
                reveal_strlit("7");
                assert("7"@ =~= seq![digit_char(7)]);
            }
            "7"
        },
        8 => {
            proof {
                reveal_strlit("8");
                assert("8"@ =~= seq![digit_char(8)]);
            }
            "8"
        },
        _ => {
            proof {
                reveal_strlit("9");
                assert("9"@ =~= seq![digit_char(9)]);
            }
            "9"
        },
    }
}

/// Writes a status code in decimal.
pub fn u16_to_decimal(n: u16) -> (r: String)
    ensures
        r@ == decimal_rep(n as nat),
    decreases n,
{
    if n < 10 {
        String::from_str(digit_text(n))
    } else {
        let mut r = u16_to_decimal(n / 10);
        let low: u16 = n % 10;
        r.append(digit_text(low));
        proof {
            assert(decimal_rep(n as nat) =~= decimal_rep(n as nat / 10) + seq![
                digit_char(n as nat % 10),
            ]);
        }
        r
    }
}

/// The failure text for a response whose status does not denote success.
pub open spec fn failed_status_message(status: u16) -> Seq<char> {
    "failed response status: "@ + decimal_rep(status as nat)
}

/// Builds [`failed_status_message`].
pub fn failed_status_text(status: u16) -> (m: String)
    ensures
        m@ == failed_status_message(status),
{
    let mut m = String::from_str("failed response status: ");
    let digits = u16_to_decimal(status);
    m.append(digits.as_str());
    m
}

/// The failure text for an error while reading the response body.
pub open spec fn read_error_message(detail: Seq<char>) -> Seq<char> {
    "unable to read response body: "@ + detail
}

/// Builds [`read_error_message`].
pub fn read_error_text(detail: &str) -> (m: String)
    ensures
        m@ == read_error_message(detail@),
{
    let mut m = String::from_str("unable to read response body: ");
    m.append(detail);
    m
}

/// The failure text for a connection-level error reported by the driver.
pub open spec fn connection_error_message(detail: Seq<char>) -> Seq<char> {
    "on_error: "@ + detail
}

/// Builds [`connection_error_message`].
pub fn connection_error_text(detail: &str) -> (m: String)
    ensures
        m@ == connection_error_message(detail@),
{
    let mut m = String::from_str("on_error: ");
    m.append(detail);
    m
}

} // verus!
