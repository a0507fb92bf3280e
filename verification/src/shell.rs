//! The rules of a command-line invocation: which requests an argument list
//! calls for, and how each HTTP status maps to a message and an exit code.
//!
//! Everything here is pure decision logic; the calling program collects the
//! arguments, performs the requests, prints the messages and exits with the
//! code these functions return.

use crate::numbers::{dec_seq, dec_val, parse_u32, u32_to_dec, valid_key};
use crate::registry::{command_code, lookup_ci, upper_of};
use vstd::prelude::*;
use vstd::string::StringExecFns;

verus! {

/// What one invocation is to do, settled from the argument list alone,
/// before any network traffic.
#[derive(Clone, Copy, PartialEq, Eq, Structural, Debug)]
pub enum Plan {
    /// No television address was given: print the usage text and fail.
    Usage,
    /// Address alone: ask the TV to display its pairing code.
    DisplayCode,
    /// The key argument is not a plain decimal number: fail without any
    /// network call.
    BadKey,
    /// Address and key: pair and stop.
    PairOnly { key: u32 },
    /// Address, key and a catalog command: pair, then send the command.
    PairThenCommand { key: u32, code: u32 },
    /// Address, key and a name outside the catalog: fail without any
    /// network call.
    UnknownCommand { key: u32 },
}

/// Settles what an invocation with the argument list `args` (program name
/// first, as the process receives it) is to do.
///
/// A malformed key or an unknown command name is caught here, before any
/// request is issued.  An invocation with more than three arguments after
/// the program name pairs and ignores the rest.
pub fn plan(args: &Vec<String>) -> (p: Plan)
    ensures
        args@.len() < 2 ==> p == Plan::Usage,
        args@.len() == 2 ==> p == Plan::DisplayCode,
        args@.len() >= 3 && !valid_key(args@[2]@) ==> p == Plan::BadKey,
        args@.len() == 3 && valid_key(args@[2]@) ==> p == (Plan::PairOnly {
            key: dec_val(args@[2]@) as u32,
        }),
        args@.len() >= 5 && valid_key(args@[2]@) ==> p == (Plan::PairOnly {
            key: dec_val(args@[2]@) as u32,
        }),
        args@.len() == 4 && valid_key(args@[2]@) ==> p == (match command_code(
            upper_of(args@[3]@),
        ) {
            Some(code) => Plan::PairThenCommand { key: dec_val(args@[2]@) as u32, code },
            None => Plan::UnknownCommand { key: dec_val(args@[2]@) as u32 },
        }),
{
    if args.len() < 2 {
        return Plan::Usage;
    }
    if args.len() == 2 {
        return Plan::DisplayCode;
    }
    let key_opt = parse_u32(args[2].as_str());
    match key_opt {
        None => Plan::BadKey,
        Some(key) => {
            if args.len() == 4 {
                match lookup_ci(args[3].as_str()) {
                    Some(code) => Plan::PairThenCommand { key, code },
                    None => Plan::UnknownCommand { key },
                }
            } else {
                Plan::PairOnly { key }
            }
        },
    }
}

/// A step's user-visible result: the message to print and the process exit
/// code it calls for.
pub struct Outcome {
    /// The exit code: `0` for success, `1` for any failure.
    pub exit_code: i32,
    /// The message to show the user.
    pub message: String,
}

/// The message after asking for the pairing code to be displayed.
pub open spec fn display_code_message(status: u16) -> Seq<char> {
    if status == 200 {
        "Requested authkey to be displayed."@
    } else {
        "Failed to request auth key. Check IP. Status: "@ + dec_seq(status as nat)
    }
}

/// Judges the status of the display-code request: success exactly on 200.
pub fn display_code_outcome(status: u16) -> (r: Outcome)
    ensures
        r.exit_code == (if status == 200 {
            0i32
        } else {
            1i32
        }),
        r.message@ == display_code_message(status),
{
    if status == 200 {
        Outcome { exit_code: 0, message: String::from_str("Requested authkey to be displayed.") }
    } else {
        let mut m = String::from_str("Failed to request auth key. Check IP. Status: ");
        let num = u32_to_dec(status as u32);
        m.append(num.as_str());
        proof {
            assert(m@ =~= display_code_message(status));
        }
        Outcome { exit_code: 1, message: m }
    }
}

/// The message after a pairing request.
pub open spec fn pair_message(status: u16) -> Seq<char> {
    if status == 200 {
        "Paired with TV."@
    } else {
        "Auth failed check IP/Key. Status "@ + dec_seq(status as nat) + "."@
    }
}

/// Judges the status of a pairing request: success exactly on 200.
pub fn pair_outcome(status: u16) -> (r: Outcome)
    ensures
        r.exit_code == (if status == 200 {
            0i32
        } else {
            1i32
        }),
        r.message@ == pair_message(status),
{
    if status == 200 {
        Outcome { exit_code: 0, message: String::from_str("Paired with TV.") }
    } else {
        let mut m = String::from_str("Auth failed check IP/Key. Status ");
        let num = u32_to_dec(status as u32);
        m.append(num.as_str());
        m.append(".");
        proof {
            assert(m@ =~= pair_message(status));
        }
        Outcome { exit_code: 1, message: m }
    }
}

/// The message after sending a command.
pub open spec fn command_message(status: u16) -> Seq<char> {
    if status == 200 {
        "Command received."@
    } else {
        "TV did not get command. Status: "@ + dec_seq(status as nat)
    }
}

/// Judges the status of a command request: success exactly on 200.
pub fn command_outcome(status: u16) -> (r: Outcome)
    ensures
        r.exit_code == (if status == 200 {
            0i32
        } else {
            1i32
        }),
        r.message@ == command_message(status),
{
    if status == 200 {
        Outcome { exit_code: 0, message: String::from_str("Command received.") }
    } else {
        let mut m = String::from_str("TV did not get command. Status: ");
        let num = u32_to_dec(status as u32);
        m.append(num.as_str());
        proof {
            assert(m@ =~= command_message(status));
        }
        Outcome { exit_code: 1, message: m }
    }
}

/// The notice printed as a command is sent.
pub fn sending_message(code: u32) -> (s: String)
    ensures
        s@ == "Sending command "@ + dec_seq(code as nat),
{
    let mut m = String::from_str("Sending command ");
    let num = u32_to_dec(code);
    m.append(num.as_str());
    m
}

/// The failure reported for a pairing key that is not a decimal number.
/// No request is issued for such an invocation.
pub fn bad_key_outcome() -> (r: Outcome)
    ensures
        r.exit_code == 1i32,
        r.message@ == "Key should be made up of digits."@,
{
    Outcome { exit_code: 1, message: String::from_str("Key should be made up of digits.") }
}

/// The failure reported for a command name outside the catalog.  No request
/// is issued for such an invocation.
pub fn unknown_command_outcome() -> (r: Outcome)
    ensures
        r.exit_code == 1i32,
        r.message@ == "Command not found."@,
{
    Outcome { exit_code: 1, message: String::from_str("Command not found.") }
}

/// The usage text shown, with exit code 1, when no television address was
/// given.
pub fn usage_outcome(program: &str) -> (r: Outcome)
    ensures
        r.exit_code == 1i32,
        r.message@ == "Usage:\n\t"@ + program@
            + " IP [KEY] [COMMAND]\n\nThe IP address must be provided.\nIf only an IP is provided the TV will be asked to display its pairing code.\nWith a key the client pairs; with a command name as well it then sends that command."@,
{
    let mut m = String::from_str("Usage:\n\t");
    m.append(program);
    m.append(
        " IP [KEY] [COMMAND]\n\nThe IP address must be provided.\nIf only an IP is provided the TV will be asked to display its pairing code.\nWith a key the client pairs; with a command name as well it then sends that command.",
    );
    proof {
        assert(m@ =~= "Usage:\n\t"@ + program@
            + " IP [KEY] [COMMAND]\n\nThe IP address must be provided.\nIf only an IP is provided the TV will be asked to display its pairing code.\nWith a key the client pairs; with a command name as well it then sends that command."@);
    }
    Outcome { exit_code: 1, message: m }
}

} // verus!
