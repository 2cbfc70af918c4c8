//! Control-channel command lines, turned into session events.
use vstd::prelude::*;
use vstd::string::StringSliceAdditionalSpecFns;
use vstd::utf8::is_char_boundary;
use crate::session::SessionEvent;
use crate::transfers::Direction;

verus! {

/// ASCII upper case of a byte; other bytes are unchanged.
pub open spec fn upper(c: u8) -> u8 {
    if 97 <= c <= 122 { (c - 32) as u8 } else { c }
}

/// The line starts with the four-letter verb `v`, in any letter case.
pub open spec fn verb_is(b: Seq<u8>, v: Seq<u8>) -> bool {
    b.len() >= 4 && v.len() == 4 && forall|i: int| 0 <= i < 4 ==> upper(#[trigger] b[i]) == v[i]
}

/// The line is a verb, one space, and a non-empty argument.
pub open spec fn has_arg(b: Seq<u8>) -> bool {
    b.len() > 5 && b[4] == 32 && is_char_boundary(b, 5)
}

/// The argument of a line with `has_arg`.
pub open spec fn arg_of(b: Seq<u8>) -> Seq<u8> {
    b.subrange(5, b.len() as int)
}

/// Classes of command lines.
pub enum CommandKind {
    User,
    Pass,
    AuthTls,
    Store,
    Retrieve,
    Abort,
    Quit,
    Unknown,
}

/// The class of the command line with bytes `b`.
pub open spec fn kind_of(b: Seq<u8>) -> CommandKind {
    if verb_is(b, seq![85u8, 83, 69, 82]) && has_arg(b) {
        CommandKind::User
    } else if verb_is(b, seq![80u8, 65, 83, 83]) && has_arg(b) {
        CommandKind::Pass
    } else if verb_is(b, seq![65u8, 85, 84, 72]) && has_arg(b) && b.len() == 8 && upper(b[5]) == 84
        && upper(b[6]) == 76 && upper(b[7]) == 83 {
        CommandKind::AuthTls
    } else if verb_is(b, seq![83u8, 84, 79, 82]) && has_arg(b) {
        CommandKind::Store
    } else if verb_is(b, seq![82u8, 69, 84, 82]) && has_arg(b) {
        CommandKind::Retrieve
    } else if verb_is(b, seq![65u8, 66, 79, 82]) && b.len() == 4 {
        CommandKind::Abort
    } else if verb_is(b, seq![81u8, 85, 73, 84]) && b.len() == 4 {
        CommandKind::Quit
    } else {
        CommandKind::Unknown
    }
}

fn upper_byte(c: u8) -> (r: u8)
    ensures
        r == upper(c),
{
    if 97 <= c && c <= 122 { c - 32 } else { c }
}

fn starts_with_verb(b: &[u8], v0: u8, v1: u8, v2: u8, v3: u8) -> (r: bool)
    ensures
        r == verb_is(b@, seq![v0, v1, v2, v3]),
{
    let r = b.len() >= 4 && upper_byte(b[0]) == v0 && upper_byte(b[1]) == v1 && upper_byte(b[2]) == v2
        && upper_byte(b[3]) == v3;
    proof {
        let v = seq![v0, v1, v2, v3];
        if r {
            assert forall|i: int| 0 <= i < 4 implies upper(#[trigger] b@[i]) == v[i] by {
                if i == 0 {} else if i == 1 {} else if i == 2 {} else {}
            }
        } else if b@.len() >= 4 {
            if upper(b@[0]) != v[0] {} else if upper(b@[1]) != v[1] {} else if upper(b@[2]) != v[2] {} else {
                assert(upper(b@[3]) != v[3]);
            }
        }
    }
    r
}

/// Reads one command line, without its line ending, into a session event.
/// `USER`, `PASS`, `STOR` and `RETR` take the rest of the line after one
/// space as their argument; `AUTH TLS` asks for TLS; `ABOR` and `QUIT` stand
/// alone. Verbs are matched in any letter case; anything else is
/// `Malformed`. A transfer is stamped with `now`; its size is not known
/// from the command line.
pub fn parse_command(line: &str, now: u64) -> (r: SessionEvent)
    ensures
        ({
            let b = line.spec_bytes();
            match kind_of(b) {
                CommandKind::User => r matches SessionEvent::User(u) && vstd::utf8::encode_utf8(u@) == arg_of(b),
                CommandKind::Pass => r matches SessionEvent::Pass(p) && vstd::utf8::encode_utf8(p@) == arg_of(b),
                CommandKind::AuthTls => r is RequestTls,
                CommandKind::Store => r matches SessionEvent::Transfer { direction, path, declared_bytes, started_at }
                    && direction == Direction::Upload && declared_bytes is None && vstd::utf8::encode_utf8(path@) == arg_of(b) && started_at == now,
                CommandKind::Retrieve => r matches SessionEvent::Transfer { direction, path, declared_bytes, started_at }
                    && direction == Direction::Download && declared_bytes is None && vstd::utf8::encode_utf8(path@) == arg_of(b) && started_at == now,
                CommandKind::Abort => r is Cancel,
                CommandKind::Quit => r is Quit,
                CommandKind::Unknown => r is Malformed,
            }
        }),
{
    let b = line.as_bytes();
    let n = b.len();
    let with_arg = n > 5 && b[4] == 32 && line.is_char_boundary(5);
    if with_arg {
        let (_, rest) = line.split_at(5);
        let a = rest.to_owned();
        proof {
            assert(vstd::utf8::encode_utf8(a@) == rest.spec_bytes());
            assert(rest.spec_bytes() =~= arg_of(b@));
        }
        if starts_with_verb(b, 85, 83, 69, 82) {
            return SessionEvent::User(a);
        } else if starts_with_verb(b, 80, 65, 83, 83) {
            return SessionEvent::Pass(a);
        } else if starts_with_verb(b, 65, 85, 84, 72) {
            if n == 8 && upper_byte(b[5]) == 84 && upper_byte(b[6]) == 76 && upper_byte(b[7]) == 83 {
                return SessionEvent::RequestTls;
            }
        } else if starts_with_verb(b, 83, 84, 79, 82) {
            return SessionEvent::Transfer { direction: Direction::Upload, path: a, declared_bytes: None, started_at: now };
        } else if starts_with_verb(b, 82, 69, 84, 82) {
            return SessionEvent::Transfer { direction: Direction::Download, path: a, declared_bytes: None, started_at: now };
        }
        SessionEvent::Malformed
    } else if n == 4 && starts_with_verb(b, 65, 66, 79, 82) {
        SessionEvent::Cancel
    } else if n == 4 && starts_with_verb(b, 81, 85, 73, 84) {
        SessionEvent::Quit
    } else {
        SessionEvent::Malformed
    }
}

} // verus!
