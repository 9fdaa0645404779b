//! APDU commands and responses.
//!
//! An APDU response is a byte sequence whose final two bytes are the status
//! word; everything before it is payload. `90 00` is the only success
//! status word. The fixed commands of the bridge are the generic UID read
//! and the three FeliCa transparent-session commands.

use vstd::prelude::*;

use crate::failure::Failure;

verus! {

/// The generic "read UID" command.
pub open spec fn uid_command() -> Seq<u8> {
    seq![0xffu8, 0xcau8, 0x00u8, 0x00u8, 0x00u8]
}

/// The command that opens a transparent session for the FeliCa probe.
pub open spec fn start_session_command() -> Seq<u8> {
    seq![0xffu8, 0xc2u8, 0x00u8, 0x00u8, 0x02u8, 0x81u8, 0x00u8, 0x00u8]
}

/// The command that closes the transparent session again.
pub open spec fn end_session_command() -> Seq<u8> {
    seq![0xffu8, 0xc2u8, 0x00u8, 0x00u8, 0x02u8, 0x82u8, 0x00u8, 0x00u8]
}

/// The FeliCa polling command sent inside the transparent session.
pub open spec fn felica_poll_command() -> Seq<u8> {
    seq![0xffu8, 0xc2u8, 0x00u8, 0x02u8, 0x04u8, 0x8fu8, 0x02u8, 0x03u8, 0x01u8, 0x00u8]
}

/// The response carries at least a status word and it is `90 00`.
pub open spec fn status_ok(r: Seq<u8>) -> bool {
    r.len() >= 2 && r[r.len() - 2] == 0x90u8 && r[r.len() - 1] == 0x00u8
}

/// The bytes of a response before its two-byte status word.
pub open spec fn payload(r: Seq<u8>) -> Seq<u8>
    recommends
        r.len() >= 2,
{
    r.subrange(0, r.len() - 2)
}

/// Builds the generic "read UID" command.
pub fn make_uid_command() -> (c: Vec<u8>)
    ensures
        c@ == uid_command(),
{
    let mut c: Vec<u8> = Vec::new();
    c.push(0xff);
    c.push(0xca);
    c.push(0x00);
    c.push(0x00);
    c.push(0x00);
    proof {
        assert(c@ =~= uid_command());
    }
    c
}

/// Builds the "start transparent session" command.
pub fn make_start_session_command() -> (c: Vec<u8>)
    ensures
        c@ == start_session_command(),
{
    let mut c: Vec<u8> = Vec::new();
    c.push(0xff);
    c.push(0xc2);
    c.push(0x00);
    c.push(0x00);
    c.push(0x02);
    c.push(0x81);
    c.push(0x00);
    c.push(0x00);
    proof {
        assert(c@ =~= start_session_command());
    }
    c
}

/// Builds the "end transparent session" command.
pub fn make_end_session_command() -> (c: Vec<u8>)
    ensures
        c@ == end_session_command(),
{
    let mut c: Vec<u8> = Vec::new();
    c.push(0xff);
    c.push(0xc2);
    c.push(0x00);
    c.push(0x00);
    c.push(0x02);
    c.push(0x82);
    c.push(0x00);
    c.push(0x00);
    proof {
        assert(c@ =~= end_session_command());
    }
    c
}

/// Builds the FeliCa polling command.
pub fn make_felica_poll_command() -> (c: Vec<u8>)
    ensures
        c@ == felica_poll_command(),
{
    let mut c: Vec<u8> = Vec::new();
    c.push(0xff);
    c.push(0xc2);
    c.push(0x00);
    c.push(0x02);
    c.push(0x04);
    c.push(0x8f);
    c.push(0x02);
    c.push(0x03);
    c.push(0x01);
    c.push(0x00);
    proof {
        assert(c@ =~= felica_poll_command());
    }
    c
}

/// Validates the trailing status word of a resolved response and strips it,
/// leaving exactly the identifier bytes. A response that does not end in
/// `90 00` yields the invariant-violation failure and never a truncated or
/// otherwise made-up identifier.
pub fn extract_identifier(response: &Vec<u8>) -> (r: Result<Vec<u8>, Failure>)
    ensures
        status_ok(response@) ==> (r matches Ok(id) && id@ == payload(response@)),
        !status_ok(response@) ==> (r matches Err(f) && f == Failure::ProtocolViolation),
{
    let n = response.len();
    if n < 2 {
        return Err(Failure::ProtocolViolation);
    }
    if response[n - 2] != 0x90 || response[n - 1] != 0x00 {
        return Err(Failure::ProtocolViolation);
    }
    let mut id: Vec<u8> = Vec::new();
    let end = n - 2;
    for i in 0..end
        invariant
            end == response@.len() - 2,
            id@ =~= response@.subrange(0, i as int),
    {
        id.push(response[i]);
    }
    proof {
        assert(id@ =~= payload(response@));
    }
    Ok(id)
}

/// A status word the bridge recognizes well enough to name in a log line.
/// The classification is observability only: it never changes control flow.
#[derive(Clone, Copy, Debug, PartialEq, Eq, Structural)]
pub enum Diagnostic {
    NoResponse,
    InvalidLength,
    InvalidInstruction,
    UnexpectedError,
}

/// The diagnostic of a response, if it is one of the recognized bare
/// status words.
pub open spec fn spec_diagnose(r: Seq<u8>) -> Option<Diagnostic> {
    if r == seq![0x64u8, 0x01u8] {
        Some(Diagnostic::NoResponse)
    } else if r == seq![0x67u8, 0x00u8] {
        Some(Diagnostic::InvalidLength)
    } else if r == seq![0x6au8, 0x81u8] {
        Some(Diagnostic::InvalidInstruction)
    } else if r == seq![0x6fu8, 0x00u8] {
        Some(Diagnostic::UnexpectedError)
    } else {
        None
    }
}

/// Classifies a raw response against the recognized bare status words.
pub fn diagnose(response: &Vec<u8>) -> (r: Option<Diagnostic>)
    ensures
        r == spec_diagnose(response@),
{
    if response.len() != 2 {
        return None;
    }
    let b0 = response[0];
    let b1 = response[1];
    proof {
        assert(response@ =~= seq![response@[0], response@[1]]);
    }
    if b0 == 0x64 && b1 == 0x01 {
        Some(Diagnostic::NoResponse)
    } else if b0 == 0x67 && b1 == 0x00 {
        Some(Diagnostic::InvalidLength)
    } else if b0 == 0x6a && b1 == 0x81 {
        Some(Diagnostic::InvalidInstruction)
    } else if b0 == 0x6f && b1 == 0x00 {
        Some(Diagnostic::UnexpectedError)
    } else {
        None
    }
}

impl Diagnostic {
    /// The log text of the diagnostic.
    pub fn text(&self) -> (r: &'static str)
        ensures
            self is NoResponse ==> r@ == "no response"@,
            self is InvalidLength ==> r@ == "invalid length"@,
            self is InvalidInstruction ==> r@ == "invalid instruction"@,
            self is UnexpectedError ==> r@ == "unexpected error"@,
    {
        match self {
            Diagnostic::NoResponse => "no response",
            Diagnostic::InvalidLength => "invalid length",
            Diagnostic::InvalidInstruction => "invalid instruction",
            Diagnostic::UnexpectedError => "unexpected error",
        }
    }
}

} // verus!
