//! Transport decisions.
//!
//! The reader subsystem is driven by the unverified shell; the decisions it
//! must make — which reader to use, and how to treat a failed connect or
//! status query — are made here, over the plain numeric error codes the
//! subsystem reports.

use vstd::prelude::*;

use crate::failure::Failure;

verus! {

/// The subsystem's code for "the operation requires a smartcard but none
/// is in the device".
pub const NO_SMARTCARD_CODE: u32 = 0x8010000C;

/// The subsystem's code for "the smartcard has been removed".
pub const REMOVED_CARD_CODE: u32 = 0x80100069;

/// The two error codes that mean a card is simply not there. They are
/// expected outcomes of polling, never failures.
pub open spec fn is_expected_absence(code: u32) -> bool {
    code == NO_SMARTCARD_CODE || code == REMOVED_CARD_CODE
}

/// Decides what a failed connect attempt means: `Ok` says no card is
/// present and polling goes on after the backoff; `Err` is a connect
/// failure of the current cycle. The two absence codes never produce an
/// error.
pub fn classify_connect_error(code: u32) -> (r: Result<(), Failure>)
    ensures
        is_expected_absence(code) <==> r is Ok,
        !is_expected_absence(code) ==> (r matches Err(f) && f == Failure::Connect),
{
    if code == NO_SMARTCARD_CODE || code == REMOVED_CARD_CODE {
        Ok(())
    } else {
        Err(Failure::Connect)
    }
}

/// Decides what a failed status query on a connected card means: `Ok` is
/// the removal signal — the card is gone and detection resumes; `Err` is a
/// status failure of the current cycle.
pub fn classify_status_error(code: u32) -> (r: Result<(), Failure>)
    ensures
        is_expected_absence(code) <==> r is Ok,
        !is_expected_absence(code) ==> (r matches Err(f) && f == Failure::Status),
{
    if code == NO_SMARTCARD_CODE || code == REMOVED_CARD_CODE {
        Ok(())
    } else {
        Err(Failure::Status)
    }
}

/// Picks the reader to use from the enumerated reader names: the first
/// one. An empty enumeration is the setup-fatal no-readers failure.
pub fn choose_reader(readers: &Vec<String>) -> (r: Result<String, Failure>)
    ensures
        readers@.len() > 0 ==> (r matches Ok(name) && name@ == readers@[0]@),
        readers@.len() == 0 ==> (r matches Err(f) && f == Failure::NoReaders),
{
    if readers.len() == 0 {
        Err(Failure::NoReaders)
    } else {
        Ok(readers[0].clone())
    }
}

} // verus!
