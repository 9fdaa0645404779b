//! UID resolution.
//!
//! A newly connected card is read in a fixed command sequence: the generic
//! UID command first, then a FeliCa probe inside a transparent session
//! (start session, FeliCa polling command, end session — the end command is
//! sent whatever the polling outcome was). If the probe response carries
//! the FeliCa acknowledgment, the card is FeliCa and one more generic UID
//! command is issued; its response is the one that counts, and the earlier
//! generic response is discarded. Otherwise the earlier generic response
//! stands. The chosen response must end in the success status word `90 00`;
//! its payload is the card identifier.
//!
//! The module models the sequence as a step machine: the shell transmits
//! the command of the current phase, hands the raw response back, and the
//! machine decides the next phase or the outcome. Every decision is made
//! here; the shell only moves bytes.

use vstd::prelude::*;

use crate::apdu::end_session_command;
use crate::apdu::extract_identifier;
use crate::apdu::felica_poll_command;
use crate::apdu::make_end_session_command;
use crate::apdu::make_felica_poll_command;
use crate::apdu::make_start_session_command;
use crate::apdu::make_uid_command;
use crate::apdu::payload;
use crate::apdu::start_session_command;
use crate::apdu::status_ok;
use crate::apdu::uid_command;
use crate::hexenc::hex_char;
use crate::hexenc::hex_of;
use crate::hexenc::lemma_hex_of_len;

verus! {

/// The first five bytes of a FeliCa acknowledgment: the fixed header
/// `c0 03 00` with the success status word `90 00` baked in.
pub open spec fn felica_ack_prefix() -> Seq<u8> {
    seq![0xc0u8, 0x03u8, 0x00u8, 0x90u8, 0x00u8]
}

/// The probe response acknowledges a FeliCa card: it starts with the
/// fixed acknowledgment prefix.
pub open spec fn is_felica_ack(r: Seq<u8>) -> bool {
    r.len() >= 5 && r.subrange(0, 5) == felica_ack_prefix()
}

/// Position `i` of the encoding holds the digits of byte `i`.
proof fn lemma_hex_of_index(s: Seq<u8>, i: int)
    requires
        0 <= i < s.len(),
    ensures
        hex_of(s)[2 * i] == hex_char(s[i] / 16),
        hex_of(s)[2 * i + 1] == hex_char(s[i] % 16),
    decreases i,
{
    lemma_hex_of_len(s.drop_first());
    if i == 0 {
        assert(hex_of(s)[0] == hex_char(s[0] / 16));
        assert(hex_of(s)[1] == hex_char(s[0] % 16));
    } else {
        lemma_hex_of_index(s.drop_first(), i - 1);
        assert(s.drop_first()[i - 1] == s[i]);
        assert(hex_of(s)[2 * i] == hex_of(s.drop_first())[2 * (i - 1)]);
        assert(hex_of(s)[2 * i + 1] == hex_of(s.drop_first())[2 * (i - 1) + 1]);
    }
}

/// The acknowledgment check is exactly the check the protocol phrases over
/// hex text: the response acknowledges FeliCa if and only if its lowercase
/// hex encoding starts with `c003009000`.
pub proof fn lemma_felica_ack_is_hex_prefix(r: Seq<u8>)
    ensures
        is_felica_ack(r) <==> (hex_of(r).len() >= 10 && hex_of(r).subrange(0, 10)
            == "c003009000"@),
{
    reveal_strlit("c003009000");
    lemma_hex_of_len(r);
    if r.len() >= 5 {
        let i0: int = 0;
        let i1: int = 1;
        let i2: int = 2;
        let i3: int = 3;
        let i4: int = 4;
        lemma_hex_of_index(r, i0);
        lemma_hex_of_index(r, i1);
        lemma_hex_of_index(r, i2);
        lemma_hex_of_index(r, i3);
        lemma_hex_of_index(r, i4);
        if is_felica_ack(r) {
            assert(r.subrange(0, 5)[0] == r[0]);
            assert(r.subrange(0, 5)[1] == r[1]);
            assert(r.subrange(0, 5)[2] == r[2]);
            assert(r.subrange(0, 5)[3] == r[3]);
            assert(r.subrange(0, 5)[4] == r[4]);
            assert(r[0] == 0xc0u8 && r[1] == 0x03u8 && r[2] == 0x00u8 && r[3] == 0x90u8 && r[4]
                == 0x00u8);
            assert(hex_of(r).subrange(0, 10) =~= "c003009000"@);
        }
        if hex_of(r).len() >= 10 && hex_of(r).subrange(0, 10) == "c003009000"@ {
            assert(forall|k: int|
                0 <= k < 10 ==> hex_of(r).subrange(0, 10)[k] == #[trigger] hex_of(r)[k]);
            assert(r[0] / 16 < 16 && r[0] % 16 < 16);
            assert(r[0] == (r[0] / 16) * 16 + r[0] % 16) by (nonlinear_arith);
            assert(r[1] == (r[1] / 16) * 16 + r[1] % 16) by (nonlinear_arith);
            assert(r[2] == (r[2] / 16) * 16 + r[2] % 16) by (nonlinear_arith);
            assert(r[3] == (r[3] / 16) * 16 + r[3] % 16) by (nonlinear_arith);
            assert(r[4] == (r[4] / 16) * 16 + r[4] % 16) by (nonlinear_arith);
            assert(r.subrange(0, 5) =~= felica_ack_prefix());
        }
    }
}

/// Tests a probe response for the FeliCa acknowledgment.
pub fn probe_indicates_felica(response: &Vec<u8>) -> (b: bool)
    ensures
        b == is_felica_ack(response@),
{
    if response.len() < 5 {
        proof {
            assert(!is_felica_ack(response@));
        }
        return false;
    }
    let ack = response[0] == 0xc0 && response[1] == 0x03 && response[2] == 0x00 && response[3]
        == 0x90 && response[4] == 0x00;
    proof {
        if ack {
            assert(response@.subrange(0, 5) =~= felica_ack_prefix());
        } else {
            assert(response@.subrange(0, 5)[0] == response@[0]);
            assert(response@.subrange(0, 5)[1] == response@[1]);
            assert(response@.subrange(0, 5)[2] == response@[2]);
            assert(response@.subrange(0, 5)[3] == response@[3]);
            assert(response@.subrange(0, 5)[4] == response@[4]);
        }
    }
    ack
}

/// The phase of a resolution in progress. Each phase names the command to
/// transmit next; a phase that still needs the first generic response
/// carries it along for the eventual fallback.
#[derive(Clone, Debug, PartialEq, Eq)]
pub enum Phase {
    /// Send the generic UID command.
    Generic,
    /// Send the start-session command; the generic response is kept.
    StartSession { generic: Vec<u8> },
    /// Send the FeliCa polling command.
    Probe { generic: Vec<u8> },
    /// Send the end-session command; whether the probe acknowledged
    /// FeliCa has already been decided.
    EndSession { generic: Vec<u8>, felica_ack: bool },
    /// FeliCa path: send the generic UID command once more.
    SecondGeneric,
}

/// The mathematical counterpart of [`Phase`].
pub enum PhaseModel {
    Generic,
    StartSession { generic: Seq<u8> },
    Probe { generic: Seq<u8> },
    EndSession { generic: Seq<u8>, felica_ack: bool },
    SecondGeneric,
}

impl View for Phase {
    type V = PhaseModel;

    open spec fn view(&self) -> PhaseModel {
        match self {
            Phase::Generic => PhaseModel::Generic,
            Phase::StartSession { generic } => PhaseModel::StartSession { generic: generic@ },
            Phase::Probe { generic } => PhaseModel::Probe { generic: generic@ },
            Phase::EndSession { generic, felica_ack } => PhaseModel::EndSession {
                generic: generic@,
                felica_ack: *felica_ack,
            },
            Phase::SecondGeneric => PhaseModel::SecondGeneric,
        }
    }
}

/// What one step of the machine decided.
#[derive(Clone, Debug, PartialEq, Eq)]
pub enum StepOutcome {
    /// The resolution goes on in the given phase.
    Continue(Phase),
    /// The resolution is complete; the card identifier is attached.
    Resolved(Vec<u8>),
    /// The chosen response did not end in `90 00`: the hard invariant of
    /// resolution is broken and no identifier is produced.
    Violation,
}

/// The mathematical counterpart of [`StepOutcome`].
pub enum StepModel {
    Continue(PhaseModel),
    Resolved(Seq<u8>),
    Violation,
}

impl View for StepOutcome {
    type V = StepModel;

    open spec fn view(&self) -> StepModel {
        match self {
            StepOutcome::Continue(p) => StepModel::Continue(p@),
            StepOutcome::Resolved(id) => StepModel::Resolved(id@),
            StepOutcome::Violation => StepModel::Violation,
        }
    }
}

/// The command transmitted in a phase.
pub open spec fn spec_command(p: PhaseModel) -> Seq<u8> {
    match p {
        PhaseModel::Generic => uid_command(),
        PhaseModel::StartSession { .. } => start_session_command(),
        PhaseModel::Probe { .. } => felica_poll_command(),
        PhaseModel::EndSession { .. } => end_session_command(),
        PhaseModel::SecondGeneric => uid_command(),
    }
}

/// Final validation of the chosen response: strip `90 00`, or report the
/// violation. Never a truncated identifier.
pub open spec fn spec_finish(chosen: Seq<u8>) -> StepModel {
    if status_ok(chosen) {
        StepModel::Resolved(payload(chosen))
    } else {
        StepModel::Violation
    }
}

/// One transition of the resolution machine, given the response to the
/// phase's command.
pub open spec fn spec_step(p: PhaseModel, response: Seq<u8>) -> StepModel {
    match p {
        PhaseModel::Generic => StepModel::Continue(
            PhaseModel::StartSession { generic: response },
        ),
        PhaseModel::StartSession { generic } => StepModel::Continue(
            PhaseModel::Probe { generic },
        ),
        PhaseModel::Probe { generic } => StepModel::Continue(
            PhaseModel::EndSession { generic, felica_ack: is_felica_ack(response) },
        ),
        PhaseModel::EndSession { generic, felica_ack } => if felica_ack {
            StepModel::Continue(PhaseModel::SecondGeneric)
        } else {
            spec_finish(generic)
        },
        PhaseModel::SecondGeneric => spec_finish(response),
    }
}

/// The phase a resolution starts in.
pub fn initial_phase() -> (p: Phase)
    ensures
        p@ == PhaseModel::Generic,
{
    Phase::Generic
}

/// Builds the command to transmit in the given phase.
pub fn phase_command(p: &Phase) -> (c: Vec<u8>)
    ensures
        c@ == spec_command(p@),
{
    match p {
        Phase::Generic => make_uid_command(),
        Phase::StartSession { .. } => make_start_session_command(),
        Phase::Probe { .. } => make_felica_poll_command(),
        Phase::EndSession { .. } => make_end_session_command(),
        Phase::SecondGeneric => make_uid_command(),
    }
}

/// Feeds the response of the current phase's command to the machine and
/// returns its decision.
pub fn resolve_step(phase: Phase, response: Vec<u8>) -> (r: StepOutcome)
    ensures
        r@ == spec_step(phase@, response@),
{
    match phase {
        Phase::Generic => StepOutcome::Continue(Phase::StartSession { generic: response }),
        Phase::StartSession { generic } => StepOutcome::Continue(Phase::Probe { generic }),
        Phase::Probe { generic } => {
            let felica_ack = probe_indicates_felica(&response);
            StepOutcome::Continue(Phase::EndSession { generic, felica_ack })
        },
        Phase::EndSession { generic, felica_ack } => {
            if felica_ack {
                StepOutcome::Continue(Phase::SecondGeneric)
            } else {
                match extract_identifier(&generic) {
                    Ok(id) => StepOutcome::Resolved(id),
                    Err(_) => StepOutcome::Violation,
                }
            }
        },
        Phase::SecondGeneric => {
            match extract_identifier(&response) {
                Ok(id) => StepOutcome::Resolved(id),
                Err(_) => StepOutcome::Violation,
            }
        },
    }
}

/// The commands a run issues from phase `p`, one per response received,
/// in order. A run stops consuming responses once it resolves or fails.
pub open spec fn commands_of_run(p: PhaseModel, responses: Seq<Seq<u8>>) -> Seq<Seq<u8>>
    decreases responses.len(),
{
    if responses.len() == 0 {
        seq![]
    } else {
        match spec_step(p, responses.first()) {
            StepModel::Continue(q) => seq![spec_command(p)] + commands_of_run(
                q,
                responses.drop_first(),
            ),
            _ => seq![spec_command(p)],
        }
    }
}

/// Where a run from phase `p` stands after the given responses.
pub open spec fn outcome_of_run(p: PhaseModel, responses: Seq<Seq<u8>>) -> StepModel
    decreases responses.len(),
{
    if responses.len() == 0 {
        StepModel::Continue(p)
    } else {
        match spec_step(p, responses.first()) {
            StepModel::Continue(q) => outcome_of_run(q, responses.drop_first()),
            r => r,
        }
    }
}

/// Final validation is exact: an identifier comes only from a response
/// ending in `90 00`, and it is that response with exactly the last two
/// bytes stripped, the remainder unchanged. Any other trailing status word
/// yields the violation outcome, never a truncated identifier.
pub proof fn lemma_finish_exact(chosen: Seq<u8>)
    ensures
        status_ok(chosen) ==> spec_finish(chosen) == StepModel::Resolved(
            chosen.subrange(0, chosen.len() - 2),
        ),
        !status_ok(chosen) ==> spec_finish(chosen) == StepModel::Violation,
        spec_finish(chosen) matches StepModel::Resolved(id) ==> id.len() == chosen.len() - 2
            && (forall|i: int| 0 <= i < id.len() ==> id[i] == chosen[i]),
{
}

/// The FeliCa path: when the probe response (the third exchange)
/// acknowledges FeliCa, a full run issues exactly one more generic UID
/// command — five commands in all — and resolves from the fifth response,
/// discarding the first generic response.
pub proof fn lemma_felica_path(responses: Seq<Seq<u8>>)
    requires
        responses.len() == 5,
        is_felica_ack(responses[2]),
    ensures
        commands_of_run(PhaseModel::Generic, responses) == seq![
            uid_command(),
            start_session_command(),
            felica_poll_command(),
            end_session_command(),
            uid_command(),
        ],
        outcome_of_run(PhaseModel::Generic, responses) == spec_finish(responses[4]),
{
    let r1 = responses.drop_first();
    let r2 = r1.drop_first();
    let r3 = r2.drop_first();
    let r4 = r3.drop_first();
    let p1 = PhaseModel::StartSession { generic: responses[0] };
    let p2 = PhaseModel::Probe { generic: responses[0] };
    let p3 = PhaseModel::EndSession { generic: responses[0], felica_ack: true };
    let p4 = PhaseModel::SecondGeneric;
    assert(r1[1] == responses[2] && r2[0] == responses[2]);
    assert(r3[0] == responses[3] && r4[0] == responses[4]);
    assert(spec_step(PhaseModel::Generic, responses.first()) == StepModel::Continue(p1));
    assert(spec_step(p1, r1.first()) == StepModel::Continue(p2));
    assert(spec_step(p2, r2.first()) == StepModel::Continue(p3));
    assert(spec_step(p3, r3.first()) == StepModel::Continue(p4));
    assert(spec_step(p4, r4.first()) == spec_finish(responses[4]));
    assert(r4.drop_first().len() == 0);
    assert(outcome_of_run(PhaseModel::Generic, responses) == outcome_of_run(p1, r1));
    assert(outcome_of_run(p1, r1) == outcome_of_run(p2, r2));
    assert(outcome_of_run(p2, r2) == outcome_of_run(p3, r3));
    assert(outcome_of_run(p3, r3) == outcome_of_run(p4, r4));
    assert(outcome_of_run(p4, r4) == spec_finish(responses[4]));
    assert(commands_of_run(p4, r4) =~= seq![uid_command()]);
    assert(commands_of_run(p3, r3) =~= seq![end_session_command()] + commands_of_run(p4, r4));
    assert(commands_of_run(p2, r2) =~= seq![felica_poll_command()] + commands_of_run(p3, r3));
    assert(commands_of_run(p1, r1) =~= seq![start_session_command()] + commands_of_run(p2, r2));
    assert(commands_of_run(PhaseModel::Generic, responses) =~= seq![uid_command()]
        + commands_of_run(p1, r1));
    assert(commands_of_run(PhaseModel::Generic, responses) =~= seq![
        uid_command(),
        start_session_command(),
        felica_poll_command(),
        end_session_command(),
        uid_command(),
    ]);
}

/// The fallback path: when the probe response does not acknowledge FeliCa,
/// a full run issues exactly the four fixed commands and resolves from the
/// first response — the original generic UID response.
pub proof fn lemma_fallback_path(responses: Seq<Seq<u8>>)
    requires
        responses.len() == 4,
        !is_felica_ack(responses[2]),
    ensures
        commands_of_run(PhaseModel::Generic, responses) == seq![
            uid_command(),
            start_session_command(),
            felica_poll_command(),
            end_session_command(),
        ],
        outcome_of_run(PhaseModel::Generic, responses) == spec_finish(responses[0]),
{
    let r1 = responses.drop_first();
    let r2 = r1.drop_first();
    let r3 = r2.drop_first();
    let p1 = PhaseModel::StartSession { generic: responses[0] };
    let p2 = PhaseModel::Probe { generic: responses[0] };
    let p3 = PhaseModel::EndSession { generic: responses[0], felica_ack: false };
    assert(r1[1] == responses[2] && r2[0] == responses[2]);
    assert(spec_step(PhaseModel::Generic, responses.first()) == StepModel::Continue(p1));
    assert(spec_step(p1, r1.first()) == StepModel::Continue(p2));
    assert(spec_step(p2, r2.first()) == StepModel::Continue(p3));
    assert(spec_step(p3, r3.first()) == spec_finish(responses[0]));
    assert(outcome_of_run(PhaseModel::Generic, responses) == outcome_of_run(p1, r1));
    assert(outcome_of_run(p1, r1) == outcome_of_run(p2, r2));
    assert(outcome_of_run(p2, r2) == outcome_of_run(p3, r3));
    assert(outcome_of_run(p3, r3) == spec_finish(responses[0]));
    assert(commands_of_run(p3, r3) =~= seq![end_session_command()]);
    assert(commands_of_run(p2, r2) =~= seq![felica_poll_command()] + commands_of_run(p3, r3));
    assert(commands_of_run(p1, r1) =~= seq![start_session_command()] + commands_of_run(p2, r2));
    assert(commands_of_run(PhaseModel::Generic, responses) =~= seq![uid_command()]
        + commands_of_run(p1, r1));
    assert(commands_of_run(PhaseModel::Generic, responses) =~= seq![
        uid_command(),
        start_session_command(),
        felica_poll_command(),
        end_session_command(),
    ]);
}

} // verus!
