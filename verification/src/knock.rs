//! The knock sequence: a fixed ordered list of eight READ(10) commands that
//! switches the card into its diagnostic mode.  Ordering and values are part
//! of the wire contract with the card firmware; the orchestrator never
//! reorders, retries or drops a step, and tolerates failure of every command
//! but the last.

use vstd::prelude::*;

use crate::errors::ScsiError;
use crate::read10::Read10Cdb;
use crate::smart::{spec_signature_magic, SmartData};
use crate::transport::ScsiDevice;

verus! {

/// The fixed ordered list of logical block addresses the knock sequence
/// reads.  Do not alter it without re-deriving it against real hardware.
pub open spec fn knock_lbas() -> Seq<u32> {
    seq![256u32, 4096u32, 768u32, 2048u32, 1280u32, 1536u32, 21376u32, 29556u32]
}

/// The i-th logical block address of the knock sequence.
pub fn knock_lba(i: usize) -> (r: u32)
    requires
        i < 8,
    ensures
        r == knock_lbas()[i as int],
{
    if i == 0 {
        256
    } else if i == 1 {
        4096
    } else if i == 2 {
        768
    } else if i == 3 {
        2048
    } else if i == 4 {
        1280
    } else if i == 5 {
        1536
    } else if i == 6 {
        21376
    } else {
        29556
    }
}

/// Where the orchestrator stands: probing the i-th address, finished with
/// the final response in hand, or finished without one.
#[derive(Clone, Copy, Debug, PartialEq, Eq, Structural)]
pub enum KnockState {
    Probing { index: usize },
    Done,
    Failed,
}

/// The transition the orchestrator takes from `Probing(i)` once the i-th
/// command has been issued: advance past every non-final step whatever its
/// outcome, and end in `Done` or `Failed` according to the outcome of the
/// final step.
pub open spec fn spec_knock_advance(state: KnockState, success: bool) -> KnockState {
    match state {
        KnockState::Probing { index } => {
            if index < 7 {
                KnockState::Probing { index: (index + 1) as usize }
            } else if success {
                KnockState::Done
            } else {
                KnockState::Failed
            }
        },
        _ => state,
    }
}

/// The state the orchestrator reaches after the first `k` commands, given
/// the outcome of each command in order.
pub open spec fn spec_knock_state_after(outcomes: Seq<bool>, k: int) -> KnockState
    decreases k,
{
    if k <= 0 {
        KnockState::Probing { index: 0 }
    } else {
        spec_knock_advance(spec_knock_state_after(outcomes, k - 1), outcomes[k - 1])
    }
}

proof fn lemma_knock_state_probing(outcomes: Seq<bool>, k: int)
    requires
        0 <= k <= 7,
        outcomes.len() >= k,
    ensures
        spec_knock_state_after(outcomes, k) == (KnockState::Probing { index: k as usize }),
    decreases k,
{
    if k > 0 {
        lemma_knock_state_probing(outcomes, k - 1);
    }
}

/// The orchestrator's outcome law: over any outcomes of the eight commands,
/// the run ends in `Done` exactly when the final command succeeded,
/// whatever became of the seven before it, and in `Failed` otherwise.
/// `run_knock_sequence` steps through these states with `knock_advance` and
/// hands a buffer out exactly in the `Done` state, so only the final
/// command's response is ever captured.
pub proof fn lemma_knock_outcome(outcomes: Seq<bool>)
    requires
        outcomes.len() == 8,
    ensures
        outcomes[7] ==> spec_knock_state_after(outcomes, 8) == KnockState::Done,
        !outcomes[7] ==> spec_knock_state_after(outcomes, 8) == KnockState::Failed,
{
    lemma_knock_state_probing(outcomes, 7);
}

/// How many commands the orchestrator has still to issue.
pub open spec fn knock_remaining(state: KnockState) -> int {
    match state {
        KnockState::Probing { index } => 8 - index,
        _ => 0,
    }
}

/// Advance the orchestrator one step, as `spec_knock_advance` describes.
pub fn knock_advance(state: KnockState, success: bool) -> (next: KnockState)
    requires
        state matches KnockState::Probing { index } && index < 8,
    ensures
        next == spec_knock_advance(state, success),
{
    match state {
        KnockState::Probing { index } => {
            if index < 7 {
                KnockState::Probing { index: index + 1 }
            } else if success {
                KnockState::Done
            } else {
                KnockState::Failed
            }
        },
        _ => state,
    }
}

/// One zeroed single-block buffer for a knock response.
fn zeroed_block() -> (r: Vec<u8>)
    ensures
        r@.len() == 512,
        forall|i: int| 0 <= i < 512 ==> r@[i] == 0,
{
    let mut v: Vec<u8> = Vec::new();
    let mut i: usize = 0;
    while i < 512
        invariant
            i <= 512,
            v@.len() == i,
            forall|j: int| 0 <= j < i ==> v@[j] == 0,
        decreases 512 - i,
    {
        v.push(0);
        i += 1;
    }
    v
}

/// Issue the knock sequence over an open transport and hand back the
/// response of the final command.
///
/// Every command reads one block at the next address of the list, with the
/// legacy LUN field set to 1.  A failed command is tolerated: its address is
/// appended to `failed_lbas` and the sequence continues, because only the
/// side effect of having issued the command matters.  Only the final
/// command's response is kept; if it never arrives the run ends in
/// `SequenceIncomplete`.
pub fn run_knock_sequence<D: ScsiDevice>(dev: &D, failed_lbas: &mut Vec<u32>) -> (r: Result<
    Vec<u8>,
    ScsiError,
>)
    ensures
        r matches Ok(d) ==> d@.len() == 512,
        r is Err ==> r == Err::<Vec<u8>, ScsiError>(ScsiError::SequenceIncomplete),
        final(failed_lbas)@.len() >= old(failed_lbas)@.len(),
        forall|i: int|
            0 <= i < old(failed_lbas)@.len() ==> final(failed_lbas)@[i] == old(failed_lbas)@[i],
        forall|i: int|
            old(failed_lbas)@.len() <= i < final(failed_lbas)@.len() ==> knock_lbas().contains(
                #[trigger] final(failed_lbas)@[i],
            ),
{
    let ghost orig_failed = failed_lbas@;
    let mut state = KnockState::Probing { index: 0 };
    let mut captured: Option<Vec<u8>> = None;
    loop
        invariant
            state matches KnockState::Probing { index } ==> index < 8,
            state is Done ==> (captured matches Some(d) && d@.len() == 512),
            !(state is Done) ==> captured is None,
            failed_lbas@.len() >= orig_failed.len(),
            forall|i: int| 0 <= i < orig_failed.len() ==> failed_lbas@[i] == orig_failed[i],
            forall|i: int|
                orig_failed.len() <= i < failed_lbas@.len() ==> knock_lbas().contains(
                    #[trigger] failed_lbas@[i],
                ),
        decreases knock_remaining(state),
    {
        match state {
            KnockState::Probing { index } => {
                let lba = knock_lba(index);
                let mut cdb = Read10Cdb::new();
                cdb.set_lun_legacy(1);
                cdb.set_lba(lba);
                cdb.set_transfer_length(1);
                let mut buf = zeroed_block();
                let success = match dev.read_cmd(cdb.as_bytes().as_slice(), &mut buf) {
                    Ok(()) => true,
                    Err(_) => {
                        failed_lbas.push(lba);
                        false
                    },
                };
                if success && index == 7 {
                    captured = Some(buf);
                }
                state = knock_advance(state, success);
            },
            _ => {
                break;
            },
        }
    }
    match captured {
        Some(d) => Ok(d),
        None => Err(ScsiError::SequenceIncomplete),
    }
}

/// The whole run over an open transport: issue the knock sequence, decode
/// the final response, and accept the record only if it carries the
/// expected signature magic.
pub fn fetch_smart_data<D: ScsiDevice>(dev: &D, failed_lbas: &mut Vec<u32>) -> (r: Result<
    SmartData,
    ScsiError,
>)
    ensures
        r matches Ok(rec) ==> rec.signature@ == spec_signature_magic(),
        r matches Err(e) ==> (e == ScsiError::SequenceIncomplete
            || e == ScsiError::SignatureMismatch),
        final(failed_lbas)@.len() >= old(failed_lbas)@.len(),
        forall|i: int|
            0 <= i < old(failed_lbas)@.len() ==> final(failed_lbas)@[i] == old(failed_lbas)@[i],
        forall|i: int|
            old(failed_lbas)@.len() <= i < final(failed_lbas)@.len() ==> knock_lbas().contains(
                #[trigger] final(failed_lbas)@[i],
            ),
{
    let data = match run_knock_sequence(dev, failed_lbas) {
        Ok(d) => d,
        Err(e) => {
            return Err(e);
        },
    };
    let rec = match SmartData::read(data.as_slice()) {
        Ok(rec) => rec,
        Err(e) => {
            return Err(e);
        },
    };
    if rec.is_valid() {
        Ok(rec)
    } else {
        Err(ScsiError::SignatureMismatch)
    }
}

} // verus!
