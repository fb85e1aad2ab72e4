//! The code-generation round trip: a per-window request/await/timeout
//! protocol. The engine clears the artifact slot and asks the UI to
//! generate; the host layer waits (up to the fixed ceiling) for the UI's
//! sync-back, then reads the outcome here.

use vstd::prelude::*;
use vstd::string::*;

use crate::keyed::{key_index, lemma_key_index};
use crate::model::{clone_artifacts, ArtifactFile};
use crate::protocol::{BridgeError, ErrorCode, UiEvent};
use crate::registry::{
    has_window, put_entry, take_entry, window_index, window_lookup, BridgeState, WindowEntry,
};

verus! {

/// The ceiling, in seconds, on the generation round trip.
pub const GENERATION_TIMEOUT_SECS: u64 = 15;

/// How the wait for the UI's sync-back ended: the ceiling elapsed first, or
/// the completion signal fired.
#[derive(Clone, Copy, Debug, PartialEq, Eq, Structural)]
pub enum WaitOutcome {
    TimedOut,
    Signaled,
}

/// The artifact mirror of the window registered under `label`, if any.
pub open spec fn artifacts_of(state: BridgeState, label: Seq<char>) -> Option<Seq<ArtifactFile>> {
    match window_lookup(state.registry, label) {
        Some(e) => match e.artifacts {
            Some(files) => Some(files@),
            None => None,
        },
        None => None,
    }
}

/// Begins a generation round trip: clears the window's artifact slot and
/// produces the generate-now event for the UI; an unknown window label is
/// rejected.
pub fn begin_generation(state: &mut BridgeState, label: &str) -> (r: Result<UiEvent, BridgeError>)
    ensures
        match r {
            Ok(ev) => {
                &&& has_window(old(state).registry, label@)
                &&& (match ev {
                    UiEvent::GenerateRequest { window } => window@ == label@,
                    _ => false,
                })
                &&& artifacts_of(*final(state), label@) is None
                &&& final(state).catalog == old(state).catalog
                &&& final(state).registry.last_active == old(state).registry.last_active
                &&& final(state).registry.windows@.len() == old(state).registry.windows@.len()
                &&& (forall|j: int|
                    0 <= j < old(state).registry.windows@.len() && j != key_index(
                        old(state).registry.windows@,
                        label@,
                    ) ==> final(state).registry.windows@[j] == old(state).registry.windows@[j])
                &&& {
                    let i = key_index(old(state).registry.windows@, label@);
                    let e_old = old(state).registry.windows@[i];
                    let e_new = final(state).registry.windows@[i];
                    &&& e_new.label == e_old.label
                    &&& e_new.project_name == e_old.project_name
                    &&& e_new.project_path == e_old.project_path
                    &&& e_new.diagram == e_old.diagram
                    &&& e_new.artifacts is None
                }
            },
            Err(e) => *final(state) == *old(state) && !has_window(old(state).registry, label@)
                && e.code == ErrorCode::NoProject,
        },
{
    let wix = match window_index(&state.registry, label) {
        Some(i) => i,
        None => {
            return Err(
                BridgeError::new(
                    ErrorCode::NoProject,
                    crate::protocol::msg2("Window not found: ", label),
                ),
            );
        },
    };
    let ghost pre_windows = state.registry.windows@;
    let mut entry = take_entry(&mut state.registry.windows, wix);
    entry.artifacts = None;
    put_entry(&mut state.registry.windows, wix, entry);
    proof {
        assert(state.registry.windows@ =~= pre_windows.update(
            wix as int,
            state.registry.windows@[wix as int],
        ));
        lemma_key_index(pre_windows, label@);
        lemma_key_index(state.registry.windows@, label@);
        crate::keyed::lemma_key_index_same_keys(state.registry.windows@, pre_windows, label@);
    }
    Ok(UiEvent::GenerateRequest { window: crate::props::clone_str(label) })
}

/// Ends a generation round trip: a timeout before the signal is `TIMEOUT`;
/// a signal with an empty slot is `GENERATION_FAILED`; otherwise the
/// artifact files are returned.
pub fn finish_generation(state: &BridgeState, label: &str, outcome: WaitOutcome) -> (r: Result<
    Vec<ArtifactFile>,
    BridgeError,
>)
    ensures
        match outcome {
            WaitOutcome::TimedOut => r is Err && r->Err_0.code == ErrorCode::Timeout,
            WaitOutcome::Signaled => match artifacts_of(*state, label@) {
                Some(files) => r is Ok && r->Ok_0@ == files,
                None => r is Err && r->Err_0.code == ErrorCode::GenerationFailed,
            },
        },
{
    match outcome {
        WaitOutcome::TimedOut => Err(
            BridgeError::new(
                ErrorCode::Timeout,
                String::from_str(
                    "HCL generation timed out before the window synced files back",
                ),
            ),
        ),
        WaitOutcome::Signaled => {
            let wix = window_index(&state.registry, label);
            match wix {
                Some(i) => match &state.registry.windows[i].artifacts {
                    Some(files) => Ok(clone_artifacts(files)),
                    None => Err(
                        BridgeError::new(
                            ErrorCode::GenerationFailed,
                            String::from_str("No HCL files were produced"),
                        ),
                    ),
                },
                None => Err(
                    BridgeError::new(
                        ErrorCode::GenerationFailed,
                        String::from_str("No HCL files were produced"),
                    ),
                ),
            }
        },
    }
}

} // verus!
