//! Protocol laws: what holds of every case, over whole event sequences.

use vstd::prelude::*;

use crate::data::decoded_payload;
use crate::data::lemma_padded_payload_round_trip;
use crate::data::padded_payload_bytes;
use crate::machine::Action;
use crate::machine::CaseRun;
use crate::machine::Event;
use crate::machine::lemma_action_sources;
use crate::machine::lemma_step_spec_advances_phase;
use crate::machine::lemma_step_spec_preserves_inv;
use crate::machine::live_allocations;
use crate::machine::phase_index;
use crate::machine::step_spec;
use crate::params::CapabilitySet;
use crate::select::selected_memory_type;

verus! {

/// Each event in the sequence answers the action pending at its turn.
pub open spec fn valid_events(s: CaseRun, evs: Seq<Event>) -> bool
    decreases evs.len(),
{
    evs.len() == 0 || (s.accepts(evs[0]) && valid_events(step_spec(s, evs[0]).0, evs.drop_first()))
}

/// The state after feeding a whole event sequence.
pub open spec fn run_steps(s: CaseRun, evs: Seq<Event>) -> CaseRun
    decreases evs.len(),
{
    if evs.len() == 0 {
        s
    } else {
        run_steps(step_spec(s, evs[0]).0, evs.drop_first())
    }
}

/// The action the machine returns at turn `i` of a run.
pub open spec fn action_at(s: CaseRun, evs: Seq<Event>, i: int) -> Action {
    step_spec(run_steps(s, evs.take(i)), evs[i]).1
}

/// A prefix of a valid event sequence is itself valid.
proof fn lemma_valid_take(s: CaseRun, evs: Seq<Event>, k: int)
    requires
        valid_events(s, evs),
        0 <= k <= evs.len(),
    ensures
        valid_events(s, evs.take(k)),
    decreases k,
{
    if k > 0 {
        assert(evs.take(k).drop_first() =~= evs.drop_first().take(k - 1));
        lemma_valid_take(step_spec(s, evs[0]).0, evs.drop_first(), k - 1);
    }
}

/// A run splits at any point: feeding the whole sequence equals feeding the
/// first `k` events and then the rest.
proof fn lemma_run_split(s: CaseRun, evs: Seq<Event>, k: int)
    requires
        valid_events(s, evs),
        0 <= k <= evs.len(),
    ensures
        valid_events(run_steps(s, evs.take(k)), evs.skip(k)),
        run_steps(s, evs) == run_steps(run_steps(s, evs.take(k)), evs.skip(k)),
    decreases k,
{
    if k == 0 {
        assert(evs.take(0) =~= Seq::<Event>::empty());
        assert(evs.skip(0) =~= evs);
    } else {
        assert(evs.take(k).drop_first() =~= evs.drop_first().take(k - 1));
        assert(evs.skip(k) =~= evs.drop_first().skip(k - 1));
        lemma_run_split(step_spec(s, evs[0]).0, evs.drop_first(), k - 1);
    }
}

/// Along a valid run the protocol only moves forward.
pub proof fn lemma_run_phase_monotone(s: CaseRun, evs: Seq<Event>)
    requires
        valid_events(s, evs),
    ensures
        phase_index(run_steps(s, evs).phase) >= phase_index(s.phase),
    decreases evs.len(),
{
    if evs.len() > 0 {
        lemma_step_spec_advances_phase(s, evs[0]);
        lemma_run_phase_monotone(step_spec(s, evs[0]).0, evs.drop_first());
    }
}

/// The state after the first `i` events of a run.
pub open spec fn state_at(s: CaseRun, evs: Seq<Event>, i: int) -> CaseRun {
    run_steps(s, evs.take(i))
}

/// Relates the action at turn `i` to the states around it: the action is
/// what stepping the state at `i` returns, and the state at `i + 1` is where
/// that step lands.
proof fn lemma_action_at_unfolds(s: CaseRun, evs: Seq<Event>, i: int)
    requires
        valid_events(s, evs),
        0 <= i < evs.len(),
    ensures
        action_at(s, evs, i) == step_spec(state_at(s, evs, i), evs[i]).1,
        state_at(s, evs, i + 1) == step_spec(state_at(s, evs, i), evs[i]).0,
{
    lemma_valid_take(s, evs, i + 1);
    lemma_run_split(s, evs.take(i + 1), i);
    assert(evs.take(i + 1).take(i) =~= evs.take(i));
    assert(evs.take(i + 1).skip(i) =~= seq![evs[i]]);
    let si = state_at(s, evs, i);
    let single = seq![evs[i]];
    assert(single.len() == 1 && single[0] == evs[i]);
    assert(single.drop_first().len() == 0);
    assert(run_steps(step_spec(si, evs[i]).0, single.drop_first()) == step_spec(si, evs[i]).0);
    assert(run_steps(si, single) == step_spec(si, evs[i]).0);
}

/// An exported handle is imported at most once: however the device answers,
/// no valid run makes the machine ask for a second import.
pub proof fn lemma_handle_imported_at_most_once(s: CaseRun, evs: Seq<Event>)
    requires
        valid_events(s, evs),
    ensures
        forall|i: int, j: int|
            0 <= i < j < evs.len() && action_at(s, evs, i) == Action::ImportHandle
                ==> action_at(s, evs, j) != Action::ImportHandle,
{
    assert forall|i: int, j: int|
        0 <= i < j < evs.len() && action_at(s, evs, i) == Action::ImportHandle implies action_at(
        s,
        evs,
        j,
    ) != Action::ImportHandle by {
        lemma_action_at_unfolds(s, evs, i);
        lemma_action_at_unfolds(s, evs, j);
        lemma_action_sources(state_at(s, evs, i), evs[i]);
        lemma_action_sources(state_at(s, evs, j), evs[j]);
        // After the import was requested the protocol stands at the import
        // phase, and from there it only moves forward, so the export phase —
        // the one source of an import request — is never seen again.
        lemma_valid_take(s, evs, j);
        lemma_run_split(s, evs.take(j), i + 1);
        assert(evs.take(j).take(i + 1) =~= evs.take(i + 1));
        lemma_run_phase_monotone(state_at(s, evs, i + 1), evs.take(j).skip(i + 1));
    }
}

/// Teardown is requested at most once per case: what it releases cannot be
/// released twice.
pub proof fn lemma_teardown_requested_at_most_once(s: CaseRun, evs: Seq<Event>)
    requires
        valid_events(s, evs),
    ensures
        forall|i: int, j: int|
            0 <= i < j < evs.len() && action_at(s, evs, i) is Teardown ==> !(action_at(
                s,
                evs,
                j,
            ) is Teardown),
{
    assert forall|i: int, j: int|
        0 <= i < j < evs.len() && action_at(s, evs, i) is Teardown implies !(action_at(
        s,
        evs,
        j,
    ) is Teardown) by {
        lemma_action_at_unfolds(s, evs, i);
        lemma_action_at_unfolds(s, evs, j);
        lemma_action_sources(state_at(s, evs, i), evs[i]);
        lemma_action_sources(state_at(s, evs, j), evs[j]);
        lemma_valid_take(s, evs, j);
        lemma_run_split(s, evs.take(j), i + 1);
        assert(evs.take(j).take(i + 1) =~= evs.take(i + 1));
        lemma_run_phase_monotone(state_at(s, evs, i + 1), evs.take(j).skip(i + 1));
    }
}

/// A valid run keeps the invariant, and a case that has finished holds no
/// allocation: the device's live-allocation count is back at its pre-case
/// baseline, however the case went.
pub proof fn lemma_case_leaves_no_allocation(s: CaseRun, evs: Seq<Event>)
    requires
        s.inv(),
        valid_events(s, evs),
    ensures
        run_steps(s, evs).inv(),
        run_steps(s, evs).phase is Done ==> live_allocations(run_steps(s, evs)) == 0
            && run_steps(s, evs).no_mappings(),
    decreases evs.len(),
{
    if evs.len() > 0 {
        lemma_step_spec_preserves_inv(s, evs[0]);
        lemma_case_leaves_no_allocation(step_spec(s, evs[0]).0, evs.drop_first());
    }
}

/// A capability answer of no capability at all ends the case at once: every
/// phase slot stays NotRun, nothing was allocated, and the machine accepts
/// no further event, so no create, export or import call can occur.
pub proof fn lemma_no_capability_no_work(s: CaseRun, caps: CapabilitySet)
    requires
        s.inv(),
        s.phase is QueryCaps,
        !caps.exportable,
        !caps.importable,
    ensures
        ({
            let (s2, a) = step_spec(s, Event::CapabilityAnswer(Some(caps)));
            &&& s2.phase is Done
            &&& a == Action::Finish
            &&& s2.results.all_not_run()
            &&& live_allocations(s2) == 0
            &&& forall|e: Event| !s2.accepts(e)
        }),
{
}

/// A capability query that itself errors ends the case the same way: every
/// slot NotRun and no further device call.
pub proof fn lemma_failed_capability_query_no_work(s: CaseRun)
    requires
        s.inv(),
        s.phase is QueryCaps,
    ensures
        ({
            let (s2, a) = step_spec(s, Event::CapabilityAnswer(None));
            &&& s2.phase is Done
            &&& a == Action::Finish
            &&& s2.results.all_not_run()
            &&& live_allocations(s2) == 0
            &&& forall|e: Event| !s2.accepts(e)
        }),
{
}

/// A capability answer of exportable and not importable puts the case on
/// the export-only branch.
pub proof fn lemma_export_capability_starts_export_only(s: CaseRun, caps: CapabilitySet)
    requires
        s.inv(),
        s.phase is QueryCaps,
        caps.exportable,
        !caps.importable,
    ensures
        step_spec(s, Event::CapabilityAnswer(Some(caps))).0.branch is ExportOnly,
        step_spec(s, Event::CapabilityAnswer(Some(caps))).0.inv(),
{
}

/// In an export-only case — the capability matrix reported exportable and
/// not importable — the machine never asks for an import, and the import and
/// data-check slots stay NotRun to the end, whatever the device answers.
pub proof fn lemma_export_only_never_imports(s: CaseRun, evs: Seq<Event>)
    requires
        s.inv(),
        s.branch is ExportOnly,
        valid_events(s, evs),
    ensures
        run_steps(s, evs).branch is ExportOnly,
        run_steps(s, evs).results.import_external_resource is NotRun,
        run_steps(s, evs).results.data_check is NotRun,
        forall|i: int| 0 <= i < evs.len() ==> action_at(s, evs, i) != Action::ImportHandle,
    decreases evs.len(),
{
    if evs.len() == 0 {
    } else {
        let s1 = step_spec(s, evs[0]).0;
        lemma_step_spec_preserves_inv(s, evs[0]);
        assert(s1.branch is ExportOnly);
        lemma_export_only_never_imports(s1, evs.drop_first());
        assert forall|i: int| 0 <= i < evs.len() implies action_at(s, evs, i)
            != Action::ImportHandle by {
            if i == 0 {
                assert(evs.take(0) =~= Seq::<Event>::empty());
            } else {
                let rest = evs.drop_first();
                assert(evs.take(i)[0] == evs[0]);
                assert(evs.take(i).drop_first() =~= rest.take(i - 1));
                assert(run_steps(s, evs.take(i)) == run_steps(s1, rest.take(i - 1)));
                assert(rest[i - 1] == evs[i]);
                assert(action_at(s1, rest, i - 1) != Action::ImportHandle);
            }
        }
    }
}

/// When the capability matrix reports the full round trip — exportable,
/// importable, and exportable from imported — and the device succeeds at
/// every phase, the machine runs the whole pipeline in order: create,
/// allocate and bind, write, export, import, read back, re-export, teardown.
/// Every slot but the data check records Success, the data check records
/// Success exactly when the bytes read back decode to the written payload,
/// and the finished case holds no allocation.
pub proof fn lemma_full_round_trip_pipeline(
    s0: CaseRun,
    caps: CapabilitySet,
    type_mask: u32,
    size: u64,
    bytes: Vec<u8>,
)
    requires
        s0.inv(),
        s0.phase is QueryCaps,
        caps.exportable,
        caps.importable,
        caps.exportable_from_imported,
        selected_memory_type(
            type_mask,
            s0.limits.host_visible_types,
            s0.limits.handle_compatible_types,
        ) is Some,
    ensures
        ({
            let (s1, a1) = step_spec(s0, Event::CapabilityAnswer(Some(caps)));
            let (s2, a2) = step_spec(s1, Event::CreateDone { type_mask, size });
            let (s3, a3) = step_spec(s2, Event::AllocateDone);
            let (s4, a4) = step_spec(s3, Event::WriteDone);
            let (s5, a5) = step_spec(s4, Event::ExportDone);
            let (s6, a6) = step_spec(s5, Event::ImportDone);
            let (s7, a7) = step_spec(s6, Event::ReadDone(bytes));
            let (s8, a8) = step_spec(s7, Event::ReExportDone);
            let (s9, a9) = step_spec(s8, Event::TeardownDone);
            &&& s1.branch is FullRoundTrip
            &&& a1 == (Action::CreateResource { padded_len: s0.padded_len })
            &&& a2 matches Action::AllocateBind { size: sz, .. } && sz == size
            &&& a3 == (Action::WritePayload { len: s0.padded_len })
            &&& (a4 is MapForExport || a4 is ExportHandle)
            &&& a5 == Action::ImportHandle
            &&& a6 == (Action::ReadBack { len: s0.padded_len })
            &&& (a7 is MapImported || a7 is ReExportHandle)
            &&& a8 is Teardown
            &&& a9 == Action::Finish
            &&& s9.phase is Done
            &&& s9.results.create_allocate_external_resource is Success
            &&& s9.results.export_memory is Success
            &&& s9.results.import_external_resource is Success
            &&& (s9.results.data_check is Success <==> decoded_payload(bytes@) == Some(
                s0.payload,
            ))
            &&& live_allocations(s9) == 0
        }),
{
}

/// The round-trip law at the read-back step: the data check records Success
/// exactly when the bytes read back decode to the payload the case wrote,
/// and in particular reading back the very bytes that were written — the
/// payload's padded encoding — always records Success.
pub proof fn lemma_data_check_reflects_read_back(s: CaseRun, bytes: Vec<u8>)
    requires
        s.inv(),
        s.phase is Read,
    ensures
        ({
            let s2 = step_spec(s, Event::ReadDone(bytes)).0;
            &&& (s2.results.data_check is Success <==> decoded_payload(bytes@) == Some(s.payload))
            &&& (bytes@ == padded_payload_bytes(s.payload, s.padded_len as int)
                ==> s2.results.data_check is Success)
        }),
{
    lemma_padded_payload_round_trip(s.payload, s.padded_len as int);
}

} // verus!
