//! The reconciliation loop's state machine.
//!
//! The loop owns a remembered record and a remembered IP.  Each cycle probes
//! the current public IP, compares it to the remembered one, and issues an
//! update only on a change; a successful update replaces the remembered
//! state with the provider's echoed record, and a failed one leaves the
//! state untouched so the next cycle retries the same comparison.  The loop
//! has no terminal state: every outcome leads back to waiting for the next
//! poll.

use vstd::prelude::*;
use crate::backends::Record;

verus! {

/// The loop's in-memory session state.
pub struct LoopState {
    pub current_record: Record,
    pub current_ip: String,
}

impl LoopState {
    /// Well-formedness: the remembered IP is the remembered record's content.
    pub open spec fn wf(self) -> bool {
        self.current_ip@ == self.current_record.content@
    }
}

/// What one poll cycle decides from the probe outcome.
pub enum PollDecision {
    /// The probe failed; report it, wait the interval, and retry.
    ProbeFailed,
    /// The probed IP equals the remembered one; no update is issued.
    NoChange,
    /// The probed IP differs: an update with this new content is issued.
    PushUpdate(String),
}

/// Whether a probe outcome makes the loop issue an update.
pub open spec fn spec_issues_update(current_ip: Seq<char>, probe: Option<String>) -> bool {
    probe matches Some(ip) && ip@ != current_ip
}

/// The state after an update outcome is applied: a successful update
/// replaces the record wholesale and remembers the provider's echoed
/// content as the new IP; a failed update leaves the state untouched.
pub open spec fn spec_apply(s: LoopState, result: Option<Record>) -> LoopState {
    match result {
        Some(rec) => LoopState { current_ip: rec.content, current_record: rec },
        None => s,
    }
}

/// The state after one whole poll cycle: the update outcome matters only
/// when the probe made the cycle issue an update at all.
pub open spec fn spec_step(
    s: LoopState,
    probe: Option<String>,
    result: Option<Record>,
) -> LoopState {
    if spec_issues_update(s.current_ip@, probe) {
        spec_apply(s, result)
    } else {
        s
    }
}

/// The state after a run of poll cycles, given each cycle's probe outcome
/// and, for cycles that issued an update, the provider's answer.
pub open spec fn spec_run(
    s: LoopState,
    probes: Seq<Option<String>>,
    results: Seq<Option<Record>>,
) -> LoopState
    recommends
        probes.len() == results.len(),
    decreases probes.len(),
{
    if probes.len() == 0 {
        s
    } else {
        spec_run(spec_step(s, probes[0], results[0]), probes.drop_first(), results.drop_first())
    }
}

/// The state the loop starts from: the record discovery's result, or the
/// empty record when none was found; the remembered IP is the record's
/// content either way (possibly empty).
pub fn initial_state(found: Option<Record>) -> (s: LoopState)
    ensures
        s.wf(),
        match found {
            Some(rec) => s.current_record == rec,
            None => s.current_record.is_absent() && s.current_record.content@
                == Seq::<char>::empty(),
        },
{
    match found {
        Some(rec) => {
            let ip = rec.content.clone();
            LoopState { current_record: rec, current_ip: ip }
        },
        None => LoopState { current_record: Record::default(), current_ip: String::new() },
    }
}

/// Decides one poll cycle from the probe outcome: an update is issued if and
/// only if the probe succeeded and reported an IP different from the
/// remembered one, and the content pushed is exactly the probed IP.
pub fn decide_poll(s: &LoopState, probe: Option<String>) -> (d: PollDecision)
    ensures
        (d is PushUpdate) == spec_issues_update(s.current_ip@, probe),
        d matches PollDecision::PushUpdate(ip) ==> probe == Some(ip) && ip@ != s.current_ip@,
        (d is ProbeFailed) == (probe is None),
        (d is NoChange) == (probe matches Some(ip) && ip@ == s.current_ip@),
{
    match probe {
        Some(ip) => {
            if ip == s.current_ip {
                PollDecision::NoChange
            } else {
                PollDecision::PushUpdate(ip)
            }
        },
        None => PollDecision::ProbeFailed,
    }
}

/// Applies an update outcome to the state, exactly as [`spec_apply`]
/// states: the provider's echoed record and content replace the remembered
/// state on success; nothing changes on failure.
pub fn apply_update(s: &mut LoopState, result: Option<Record>)
    ensures
        *final(s) == spec_apply(*old(s), result),
        old(s).wf() ==> final(s).wf(),
{
    match result {
        Some(rec) => {
            let ip = rec.content.clone();
            s.current_record = rec;
            s.current_ip = ip;
        },
        None => {},
    }
}

/// Idempotence: as long as every probe reports exactly the remembered IP,
/// no cycle issues an update and the state never changes, whatever answers
/// stand ready for updates that were never asked for.
pub proof fn lemma_idempotent_run(
    s: LoopState,
    probes: Seq<Option<String>>,
    results: Seq<Option<Record>>,
)
    requires
        probes.len() == results.len(),
        forall|i: int|
            0 <= i < probes.len() ==> ((#[trigger] probes[i]) matches Some(ip) && ip@
                == s.current_ip@),
    ensures
        forall|i: int|
            0 <= i < probes.len() ==> !spec_issues_update(s.current_ip@, #[trigger] probes[i]),
        spec_run(s, probes, results) == s,
    decreases probes.len(),
{
    if probes.len() > 0 {
        assert(!spec_issues_update(s.current_ip@, probes[0]));
        assert(spec_step(s, probes[0], results[0]) == s);
        assert forall|i: int|
            0 <= i < probes.drop_first().len() implies ((#[trigger] probes.drop_first()[i]) matches Some(
                ip,
            ) && ip@ == s.current_ip@) by {
            assert(probes.drop_first()[i] == probes[i + 1]);
        }
        lemma_idempotent_run(s, probes.drop_first(), results.drop_first());
    }
}

/// Failure containment: a cycle whose update failed — or that issued none —
/// leaves the state exactly as it was, so the next cycle retries the same
/// comparison; no failure ends the loop.
pub proof fn lemma_failed_update_keeps_state(s: LoopState, probe: Option<String>)
    ensures
        spec_step(s, probe, None) == s,
{
}

/// Update propagation: when the probe reports a changed IP, the cycle
/// issues an update, and on success the provider's echoed record is taken
/// wholesale — the remembered IP becomes the echoed content, not the probed
/// IP.
pub proof fn lemma_update_propagation(s: LoopState, probe: Option<String>, rec: Record)
    requires
        spec_issues_update(s.current_ip@, probe),
    ensures
        spec_step(s, probe, Some(rec)).current_record == rec,
        spec_step(s, probe, Some(rec)).current_ip == rec.content,
{
}

/// No-record startup: when discovery found nothing the remembered IP starts
/// empty, so the first probe that reports a non-empty IP issues an update
/// attempt — which is expected to fail harmlessly for the absent record.
pub proof fn lemma_no_record_startup(s: LoopState, probe: Option<String>)
    requires
        s.current_ip@ == Seq::<char>::empty(),
        probe matches Some(ip) && ip@.len() > 0,
    ensures
        spec_issues_update(s.current_ip@, probe),
{
}

} // verus!
