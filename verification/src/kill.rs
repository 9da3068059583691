//! Victim selection and the signal-escalation protocol.
//!
//! Selection is a single left-to-right reduction over a snapshot of the
//! process table: the held victim is displaced only by a strictly worse
//! process, so the result is the first-seen maximum under the
//! (score, resident-set) order among the eligible entries. The surrounding
//! daemon performs the actual system calls; the decisions they follow are
//! made and proved here.

use vstd::prelude::*;

use crate::error::{Error, Result, EINVAL, EPERM, ESRCH};
use crate::process::{better, eligible, is_untouchable, Process, OOM_SCORE_ADJ_EXEMPT};

verus! {

/// Graceful-terminate signal number (POSIX `SIGTERM`).
pub const SIGTERM: i32 = 15;

/// Forced-kill signal number (POSIX `SIGKILL`).
pub const SIGKILL: i32 = 9;

/// The victim the selection reduction holds after consuming the table `t`:
/// the index of the first-seen entry that is eligible and maximal under the
/// preference order, or `None` when no entry is eligible.
pub open spec fn selected_index(t: Seq<Process>) -> Option<int>
    decreases t.len(),
{
    if t.len() == 0 {
        None
    } else {
        let prefix = t.drop_last();
        let last = t.last();
        match selected_index(prefix) {
            None => if eligible(last) {
                Some(t.len() as int - 1)
            } else {
                None
            },
            Some(i) => if eligible(last) && better(last, prefix[i]) {
                Some(t.len() as int - 1)
            } else {
                Some(i)
            },
        }
    }
}

/// The selection invariant: whenever the reduction holds a victim, that
/// victim is an eligible entry of the table, no eligible entry is strictly
/// preferable to it, and it is strictly preferable to every eligible entry
/// seen before it (exact ties keep the incumbent, so the first-seen maximum
/// wins). When it holds none, the table has no eligible entry at all.
pub proof fn lemma_selected_index_props(t: Seq<Process>)
    ensures
        match selected_index(t) {
            None => forall|i: int| 0 <= i < t.len() ==> !eligible(t[i]),
            Some(k) => {
                &&& 0 <= k < t.len()
                &&& eligible(t[k])
                &&& (forall|i: int|
                    0 <= i < t.len() && eligible(t[i]) ==> !better(t[i], t[k]))
                &&& (forall|i: int| 0 <= i < k && eligible(t[i]) ==> better(t[k], t[i]))
            },
        },
    decreases t.len(),
{
    if t.len() > 0 {
        let prefix = t.drop_last();
        let last = t.last();
        lemma_selected_index_props(prefix);
        assert(forall|i: int| 0 <= i < prefix.len() ==> prefix[i] == t[i]);
        assert(last == t[t.len() - 1]);
    }
}

/// Selection is a function of the table snapshot alone: running it again
/// over an unchanged table yields the same victim.
pub proof fn lemma_selection_idempotent(t1: Seq<Process>, t2: Seq<Process>)
    requires
        t1 == t2,
    ensures
        selected_index(t1) == selected_index(t2),
{
}

/// Walks a snapshot of the process table once, left to right, and returns
/// the process to kill, or `ProcessNotFound` when every entry is rejected.
///
/// A candidate is rejected when it is the init process, carries an
/// untouchable name, owns no user memory (a kernel thread), fails to be a
/// strict improvement over the held victim, or is exempted through the
/// kernel's `oom_score_adj` sentinel; the exemption read comes last, once
/// the candidate has already proven itself a strict improvement.
pub fn choose_victim(table: &Vec<Process>) -> (r: Result<Process>)
    ensures
        match selected_index(table@) {
            Some(k) => r matches Ok(v) && v == table@[k],
            None => r matches Err(e) && e matches Error::ProcessNotFound(c)
                && c@ == "choose_victim"@,
        },
        (r is Err) <==> (forall|i: int| 0 <= i < table@.len() ==> !eligible(table@[i])),
        r matches Ok(v) ==> eligible(v) && (forall|i: int|
            0 <= i < table@.len() && eligible(table@[i]) ==> !better(table@[i], v)),
{
    let n = table.len();
    let mut victim_idx: Option<usize> = None;
    for i in 0..n
        invariant
            n == table@.len(),
            match victim_idx {
                None => selected_index(table@.take(i as int)) is None,
                Some(v) => v < i <= n && selected_index(table@.take(i as int))
                    == Some(v as int),
            },
    {
        let p = &table[i];
        let mut rejected = false;
        if p.pid <= 1 {
            rejected = true;
        } else if is_untouchable(&p.comm) {
            rejected = true;
        } else if p.vm_rss_kib == 0 {
            // A kernel thread: no user memory to reclaim.
            rejected = true;
        } else if let Some(v) = victim_idx {
            let held = &table[v];
            let improves = p.oom_score > held.oom_score
                || (p.oom_score == held.oom_score && p.vm_rss_kib > held.vm_rss_kib);
            if !improves {
                rejected = true;
            }
        }
        if !rejected {
            // Deferred on purpose: only a candidate already on track to
            // become the victim pays for the exemption read.
            if p.oom_score_adj == OOM_SCORE_ADJ_EXEMPT {
                rejected = true;
            }
        }
        if !rejected {
            victim_idx = Some(i);
        }
        proof {
            assert(table@.take(i as int + 1).drop_last() =~= table@.take(i as int));
            assert(table@.take(i as int + 1).last() == table@[i as int]);
        }
    }
    proof {
        assert(table@.take(n as int) =~= table@);
        lemma_selected_index_props(table@);
    }
    match victim_idx {
        Some(v) => Ok(table[v].clone()),
        None => Err(Error::ProcessNotFound("choose_victim")),
    }
}

/// Hard ceiling on liveness polls during one escalation: together with the
/// fixed interval this bounds a termination attempt at about ten seconds.
pub const MAX_POLL_ATTEMPTS: u32 = 20;

/// Fixed sleep between two liveness polls, in milliseconds.
pub const POLL_INTERVAL_MS: u64 = 500;

/// The terminal outcome of one escalation: the victim was seen dead within
/// the attempt budget, or the budget ran out without confirming its death.
#[derive(Clone, Copy, Debug, PartialEq, Eq, Structural)]
pub enum KillOutcome {
    Terminated,
    TimedOut,
}

/// What the caller must do after handing one liveness observation to the
/// escalation state machine.
#[derive(Clone, Copy, Debug, PartialEq, Eq, Structural)]
pub enum PollAction {
    /// The victim is gone: stop polling and report success.
    ReportExit,
    /// Send the forced-kill signal once, then keep polling.
    SendSigkill,
    /// Sleep for the fixed interval and poll again.
    KeepWaiting,
    /// The attempt budget is exhausted: stop polling and report failure.
    ReportTimeout,
}

/// The kill-escalation state machine. The graceful-terminate signal is sent
/// (best-effort) before the machine starts; the machine then consumes one
/// liveness observation per poll and decides when to escalate to the forced
/// kill — exactly once — and when to give up.
pub struct KillEscalation {
    /// Liveness polls consumed so far; never exceeds the attempt budget.
    pub polls_done: u32,
    /// One-shot guard: the forced kill is requested at most once.
    pub sigkill_sent: bool,
    /// Set exactly when the escalation has reached a terminal state.
    pub outcome: Option<KillOutcome>,
}

impl KillEscalation {
    /// Every state the machine can reach: the poll budget is respected, a
    /// running machine past its first poll has already escalated, and a
    /// timeout is only ever declared with the whole budget spent.
    pub open spec fn wf(self) -> bool {
        &&& self.polls_done <= MAX_POLL_ATTEMPTS
        &&& (self.outcome is None ==> self.polls_done < MAX_POLL_ATTEMPTS)
        &&& (self.outcome is None && self.polls_done >= 1 ==> self.sigkill_sent)
        &&& (self.outcome == Some(KillOutcome::TimedOut) ==> self.polls_done
            == MAX_POLL_ATTEMPTS && self.sigkill_sent)
    }

    /// A fresh escalation: nothing polled, nothing escalated.
    pub fn new() -> (s: Self)
        ensures
            s.wf(),
            s.polls_done == 0,
            !s.sigkill_sent,
            s.outcome is None,
    {
        KillEscalation { polls_done: 0, sigkill_sent: false, outcome: None }
    }

    /// Consumes one liveness observation and decides the next step: a dead
    /// victim ends the escalation successfully at once (no signal need ever
    /// have succeeded); a live one triggers the one-shot forced kill first,
    /// then waiting, until the budget is spent and failure is declared.
    pub fn poll(&mut self, alive: bool) -> (a: PollAction)
        requires
            old(self).wf(),
            old(self).outcome is None,
        ensures
            final(self).wf(),
            final(self).polls_done == old(self).polls_done + 1,
            final(self).sigkill_sent == (old(self).sigkill_sent || alive),
            !alive ==> (a == PollAction::ReportExit && final(self).outcome
                == Some(KillOutcome::Terminated)),
            (alive && !old(self).sigkill_sent) ==> (a == PollAction::SendSigkill
                && final(self).outcome is None),
            (alive && old(self).sigkill_sent && old(self).polls_done + 1
                < MAX_POLL_ATTEMPTS) ==> (a == PollAction::KeepWaiting
                && final(self).outcome is None),
            (alive && old(self).sigkill_sent && old(self).polls_done + 1
                == MAX_POLL_ATTEMPTS) ==> (a == PollAction::ReportTimeout
                && final(self).outcome == Some(KillOutcome::TimedOut)),
    {
        self.polls_done = self.polls_done + 1;
        if !alive {
            self.outcome = Some(KillOutcome::Terminated);
            return PollAction::ReportExit;
        }
        if !self.sigkill_sent {
            self.sigkill_sent = true;
            return PollAction::SendSigkill;
        }
        if self.polls_done == MAX_POLL_ATTEMPTS {
            self.outcome = Some(KillOutcome::TimedOut);
            return PollAction::ReportTimeout;
        }
        PollAction::KeepWaiting
    }
}

/// The victim was observed alive at every poll before the `n`-th.
pub open spec fn alive_through(polls: Seq<bool>, n: int) -> bool {
    forall|i: int| 0 <= i < n ==> polls[i]
}

/// What one full escalation did: how it ended, how many polls it consumed,
/// and how many forced-kill sends it requested.
pub struct EscalationReport {
    pub outcome: KillOutcome,
    pub polls_used: u32,
    pub sigkill_sends: u32,
}

/// Drives the escalation state machine against a fixed sequence of liveness
/// observations, one per poll. This is the whole protocol minus the system
/// calls: a victim seen dead at poll `k` ends the run successfully after
/// exactly `k + 1` polls, with the forced kill requested once when the
/// victim survived the first poll and never otherwise; a victim alive
/// through the whole budget ends the run in a timeout after exactly the
/// budgeted number of polls, with the forced kill requested exactly once.
pub fn run_escalation(polls: &Vec<bool>) -> (r: EscalationReport)
    requires
        polls@.len() >= MAX_POLL_ATTEMPTS,
    ensures
        r.sigkill_sends <= 1,
        1 <= r.polls_used <= MAX_POLL_ATTEMPTS,
        alive_through(polls@, MAX_POLL_ATTEMPTS as int) ==> (r.outcome
            == KillOutcome::TimedOut && r.polls_used == MAX_POLL_ATTEMPTS
            && r.sigkill_sends == 1),
        forall|k: int|
            #![trigger polls@[k]]
            (0 <= k < MAX_POLL_ATTEMPTS && !polls@[k] && alive_through(polls@, k)) ==> {
                &&& r.outcome == KillOutcome::Terminated
                &&& r.polls_used == k + 1
                &&& (k == 0 ==> r.sigkill_sends == 0)
                &&& (k > 0 ==> r.sigkill_sends == 1)
            },
{
    let mut st = KillEscalation::new();
    let mut sends: u32 = 0;
    let mut used: u32 = 0;
    loop
        invariant
            st.wf(),
            st.outcome is None,
            st.polls_done == used,
            used < MAX_POLL_ATTEMPTS,
            polls@.len() >= MAX_POLL_ATTEMPTS,
            alive_through(polls@, used as int),
            st.sigkill_sent == (used >= 1),
            used == 0 ==> sends == 0,
            used >= 1 ==> sends == 1,
        decreases MAX_POLL_ATTEMPTS - used,
    {
        let alive = polls[used as usize];
        let a = st.poll(alive);
        used = used + 1;
        match a {
            PollAction::ReportExit => {
                return EscalationReport {
                    outcome: KillOutcome::Terminated,
                    polls_used: used,
                    sigkill_sends: sends,
                };
            },
            PollAction::SendSigkill => {
                sends = sends + 1;
            },
            PollAction::KeepWaiting => {},
            PollAction::ReportTimeout => {
                return EscalationReport {
                    outcome: KillOutcome::TimedOut,
                    polls_used: used,
                    sigkill_sends: sends,
                };
            },
        }
    }
}

/// Maps the raw error code reported by a failed signal send onto the closed
/// four-kind taxonomy of delivery failures. Total: every code outside the
/// three documented ones resolves to the catch-all kind.
pub fn map_kill_errno(code: i32) -> (e: Error)
    ensures
        code == EINVAL ==> e == Error::InvalidSignal,
        code == EPERM ==> e == Error::NoPermission,
        code == ESRCH ==> (e matches Error::ProcessNotFound(c) && c@ == "kill"@),
        code != EINVAL && code != EPERM && code != ESRCH ==> e == Error::UnknownKillError,
{
    if code == EINVAL {
        // An invalid signal was specified.
        Error::InvalidSignal
    } else if code == EPERM {
        // No permission to signal any of the target processes.
        Error::NoPermission
    } else if code == ESRCH {
        // The target process or process group no longer exists.
        Error::ProcessNotFound("kill")
    } else {
        Error::UnknownKillError
    }
}

/// The negated-pid convention: signalling the value `-pgid` addresses every
/// process in the group `pgid` at once.
pub fn group_signal_target(pgid: i32) -> (t: i32)
    requires
        pgid > 1,
    ensures
        t == -pgid,
{
    -pgid
}

} // verus!
