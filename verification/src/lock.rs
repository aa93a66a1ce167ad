//! The binary installation lock: mutual exclusion between runs of the
//! worker over one project's install directory.
//!
//! The lock is a sentinel file. Whoever creates it holds the lock; creating
//! it fails while it exists; removing it lets the lock go. Creating and
//! removing the file is the caller's part. This module decides, after each
//! attempt, whether the lock is held, is to be tried for again after a
//! pause, or is given up, under the caller's `Poll`.

use crate::poller::{
    elapsed_since, origin_after, poll_decision, Poll, PollOutcome, PollPolicy, PollStep,
};
use vstd::prelude::*;
use vstd::string::*;

verus! {

/// Why the lock could not be had, or could not be let go.
#[derive(Debug, PartialEq, Eq)]
pub enum LockError {
    /// The sentinel file of `project` was still there at the deadline.
    AcquisitionTimeout { project: String },
    /// The sentinel file of `project` could still not be removed at the
    /// deadline. The lock stays taken and bars every later installation of
    /// the project until someone removes the file.
    ReleaseTimeout { project: String },
}

/// The model of a `LockError`.
pub enum LockErrorView {
    AcquisitionTimeout { project: Seq<char> },
    ReleaseTimeout { project: Seq<char> },
}

impl View for LockError {
    type V = LockErrorView;

    open spec fn view(&self) -> LockErrorView {
        match self {
            LockError::AcquisitionTimeout { project } => LockErrorView::AcquisitionTimeout {
                project: project@,
            },
            LockError::ReleaseTimeout { project } => LockErrorView::ReleaseTimeout {
                project: project@,
            },
        }
    }
}

/// What a `LockError` says in words.
pub open spec fn lock_error_text(error: LockErrorView) -> Seq<char> {
    match error {
        LockErrorView::AcquisitionTimeout { project } => "Lock file could not be created for project "@
            + project + ": it was still present at the deadline"@,
        LockErrorView::ReleaseTimeout { project } => "Lock file could not be released for project "@
            + project + " before the deadline"@,
    }
}

impl LockError {
    /// Says in words what went wrong, naming the project.
    pub fn describe(&self) -> (text: String)
        ensures
            text@ == lock_error_text(self@),
    {
        match self {
            LockError::AcquisitionTimeout { project } => {
                let mut text = String::from_str("Lock file could not be created for project ");
                text.append(project.as_str());
                text.append(": it was still present at the deadline");
                text
            },
            LockError::ReleaseTimeout { project } => {
                let mut text = String::from_str("Lock file could not be released for project ");
                text.append(project.as_str());
                text.append(" before the deadline");
                text
            },
        }
    }
}

/// The lock as held: made by an acquisition and used up by the release.
#[derive(Debug, PartialEq, Eq)]
pub struct LockHandle {
    path: String,
}

impl View for LockHandle {
    type V = Seq<char>;

    /// The path of the sentinel file that this handle's owner created.
    closed spec fn view(&self) -> Seq<char> {
        self.path@
    }
}

impl LockHandle {
    /// The path of the sentinel file.
    pub fn path(&self) -> (path: &str)
        ensures
            path@ == self@,
    {
        self.path.as_str()
    }
}

/// How an acquisition goes on after one attempt to create the sentinel file.
#[derive(Debug, PartialEq, Eq)]
pub enum AcquireStep {
    /// The file was created: the lock is held.
    Acquired(LockHandle),
    /// The file was there already: pause, then try to create it again.
    Retry { delay_ms: u64 },
    /// The file was there already and the deadline has passed.
    Failed(LockError),
}

/// The model of an `AcquireStep`.
pub enum AcquireStepView {
    Acquired(Seq<char>),
    Retry { delay_ms: u64 },
    Failed(LockErrorView),
}

impl View for AcquireStep {
    type V = AcquireStepView;

    open spec fn view(&self) -> AcquireStepView {
        match self {
            AcquireStep::Acquired(handle) => AcquireStepView::Acquired(handle@),
            AcquireStep::Retry { delay_ms } => AcquireStepView::Retry { delay_ms: *delay_ms },
            AcquireStep::Failed(error) => AcquireStepView::Failed(error@),
        }
    }
}

/// How a release goes on after one attempt to remove the sentinel file.
#[derive(Debug, PartialEq, Eq)]
pub enum ReleaseStep {
    /// The file was removed: the lock is free.
    Released,
    /// The file could not be removed: pause, then try to remove it again.
    Retry { handle: LockHandle, delay_ms: u64 },
    /// The file could not be removed and the deadline has passed.
    Failed(LockError),
}

/// The model of a `ReleaseStep`.
pub enum ReleaseStepView {
    Released,
    Retry { handle: Seq<char>, delay_ms: u64 },
    Failed(LockErrorView),
}

impl View for ReleaseStep {
    type V = ReleaseStepView;

    open spec fn view(&self) -> ReleaseStepView {
        match self {
            ReleaseStep::Released => ReleaseStepView::Released,
            ReleaseStep::Retry { handle, delay_ms } => ReleaseStepView::Retry {
                handle: handle@,
                delay_ms: *delay_ms,
            },
            ReleaseStep::Failed(error) => ReleaseStepView::Failed(error@),
        }
    }
}

/// What an attempt to create the sentinel file at `path` amounts to for
/// `project`, where the wait decided `decision`.
pub open spec fn acquisition(project: Seq<char>, path: Seq<char>, decision: PollStep)
    -> AcquireStepView {
    match decision {
        PollStep::Done(PollOutcome::Converged) => AcquireStepView::Acquired(path),
        PollStep::Done(PollOutcome::TimedOut) => AcquireStepView::Failed(
            LockErrorView::AcquisitionTimeout { project },
        ),
        PollStep::Sleep(delay_ms) => AcquireStepView::Retry { delay_ms },
    }
}

/// What an attempt to remove the sentinel file at `path` amounts to for
/// `project`, where the wait decided `decision`.
pub open spec fn release(project: Seq<char>, path: Seq<char>, decision: PollStep)
    -> ReleaseStepView {
    match decision {
        PollStep::Done(PollOutcome::Converged) => ReleaseStepView::Released,
        PollStep::Done(PollOutcome::TimedOut) => ReleaseStepView::Failed(
            LockErrorView::ReleaseTimeout { project },
        ),
        PollStep::Sleep(delay_ms) => ReleaseStepView::Retry { handle: path, delay_ms },
    }
}

/// Decides how the acquisition of the lock at `path` goes on after an
/// attempt, made when the clock read `now_ms`, to create the sentinel file
/// if it was not there: `created` says whether that made the file.
///
/// The lock is held exactly when the file was created, whatever the time.
/// Each further attempt creates the file anew in the same way, so that no
/// one else can slip in between a look at the file and its creation.
pub fn acquire_step(poll: &mut Poll, project: &str, path: &str, created: bool, now_ms: u64) -> (step:
    AcquireStep)
    ensures
        step@ == acquisition(
            project@,
            path@,
            poll_decision(old(poll).policy, elapsed_since(old(poll).origin, now_ms), created),
        ),
        *final(poll) == (Poll {
            policy: old(poll).policy,
            origin: origin_after(old(poll).origin, now_ms),
        }),
        step is Acquired <==> created,
{
    match poll.observe(now_ms, created) {
        PollStep::Done(PollOutcome::Converged) => AcquireStep::Acquired(
            LockHandle { path: String::from_str(path) },
        ),
        PollStep::Done(PollOutcome::TimedOut) => AcquireStep::Failed(
            LockError::AcquisitionTimeout { project: String::from_str(project) },
        ),
        PollStep::Sleep(delay_ms) => AcquireStep::Retry { delay_ms },
    }
}

/// Decides how the release of a held lock goes on after an attempt, made
/// when the clock read `now_ms`, to remove the sentinel file: `removed`
/// says whether the file is gone.
///
/// The handle comes back with `Retry` and with nothing else: a lock that
/// was let go, or given up, cannot be let go again.
pub fn release_step(poll: &mut Poll, handle: LockHandle, project: &str, removed: bool, now_ms: u64) -> (step:
    ReleaseStep)
    ensures
        step@ == release(
            project@,
            handle@,
            poll_decision(old(poll).policy, elapsed_since(old(poll).origin, now_ms), removed),
        ),
        *final(poll) == (Poll {
            policy: old(poll).policy,
            origin: origin_after(old(poll).origin, now_ms),
        }),
        step is Released <==> removed,
{
    match poll.observe(now_ms, removed) {
        PollStep::Done(PollOutcome::Converged) => ReleaseStep::Released,
        PollStep::Done(PollOutcome::TimedOut) => ReleaseStep::Failed(
            LockError::ReleaseTimeout { project: String::from_str(project) },
        ),
        PollStep::Sleep(delay_ms) => ReleaseStep::Retry { handle, delay_ms },
    }
}

/// What has become of one contender's claim on the lock.
pub enum Claim {
    /// It wants the lock and does not have it.
    Waiting,
    /// It created the sentinel file and has not yet removed it.
    Holding,
    /// It gave up waiting for the lock.
    GaveUp,
    /// It removed the sentinel file.
    Released,
    /// It gave up removing the sentinel file, which is still there.
    Stuck,
}

/// One sentinel file and those who contend for it.
pub struct Contention {
    /// The path of the sentinel file.
    pub path: Seq<char>,
    /// The sentinel file exists.
    pub present: bool,
    /// The claim of each contender.
    pub claims: Seq<Claim>,
}

/// One attempt on the sentinel file by one contender.
pub struct Attempt {
    /// Which contender makes it.
    pub who: int,
    /// The project on whose behalf it is made.
    pub project: Seq<char>,
    /// The time since the contender's first attempt of this kind.
    pub elapsed_ms: int,
    /// For a removal: the file system lets the file be removed.
    pub removable: bool,
}

impl Contention {
    /// The contender `who` has created the sentinel file and not removed it.
    pub open spec fn owns(self, who: int) -> bool {
        0 <= who < self.claims.len() && (self.claims[who] is Holding || self.claims[who] is Stuck)
    }

    /// At most one contender owns the sentinel file, and the file is there
    /// while one does.
    pub open spec fn exclusive(self) -> bool {
        &&& forall|a: int, b: int| self.owns(a) && self.owns(b) ==> a == b
        &&& forall|a: int| self.owns(a) ==> self.present
    }

    /// `count` contenders wait for the lock at `path` and no sentinel file
    /// is there.
    pub open spec fn start(path: Seq<char>, count: nat) -> Contention {
        Contention { path, present: false, claims: Seq::new(count, |i: int| Claim::Waiting) }
    }

    /// The contention after one attempt. A contender that waits tries to
    /// create the file and goes by what `acquisition` makes of it; one
    /// that holds the lock tries to remove the file and goes by what
    /// `release` makes of it. The file system creates the file exactly
    /// when it is absent, and removes a file that is there when it lets it.
    pub open spec fn after(self, policy: PollPolicy, attempt: Attempt) -> Contention {
        let who = attempt.who;
        if !(0 <= who < self.claims.len()) {
            self
        } else {
            match self.claims[who] {
                Claim::Waiting => {
                    let created = !self.present;
                    match acquisition(
                        attempt.project,
                        self.path,
                        poll_decision(policy, attempt.elapsed_ms, created),
                    ) {
                        AcquireStepView::Acquired(_) => Contention {
                            present: true,
                            claims: self.claims.update(who, Claim::Holding),
                            ..self
                        },
                        AcquireStepView::Failed(_) => Contention {
                            claims: self.claims.update(who, Claim::GaveUp),
                            ..self
                        },
                        AcquireStepView::Retry { .. } => self,
                    }
                },
                Claim::Holding => {
                    let removed = self.present && attempt.removable;
                    match release(
                        attempt.project,
                        self.path,
                        poll_decision(policy, attempt.elapsed_ms, removed),
                    ) {
                        ReleaseStepView::Released => Contention {
                            present: false,
                            claims: self.claims.update(who, Claim::Released),
                            ..self
                        },
                        ReleaseStepView::Failed(_) => Contention {
                            claims: self.claims.update(who, Claim::Stuck),
                            ..self
                        },
                        ReleaseStepView::Retry { .. } => self,
                    }
                },
                _ => self,
            }
        }
    }

    /// The contention after the attempts of `schedule`, in order.
    pub open spec fn after_all(self, policy: PollPolicy, schedule: Seq<Attempt>) -> Contention
        decreases schedule.len(),
    {
        if schedule.len() == 0 {
            self
        } else {
            self.after_all(policy, schedule.drop_last()).after(policy, schedule.last())
        }
    }
}

/// One attempt keeps the lock exclusive.
pub proof fn lemma_attempt_keeps_exclusion(before: Contention, policy: PollPolicy, attempt: Attempt)
    requires
        before.exclusive(),
    ensures
        before.after(policy, attempt).exclusive(),
{
    let after = before.after(policy, attempt);
    let who = attempt.who;
    if 0 <= who < before.claims.len() {
        assert forall|a: int| a != who implies after.owns(a) == before.owns(a) by {}
        if before.claims[who] is Holding {
            assert(before.owns(who));
        }
    }
}

/// Mutual exclusion: however the attempts of any number of contenders
/// interleave, no two of them hold the lock at the same time.
pub proof fn lemma_mutual_exclusion(
    path: Seq<char>,
    count: nat,
    policy: PollPolicy,
    schedule: Seq<Attempt>,
    a: int,
    b: int,
)
    requires
        Contention::start(path, count).after_all(policy, schedule).owns(a),
        Contention::start(path, count).after_all(policy, schedule).owns(b),
    ensures
        a == b,
{
    lemma_exclusive_throughout(path, count, policy, schedule);
}

/// The lock is exclusive after every schedule of attempts.
pub proof fn lemma_exclusive_throughout(
    path: Seq<char>,
    count: nat,
    policy: PollPolicy,
    schedule: Seq<Attempt>,
)
    ensures
        Contention::start(path, count).after_all(policy, schedule).exclusive(),
    decreases schedule.len(),
{
    if schedule.len() > 0 {
        lemma_exclusive_throughout(path, count, policy, schedule.drop_last());
        lemma_attempt_keeps_exclusion(
            Contention::start(path, count).after_all(policy, schedule.drop_last()),
            policy,
            schedule.last(),
        );
    }
}

/// While one contender holds the lock, another that tries for it does not
/// get it: it goes on waiting before the deadline, and gives up at the
/// first attempt made at or after it.
pub proof fn lemma_waits_while_held(
    before: Contention,
    policy: PollPolicy,
    attempt: Attempt,
    holder: int,
)
    requires
        before.exclusive(),
        before.owns(holder),
        0 <= attempt.who < before.claims.len(),
        before.claims[attempt.who] is Waiting,
    ensures
        !before.after(policy, attempt).owns(attempt.who),
        before.after(policy, attempt).owns(holder),
        before.after(policy, attempt).claims[attempt.who] is GaveUp <==> attempt.elapsed_ms
            >= policy.deadline_ms,
        before.after(policy, attempt).claims[attempt.who] is Waiting <==> attempt.elapsed_ms
            < policy.deadline_ms,
{
}

/// Once the holder has let the lock go, the next contender that tries for
/// it gets it, at whatever time it tries.
pub proof fn lemma_acquires_once_released(before: Contention, policy: PollPolicy, attempt: Attempt)
    requires
        !before.present,
        0 <= attempt.who < before.claims.len(),
        before.claims[attempt.who] is Waiting,
    ensures
        before.after(policy, attempt).claims[attempt.who] is Holding,
        before.after(policy, attempt).present,
{
}

} // verus!
