use vstd::prelude::*;
use crate::error::AppError;
use crate::finger::{Finger, finger_id};

verus! {

/// A call to the fingerprint service on a device.
#[derive(Debug, PartialEq, Eq)]
pub enum BusCall {
    Claim,
    Release,
    EnrollStart(String),
    EnrollStop,
    ListFingers(String),
    DeleteFinger(String, String),
    DeleteFingers(String),
}

impl BusCall {
    /// An equal copy of the call.
    pub fn duplicate(&self) -> (r: BusCall)
        ensures
            r == *self,
    {
        match self {
            BusCall::Claim => BusCall::Claim,
            BusCall::Release => BusCall::Release,
            BusCall::EnrollStart(f) => BusCall::EnrollStart(f.clone()),
            BusCall::EnrollStop => BusCall::EnrollStop,
            BusCall::ListFingers(u) => BusCall::ListFingers(u.clone()),
            BusCall::DeleteFinger(u, f) => BusCall::DeleteFinger(u.clone(), f.clone()),
            BusCall::DeleteFingers(u) => BusCall::DeleteFingers(u.clone()),
        }
    }
}

/// Where a scoped operation stands. `Running(i)` waits for the reply to the
/// body's call `i`.
#[derive(Clone, Copy, Debug, PartialEq, Eq, Structural)]
pub enum Phase {
    Idle,
    Claiming,
    Running(usize),
    Releasing,
    Done,
}

/// What the driver of a scoped operation asks for next.
#[derive(Debug, PartialEq, Eq)]
pub enum Next {
    Call(BusCall),
    Finished(Result<Vec<String>, AppError>),
}

/// The calls that run under a claim: neither claims nor releases.
pub open spec fn scoped_body(body: Seq<BusCall>) -> bool {
    forall|i: int|
        0 <= i < body.len() ==> #[trigger] body[i] != BusCall::Claim && body[i] != BusCall::Release
}

/// One operation run under a claim of the device: it claims, runs the calls
/// of its body in order, and releases the device on every path that follows
/// a successful claim, before it hands back the outcome.
pub struct Scope {
    body: Vec<BusCall>,
    phase: Phase,
    outcome: Result<Vec<String>, AppError>,
    claims: Ghost<nat>,
    releases: Ghost<nat>,
}

impl Scope {
    pub closed spec fn spec_body(&self) -> Seq<BusCall> {
        self.body@
    }

    pub closed spec fn spec_phase(&self) -> Phase {
        self.phase
    }

    pub closed spec fn spec_outcome(&self) -> Result<Vec<String>, AppError> {
        self.outcome
    }

    /// Successful claims so far.
    pub closed spec fn claims(&self) -> nat {
        self.claims@
    }

    /// Release calls issued so far.
    pub closed spec fn releases(&self) -> nat {
        self.releases@
    }

    pub open spec fn is_waiting(&self) -> bool {
        match self.spec_phase() {
            Phase::Claiming | Phase::Running(_) | Phase::Releasing => true,
            _ => false,
        }
    }

    /// The device is held exactly while the body runs or the release is
    /// awaited, and released once for the one claim that succeeded.
    pub closed spec fn wf(&self) -> bool {
        &&& scoped_body(self.body@)
        &&& match self.phase {
            Phase::Idle | Phase::Claiming => self.claims@ == 0 && self.releases@ == 0,
            Phase::Running(i) => i < self.body@.len() && self.claims@ == 1 && self.releases@ == 0,
            Phase::Releasing => self.claims@ == 1 && self.releases@ == 1,
            Phase::Done => self.claims@ == self.releases@ && self.claims@ <= 1,
        }
    }

    /// A scoped operation that will run `body` under one claim.
    pub fn new(body: Vec<BusCall>) -> (r: Scope)
        requires
            scoped_body(body@),
        ensures
            r.wf(),
            r.spec_body() == body@,
            r.spec_phase() == Phase::Idle,
            r.claims() == 0,
            r.releases() == 0,
    {
        Scope {
            body,
            phase: Phase::Idle,
            outcome: Ok(Vec::new()),
            claims: Ghost(0),
            releases: Ghost(0),
        }
    }

    /// Lists the finger slots enrolled for one user.
    pub fn list(username: String) -> (r: Scope)
        ensures
            r.wf(),
            r.spec_body() == seq![BusCall::ListFingers(username)],
            r.spec_phase() == Phase::Idle,
    {
        Scope::new(vec![BusCall::ListFingers(username)])
    }

    /// Deletes one finger slot of one user.
    pub fn delete_one(username: String, finger: String) -> (r: Scope)
        ensures
            r.wf(),
            r.spec_body() == seq![BusCall::DeleteFinger(username, finger)],
            r.spec_phase() == Phase::Idle,
    {
        Scope::new(vec![BusCall::DeleteFinger(username, finger)])
    }

    /// Deletes every finger slot of one user.
    pub fn delete_all(username: String) -> (r: Scope)
        ensures
            r.wf(),
            r.spec_body() == seq![BusCall::DeleteFingers(username)],
            r.spec_phase() == Phase::Idle,
    {
        Scope::new(vec![BusCall::DeleteFingers(username)])
    }

    /// Deletes what a page stands for: its finger slot, or every slot of the
    /// user for the page that clears every print.
    pub fn delete_page(username: String, page: Finger) -> (r: Scope)
        ensures
            r.wf(),
            r.spec_phase() == Phase::Idle,
            finger_id(page) matches Some(id) ==> r.spec_body().len() == 1,
            finger_id(page) matches Some(id) ==> (r.spec_body()[0] matches BusCall::DeleteFinger(
                u,
                f,
            ) && u == username && f@ == id),
            finger_id(page) is None ==> r.spec_body() == seq![BusCall::DeleteFingers(username)],
    {
        match page.as_finger_id() {
            Some(id) => Scope::delete_one(username, String::from_str(id)),
            None => Scope::delete_all(username),
        }
    }

    /// Deletes every finger slot of each user in turn, under one claim;
    /// the first failure ends the run and earlier deletions stay done.
    pub fn clear_all_users(usernames: &Vec<String>) -> (r: Scope)
        ensures
            r.wf(),
            r.spec_phase() == Phase::Idle,
            r.spec_body().len() == usernames@.len(),
            forall|i: int|
                0 <= i < usernames@.len() ==> r.spec_body()[i] == BusCall::DeleteFingers(
                    usernames@[i],
                ),
    {
        let mut body: Vec<BusCall> = Vec::new();
        let mut i: usize = 0;
        while i < usernames.len()
            invariant
                i <= usernames@.len(),
                body@.len() == i,
                forall|j: int| 0 <= j < i ==> body@[j] == BusCall::DeleteFingers(usernames@[j]),
            decreases usernames@.len() - i,
        {
            body.push(BusCall::DeleteFingers(usernames[i].clone()));
            i += 1;
        }
        Scope::new(body)
    }

    /// Starts the operation: the first call is always the claim.
    pub fn start(&mut self) -> (r: BusCall)
        requires
            old(self).wf(),
            old(self).spec_phase() == Phase::Idle,
        ensures
            final(self).wf(),
            r == BusCall::Claim,
            final(self).spec_phase() == Phase::Claiming,
            final(self).spec_body() == old(self).spec_body(),
            final(self).claims() == old(self).claims(),
            final(self).releases() == old(self).releases(),
    {
        self.phase = Phase::Claiming;
        BusCall::Claim
    }

    /// The next step once the reply to the pending call has come. A failed
    /// claim finishes at once, with nothing to release; any other failure
    /// stops the body and releases; the release's own failure is ignored.
    pub fn on_reply(&mut self, reply: Result<Vec<String>, AppError>) -> (r: Next)
        requires
            old(self).wf(),
            old(self).is_waiting(),
        ensures
            final(self).wf(),
            final(self).spec_body() == old(self).spec_body(),
            final(self).releases() <= final(self).claims(),
            final(self).releases() == old(self).releases() + (if r == Next::Call(BusCall::Release) {
                1nat
            } else {
                0nat
            }),
            final(self).claims() == old(self).claims() + (if old(self).spec_phase()
                == Phase::Claiming && reply is Ok {
                1nat
            } else {
                0nat
            }),
            old(self).spec_phase() == Phase::Claiming ==> {
                match reply {
                    Err(_) => final(self).spec_phase() == Phase::Done && r == Next::Finished(reply)
                        && final(self).claims() == 0,
                    Ok(_) => final(self).claims() == 1 && if old(self).spec_body().len() == 0 {
                        final(self).spec_phase() == Phase::Releasing && r == Next::Call(
                            BusCall::Release,
                        ) && final(self).spec_outcome() == reply
                    } else {
                        final(self).spec_phase() == Phase::Running(0) && r == Next::Call(
                            old(self).spec_body()[0],
                        )
                    },
                }
            },
            old(self).spec_phase() is Running ==> {
                let i = old(self).spec_phase()->Running_0;
                if reply is Ok && i + 1 < old(self).spec_body().len() {
                    final(self).spec_phase() == Phase::Running((i + 1) as usize) && r == Next::Call(
                        old(self).spec_body()[i + 1],
                    )
                } else {
                    final(self).spec_phase() == Phase::Releasing && r == Next::Call(
                        BusCall::Release,
                    ) && final(self).spec_outcome() == reply
                }
            },
            old(self).spec_phase() == Phase::Releasing ==> final(self).spec_phase() == Phase::Done
                && r == Next::Finished(old(self).spec_outcome()),
    {
        match self.phase {
            Phase::Claiming => {
                if reply.is_err() {
                    self.phase = Phase::Done;
                    Next::Finished(reply)
                } else {
                    self.claims = Ghost(1);
                    if self.body.len() == 0 {
                        self.outcome = reply;
                        self.phase = Phase::Releasing;
                        self.releases = Ghost(1);
                        Next::Call(BusCall::Release)
                    } else {
                        self.phase = Phase::Running(0);
                        Next::Call(self.body[0].duplicate())
                    }
                }
            },
            Phase::Running(i) => {
                let n = self.body.len();
                if reply.is_ok() && i + 1 < n {
                    self.phase = Phase::Running(i + 1);
                    Next::Call(self.body[i + 1].duplicate())
                } else {
                    self.outcome = reply;
                    self.phase = Phase::Releasing;
                    self.releases = Ghost(1);
                    Next::Call(BusCall::Release)
                }
            },
            _ => {
                self.phase = Phase::Done;
                let mut outcome: Result<Vec<String>, AppError> = Ok(Vec::new());
                core::mem::swap(&mut outcome, &mut self.outcome);
                Next::Finished(outcome)
            },
        }
    }
}

/// Every operation that claimed the device has released it exactly once by
/// the time it finishes, whichever path it took and whatever its body (one
/// deletion, or one per user of a clear): `claims` counts the granted
/// claims and `releases` the Release calls handed out, step by step, from
/// the start of the operation; before the end there is never more than one
/// of either.
pub proof fn lemma_scoped_release(s: &Scope)
    requires
        s.wf(),
    ensures
        s.releases() <= s.claims() <= 1,
        s.spec_phase() == Phase::Done ==> s.releases() == s.claims(),
{
}

} // verus!
