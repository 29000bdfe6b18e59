use vstd::prelude::*;
use crate::error::AppError;
use crate::session::BusCall;
use crate::signal::{SignalKind, kind_of, is_retryable, is_terminal};

verus! {

/// Where one enrollment stands.
#[derive(Clone, Copy, Debug, PartialEq, Eq, Structural)]
pub enum EnrollStatus {
    Starting,
    InProgress,
    Completed,
    Failed,
    Cancelled,
}

pub open spec fn is_finished(s: EnrollStatus) -> bool {
    s == EnrollStatus::Completed || s == EnrollStatus::Failed || s == EnrollStatus::Cancelled
}

/// What the observer of an enrollment is told, in order.
#[derive(Debug, PartialEq, Eq)]
pub enum EnrollEvent {
    /// The sensor accepted the start; the number of stages, where known.
    Start(Option<u32>),
    /// A status in the vocabulary that does not end the enrollment, with the
    /// number of stages passed so far.
    Progress(SignalKind, u32),
    /// A status outside the vocabulary, passed on verbatim.
    Notice(String),
    /// The end of the enrollment (`done`): its outcome and the status text.
    Done(EnrollStatus, String),
    /// The end of the enrollment after a failed call.
    Error(AppError),
}

pub open spec fn is_terminal_event(e: EnrollEvent) -> bool {
    e is Done || e is Error
}

/// The outcome of an enrollment that the service ended with this status.
pub open spec fn outcome_of(k: Option<SignalKind>) -> EnrollStatus {
    match k {
        Some(SignalKind::Completed) => EnrollStatus::Completed,
        Some(SignalKind::Cancelled) => EnrollStatus::Cancelled,
        _ => EnrollStatus::Failed,
    }
}

/// The stage count after a status in the vocabulary (or none) arrives: only
/// a passed stage moves it on, and never past the sensor's number of stages.
pub open spec fn next_stage(stage: u32, total: Option<u32>, k: Option<SignalKind>) -> u32 {
    if k == Some(SignalKind::StagePassed) && stage < u32::MAX && match total {
        Some(t) => stage < t,
        None => true,
    } {
        (stage + 1) as u32
    } else {
        stage
    }
}

/// Whether a status, with the service's `done` flag, ends the enrollment.
pub open spec fn ends(k: Option<SignalKind>, done: bool) -> bool {
    done || match k {
        Some(kk) => is_terminal(kk),
        None => false,
    }
}

/// The number of stages that the sensor reports, where it reports a
/// positive one.
pub fn stage_count(reported: i32) -> (r: Option<u32>)
    ensures
        reported > 0 ==> r == Some(reported as u32),
        reported <= 0 ==> r is None,
{
    if reported > 0 {
        Some(reported as u32)
    } else {
        None
    }
}

/// What one step asks of the service, in order, and tells the observer.
pub struct Step {
    pub calls: Vec<BusCall>,
    pub event: Option<EnrollEvent>,
    /// The user's enrolled finger slots are to be listed again, as after a
    /// completed enrollment.
    pub relist: bool,
}

/// One enrollment of one finger slot of one user.
pub struct EnrollmentAttempt {
    username: String,
    finger: String,
    total: Option<u32>,
    stage: u32,
    status: EnrollStatus,
    claim_pending: bool,
    claimed: bool,
    claims: Ghost<nat>,
    releases: Ghost<nat>,
    log: Ghost<Seq<EnrollEvent>>,
}

impl EnrollmentAttempt {
    pub closed spec fn spec_username(&self) -> String {
        self.username
    }

    pub closed spec fn spec_finger(&self) -> String {
        self.finger
    }

    pub closed spec fn spec_total(&self) -> Option<u32> {
        self.total
    }

    pub closed spec fn spec_stage(&self) -> u32 {
        self.stage
    }

    pub closed spec fn spec_status(&self) -> EnrollStatus {
        self.status
    }

    /// The reply to the claim is still awaited.
    pub closed spec fn spec_claim_pending(&self) -> bool {
        self.claim_pending
    }

    /// The device is held by this enrollment.
    pub closed spec fn spec_claimed(&self) -> bool {
        self.claimed
    }

    /// Successful claims so far.
    pub closed spec fn claims(&self) -> nat {
        self.claims@
    }

    /// Release calls issued so far.
    pub closed spec fn releases(&self) -> nat {
        self.releases@
    }

    /// Every event told to the observer so far.
    pub closed spec fn events(&self) -> Seq<EnrollEvent> {
        self.log@
    }

    pub closed spec fn wf(&self) -> bool {
        &&& self.claims@ == self.releases@ + (if self.claimed { 1nat } else { 0nat })
        &&& self.claims@ <= 1
        &&& is_finished(self.status) ==> !self.claimed
        &&& self.status == EnrollStatus::InProgress ==> self.claimed
        &&& self.claimed ==> !self.claim_pending
        &&& self.claim_pending ==> self.claims@ == 0
        &&& (self.total matches Some(t) ==> self.stage <= t)
        &&& (!is_finished(self.status) ==> forall|i: int|
            0 <= i < self.log@.len() ==> !is_terminal_event(#[trigger] self.log@[i]))
        &&& (is_finished(self.status) ==> {
            &&& self.log@.len() > 0
            &&& is_terminal_event(self.log@.last())
            &&& forall|i: int|
                0 <= i < self.log@.len() - 1 ==> !is_terminal_event(#[trigger] self.log@[i])
        })
    }

    /// The step's event, if any, is appended to the log.
    pub open spec fn logged(&self, old_log: Seq<EnrollEvent>, event: Option<EnrollEvent>) -> bool {
        match event {
            Some(e) => self.events() == old_log.push(e),
            None => self.events() == old_log,
        }
    }

    /// A new enrollment of `finger` for `username`, with the sensor's number
    /// of stages where it reports one.
    pub fn new(username: String, finger: String, total: Option<u32>) -> (r: EnrollmentAttempt)
        ensures
            r.wf(),
            r.spec_username() == username,
            r.spec_finger() == finger,
            r.spec_total() == total,
            r.spec_stage() == 0,
            r.spec_status() == EnrollStatus::Starting,
            !r.spec_claimed(),
            !r.spec_claim_pending(),
            r.claims() == 0,
            r.releases() == 0,
            r.events() == Seq::<EnrollEvent>::empty(),
    {
        EnrollmentAttempt {
            username,
            finger,
            total,
            stage: 0,
            status: EnrollStatus::Starting,
            claim_pending: false,
            claimed: false,
            claims: Ghost(0),
            releases: Ghost(0),
            log: Ghost(Seq::empty()),
        }
    }

    /// Asks for the device: the first call of an enrollment.
    pub fn begin(&mut self) -> (r: BusCall)
        requires
            old(self).wf(),
            old(self).spec_status() == EnrollStatus::Starting,
            !old(self).spec_claimed(),
            !old(self).spec_claim_pending(),
            old(self).claims() == 0,
        ensures
            final(self).wf(),
            r == BusCall::Claim,
            final(self).spec_claim_pending(),
            final(self).spec_status() == old(self).spec_status(),
            final(self).spec_stage() == old(self).spec_stage(),
            final(self).spec_total() == old(self).spec_total(),
            final(self).spec_finger() == old(self).spec_finger(),
            final(self).spec_username() == old(self).spec_username(),
            !final(self).spec_claimed(),
            final(self).claims() == old(self).claims(),
            final(self).releases() == old(self).releases(),
            final(self).events() == old(self).events(),
    {
        self.claim_pending = true;
        BusCall::Claim
    }

    /// The reply to the claim. A granted claim starts the enrollment, or is
    /// released at once if the enrollment was stopped meanwhile; a refused
    /// one ends the enrollment with the error.
    pub fn on_claim(&mut self, reply: Result<(), AppError>) -> (r: Step)
        requires
            old(self).wf(),
            old(self).spec_claim_pending(),
        ensures
            final(self).wf(),
            !final(self).spec_claim_pending(),
            !r.relist,
            final(self).logged(old(self).events(), r.event),
            final(self).spec_stage() == old(self).spec_stage(),
            final(self).spec_total() == old(self).spec_total(),
            final(self).spec_finger() == old(self).spec_finger(),
            final(self).spec_username() == old(self).spec_username(),
            old(self).spec_status() == EnrollStatus::Starting ==> match reply {
                Ok(_) => {
                    &&& final(self).spec_claimed()
                    &&& final(self).spec_status() == EnrollStatus::Starting
                    &&& r.calls@ == seq![BusCall::EnrollStart(old(self).spec_finger())]
                    &&& r.event is None
                },
                Err(e) => {
                    &&& !final(self).spec_claimed()
                    &&& final(self).spec_status() == EnrollStatus::Failed
                    &&& r.calls@.len() == 0
                    &&& r.event == Some(EnrollEvent::Error(e))
                },
            },
            old(self).spec_status() != EnrollStatus::Starting ==> {
                &&& !final(self).spec_claimed()
                &&& final(self).spec_status() == old(self).spec_status()
                &&& r.event is None
                &&& r.calls@ == (if reply is Ok {
                    seq![BusCall::Release]
                } else {
                    Seq::<BusCall>::empty()
                })
            },
    {
        self.claim_pending = false;
        let ghost old_log = self.log@;
        match reply {
            Ok(()) => {
                if matches!(self.status, EnrollStatus::Starting) {
                    self.claimed = true;
                    self.claims = Ghost(self.claims@ + 1);
                    let calls = vec![BusCall::EnrollStart(self.finger.clone())];
                    Step { calls, event: None, relist: false }
                } else {
                    self.claims = Ghost(self.claims@ + 1);
                    self.releases = Ghost(self.releases@ + 1);
                    Step { calls: vec![BusCall::Release], event: None, relist: false }
                }
            },
            Err(e) => {
                if matches!(self.status, EnrollStatus::Starting) {
                    self.status = EnrollStatus::Failed;
                    let ghost ev = EnrollEvent::Error(e);
                    self.log = Ghost(old_log.push(ev));
                    Step { calls: Vec::new(), event: Some(EnrollEvent::Error(e)), relist: false }
                } else {
                    Step { calls: Vec::new(), event: None, relist: false }
                }
            },
        }
    }

    /// The reply to the start of the enrollment: the observer learns of the
    /// start, or of the error, after which the device is released.
    pub fn on_start(&mut self, reply: Result<(), AppError>) -> (r: Step)
        requires
            old(self).wf(),
        ensures
            final(self).wf(),
            !r.relist,
            final(self).logged(old(self).events(), r.event),
            final(self).spec_claim_pending() == old(self).spec_claim_pending(),
            final(self).spec_stage() == old(self).spec_stage(),
            final(self).spec_total() == old(self).spec_total(),
            final(self).spec_finger() == old(self).spec_finger(),
            final(self).spec_username() == old(self).spec_username(),
            (old(self).spec_status() == EnrollStatus::Starting && old(self).spec_claimed()) ==> match reply {
                Ok(_) => {
                    &&& final(self).spec_claimed()
                    &&& final(self).spec_status() == EnrollStatus::InProgress
                    &&& r.calls@.len() == 0
                    &&& r.event == Some(EnrollEvent::Start(old(self).spec_total()))
                },
                Err(e) => {
                    &&& !final(self).spec_claimed()
                    &&& final(self).spec_status() == EnrollStatus::Failed
                    &&& r.calls@ == seq![BusCall::Release]
                    &&& r.event == Some(EnrollEvent::Error(e))
                },
            },
            !(old(self).spec_status() == EnrollStatus::Starting && old(self).spec_claimed()) ==> {
                &&& final(self).spec_claimed() == old(self).spec_claimed()
                &&& final(self).spec_status() == old(self).spec_status()
                &&& r.calls@.len() == 0
                &&& r.event is None
            },
    {
        if !(matches!(self.status, EnrollStatus::Starting) && self.claimed) {
            return Step { calls: Vec::new(), event: None, relist: false };
        }
        let ghost old_log = self.log@;
        match reply {
            Ok(()) => {
                self.status = EnrollStatus::InProgress;
                let ev = EnrollEvent::Start(self.total);
                self.log = Ghost(old_log.push(ev));
                Step { calls: Vec::new(), event: Some(ev), relist: false }
            },
            Err(e) => {
                self.status = EnrollStatus::Failed;
                self.claimed = false;
                self.releases = Ghost(self.releases@ + 1);
                let ev = EnrollEvent::Error(e);
                self.log = Ghost(old_log.push(ev));
                Step { calls: vec![BusCall::Release], event: Some(ev), relist: false }
            },
        }
    }

    /// A status from the service, with its `done` flag. While the device is
    /// held, a terminal status, or `done`, stops the enrollment, releases the
    /// device and ends the stream; a completed enrollment also asks for the
    /// enrolled slots to be listed again. While the enrollment runs, a passed
    /// stage moves the count on; another status of the vocabulary is
    /// reported with the count; one outside it is passed on verbatim.
    /// Otherwise nothing happens.
    pub fn on_signal(&mut self, status: &str, done: bool) -> (r: Step)
        requires
            old(self).wf(),
        ensures
            final(self).wf(),
            final(self).logged(old(self).events(), r.event),
            final(self).spec_claim_pending() == old(self).spec_claim_pending(),
            final(self).spec_total() == old(self).spec_total(),
            final(self).spec_finger() == old(self).spec_finger(),
            final(self).spec_username() == old(self).spec_username(),
            (old(self).spec_claimed() && ends(kind_of(status@), done)) ==> {
                &&& final(self).spec_status() == outcome_of(kind_of(status@))
                &&& !final(self).spec_claimed()
                &&& final(self).spec_stage() == old(self).spec_stage()
                &&& r.calls@ == seq![BusCall::EnrollStop, BusCall::Release]
                &&& r.event matches Some(EnrollEvent::Done(o, t)) && o == outcome_of(
                    kind_of(status@),
                ) && t@ == status@
                &&& r.relist == (outcome_of(kind_of(status@)) == EnrollStatus::Completed)
            },
            (old(self).spec_status() == EnrollStatus::InProgress && !ends(kind_of(status@), done))
                ==> {
                &&& final(self).spec_status() == EnrollStatus::InProgress
                &&& final(self).spec_claimed()
                &&& final(self).spec_stage() == next_stage(
                    old(self).spec_stage(),
                    old(self).spec_total(),
                    kind_of(status@),
                )
                &&& r.calls@.len() == 0
                &&& !r.relist
                &&& match kind_of(status@) {
                    Some(kk) => r.event == Some(EnrollEvent::Progress(kk, final(self).spec_stage())),
                    None => r.event matches Some(EnrollEvent::Notice(t)) && t@ == status@,
                }
            },
            (!(old(self).spec_claimed() && ends(kind_of(status@), done)) && old(self).spec_status()
                != EnrollStatus::InProgress) ==> {
                &&& final(self).spec_status() == old(self).spec_status()
                &&& final(self).spec_claimed() == old(self).spec_claimed()
                &&& final(self).spec_stage() == old(self).spec_stage()
                &&& r.calls@.len() == 0
                &&& r.event is None
                &&& !r.relist
            },
    {
        let ghost old_log = self.log@;
        let k = SignalKind::parse(status);
        let terminal = match k {
            Some(kk) => kk.terminal(),
            None => false,
        };
        if self.claimed && (done || terminal) {
            let outcome = match k {
                Some(SignalKind::Completed) => EnrollStatus::Completed,
                Some(SignalKind::Cancelled) => EnrollStatus::Cancelled,
                _ => EnrollStatus::Failed,
            };
            self.status = outcome;
            self.claimed = false;
            self.releases = Ghost(self.releases@ + 1);
            let ev = EnrollEvent::Done(outcome, String::from_str(status));
            self.log = Ghost(old_log.push(ev));
            let relist = matches!(outcome, EnrollStatus::Completed);
            return Step { calls: vec![BusCall::EnrollStop, BusCall::Release], event: Some(ev), relist };
        }
        if !matches!(self.status, EnrollStatus::InProgress) || done || terminal {
            return Step { calls: Vec::new(), event: None, relist: false };
        }
        match k {
            Some(kk) => {
                if matches!(kk, SignalKind::StagePassed) && self.stage < u32::MAX && match self.total {
                    Some(t) => self.stage < t,
                    None => true,
                } {
                    self.stage = self.stage + 1;
                }
                let ev = EnrollEvent::Progress(kk, self.stage);
                self.log = Ghost(old_log.push(ev));
                Step { calls: Vec::new(), event: Some(ev), relist: false }
            },
            None => {
                let ev = EnrollEvent::Notice(String::from_str(status));
                self.log = Ghost(old_log.push(ev));
                Step { calls: Vec::new(), event: Some(ev), relist: false }
            },
        }
    }

    /// A stop request. While the enrollment is starting or running it asks
    /// the service to stop, releases the device if it is held, and ends the
    /// stream as cancelled, whatever the number of stages passed; after the
    /// end it does nothing.
    pub fn stop(&mut self) -> (r: Step)
        requires
            old(self).wf(),
        ensures
            final(self).wf(),
            !r.relist,
            final(self).logged(old(self).events(), r.event),
            final(self).spec_claim_pending() == old(self).spec_claim_pending(),
            final(self).spec_stage() == old(self).spec_stage(),
            final(self).spec_total() == old(self).spec_total(),
            final(self).spec_finger() == old(self).spec_finger(),
            final(self).spec_username() == old(self).spec_username(),
            !is_finished(old(self).spec_status()) ==> {
                &&& final(self).spec_status() == EnrollStatus::Cancelled
                &&& !final(self).spec_claimed()
                &&& r.calls@ == (if old(self).spec_claimed() {
                    seq![BusCall::EnrollStop, BusCall::Release]
                } else {
                    Seq::<BusCall>::empty()
                })
                &&& r.event matches Some(EnrollEvent::Done(o, t)) && o == EnrollStatus::Cancelled
                    && t@ == "enroll-cancelled"@
            },
            is_finished(old(self).spec_status()) ==> {
                &&& final(self).spec_status() == old(self).spec_status()
                &&& !final(self).spec_claimed()
                &&& r.calls@.len() == 0
                &&& r.event is None
            },
    {
        if matches!(self.status, EnrollStatus::Completed | EnrollStatus::Failed | EnrollStatus::Cancelled) {
            return Step { calls: Vec::new(), event: None, relist: false };
        }
        let ghost old_log = self.log@;
        let calls = if self.claimed {
            self.releases = Ghost(self.releases@ + 1);
            vec![BusCall::EnrollStop, BusCall::Release]
        } else {
            Vec::new()
        };
        self.claimed = false;
        self.status = EnrollStatus::Cancelled;
        let ev = EnrollEvent::Done(EnrollStatus::Cancelled, String::from_str("enroll-cancelled"));
        self.log = Ghost(old_log.push(ev));
        Step { calls, event: Some(ev), relist: false }
    }

    /// The number of stages passed so far.
    pub fn current_stage(&self) -> (r: u32)
        ensures
            r == self.spec_stage(),
    {
        self.stage
    }

    /// The number of stages, where the sensor reports one.
    pub fn total_stages(&self) -> (r: Option<u32>)
        ensures
            r == self.spec_total(),
    {
        self.total
    }

    /// Where the enrollment stands.
    pub fn status(&self) -> (r: EnrollStatus)
        ensures
            r == self.spec_status(),
    {
        self.status
    }

    /// Whether the device is held.
    pub fn is_claimed(&self) -> (r: bool)
        ensures
            r == self.spec_claimed(),
    {
        self.claimed
    }
}

} // verus!

verus! {

/// The stage count never goes down, only a passed stage moves it on, by
/// one, a scan to retry leaves it as it is, and it never passes the
/// sensor's number of stages.
pub proof fn lemma_stage_monotone(stage: u32, total: Option<u32>, k: Option<SignalKind>)
    requires
        total matches Some(t) ==> stage <= t,
    ensures
        next_stage(stage, total, k) >= stage,
        next_stage(stage, total, k) <= stage + 1,
        next_stage(stage, total, k) != stage ==> k == Some(SignalKind::StagePassed),
        (k matches Some(kk) && is_retryable(kk)) ==> next_stage(stage, total, k) == stage,
        total matches Some(t) ==> next_stage(stage, total, k) <= t,
{
}

/// An enrollment tells its observer of at most one end, and nothing after
/// it: the log holds one terminal event exactly when the enrollment has
/// ended, and that event is the last.
pub proof fn lemma_single_terminal(a: &EnrollmentAttempt)
    requires
        a.wf(),
    ensures
        forall|i: int, j: int|
            0 <= i < a.events().len() && 0 <= j < a.events().len() && is_terminal_event(
                #[trigger] a.events()[i],
            ) && is_terminal_event(#[trigger] a.events()[j]) ==> i == j,
        forall|i: int|
            0 <= i < a.events().len() && is_terminal_event(#[trigger] a.events()[i]) ==> i
                == a.events().len() - 1,
        is_finished(a.spec_status()) <==> (a.events().len() > 0 && is_terminal_event(
            a.events().last(),
        )),
{
}

/// Once an enrollment has ended and no claim is awaited, every claim it
/// obtained has been released exactly once.
pub proof fn lemma_enroll_release(a: &EnrollmentAttempt)
    requires
        a.wf(),
        is_finished(a.spec_status()),
    ensures
        !a.spec_claimed(),
        a.releases() == a.claims(),
        a.claims() <= 1,
{
}

} // verus!
