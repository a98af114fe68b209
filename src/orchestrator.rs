use vstd::prelude::*;
use crate::auth::Credentials;
use crate::envelope::PostReference;
use crate::error::LiveblogError;
use crate::guard::{MediaGuard, PlaybackSignal};

verus! {

/// Where a run stands.
#[derive(Clone, Copy, Debug, PartialEq, Eq, Structural)]
pub enum Stage {
    Idle,
    Guarded,
    Capturing,
    Authenticating,
    Publishing,
    Done,
    Failed,
}

/// What the outside world reports back to the run.
pub enum Event {
    /// The run is asked to begin.
    Start,
    /// The pause signal was sent and the settle delay has passed.
    Paused,
    /// Both capture tasks have finished and were joined.
    Collected(Result<(Vec<u8>, String), LiveblogError>),
    /// The backend's authentication has finished.
    Authenticated(Result<Credentials, LiveblogError>),
    /// The backend's publish call has finished.
    Published(Result<PostReference, LiveblogError>),
}

/// What the run asks the outside world to do, in order.
#[derive(Debug)]
pub enum Action {
    /// Send the pause signal, then wait the settle delay.
    Pause,
    /// Start the screenshot and caption tasks at the same time and join them.
    StartTasks,
    /// Load or obtain the backend's credentials.
    Authenticate,
    /// Publish the screenshot and caption with the credentials.
    Publish { screenshot: Vec<u8>, caption: String, credentials: Credentials },
    /// Wait the settle delay, then send the resume signal.
    Resume,
    /// Show the success notification.
    NotifySuccess,
    /// Print the message, show it as an error notification, exit non-zero.
    NotifyError(String),
}

/// How many times a list of actions resumes playback.
pub open spec fn count_resumes(actions: Seq<Action>) -> nat
    decreases actions.len(),
{
    if actions.len() == 0 {
        0
    } else {
        (if actions.last() is Resume {
            1nat
        } else {
            0nat
        }) + count_resumes(actions.drop_last())
    }
}

pub open spec fn is_terminal(s: Stage) -> bool {
    s == Stage::Done || s == Stage::Failed
}

/// One run: media guard, capture, authentication, publication, report.
pub struct Orchestrator {
    stage: Stage,
    guard: Option<MediaGuard>,
    capture: Option<(Vec<u8>, String)>,
    resumes: Ghost<nat>,
}

impl Orchestrator {
    pub closed spec fn stage_spec(&self) -> Stage {
        self.stage
    }

    /// How many resume actions the run has handed out so far.
    pub closed spec fn resumes_spec(&self) -> nat {
        self.resumes@
    }

    /// The screenshot and caption held between capture and publication.
    pub closed spec fn capture_spec(&self) -> Option<(Vec<u8>, String)> {
        self.capture
    }

    /// Playback is paused from the start of the run until it ends, and it is
    /// resumed once, when it ends.
    pub closed spec fn wf(&self) -> bool {
        &&& (self.stage == Stage::Idle) == (self.guard is None)
        &&& self.guard matches Some(g) ==> (g.spec_released() == is_terminal(self.stage))
        &&& self.resumes@ == (if is_terminal(self.stage) {
            1nat
        } else {
            0nat
        })
        &&& (self.stage == Stage::Authenticating) == (self.capture is Some)
    }

    pub fn new() -> (r: Orchestrator)
        ensures
            r.wf(),
            r.stage_spec() == Stage::Idle,
            r.resumes_spec() == 0,
    {
        Orchestrator { stage: Stage::Idle, guard: None, capture: None, resumes: Ghost(0) }
    }

    pub fn stage(&self) -> (r: Stage)
        ensures
            r == self.stage_spec(),
    {
        self.stage
    }

    /// Ends the run: playback is resumed before the outcome is reported on
    /// failure, after it on success.
    fn finish(&mut self, outcome: Result<(), String>) -> (r: Vec<Action>)
        requires
            old(self).wf(),
            !is_terminal(old(self).stage),
            old(self).stage != Stage::Idle,
        ensures
            final(self).wf(),
            final(self).stage == (if outcome is Ok {
                Stage::Done
            } else {
                Stage::Failed
            }),
            final(self).resumes@ == old(self).resumes@ + 1,
            r@ == match outcome {
                Ok(_) => seq![Action::NotifySuccess, Action::Resume],
                Err(m) => seq![Action::Resume, Action::NotifyError(m)],
            },
    {
        let mut g = self.guard.take().unwrap();
        let sig = g.release();
        assert(sig == Some(PlaybackSignal::Resume));
        self.guard = Some(g);
        self.capture = None;
        self.resumes = Ghost(self.resumes@ + 1);
        let mut actions: Vec<Action> = Vec::new();
        match outcome {
            Ok(()) => {
                self.stage = Stage::Done;
                actions.push(Action::NotifySuccess);
                actions.push(Action::Resume);
            },
            Err(m) => {
                self.stage = Stage::Failed;
                actions.push(Action::Resume);
                actions.push(Action::NotifyError(m));
            },
        }
        assert(count_resumes(actions@) == 1) by {
            reveal_with_fuel(count_resumes, 3);
        }
        actions
    }

    /// Advances the run by one event and returns what to do next. The first
    /// failure ends the run; an event that does not fit the stage is ignored.
    pub fn step(&mut self, event: Event) -> (r: Vec<Action>)
        requires
            old(self).wf(),
        ensures
            final(self).wf(),
            final(self).resumes_spec() == old(self).resumes_spec() + count_resumes(r@),
            is_terminal(old(self).stage_spec()) ==> r@.len() == 0 && final(self).stage_spec()
                == old(self).stage_spec(),
            match (old(self).stage_spec(), event) {
                (Stage::Idle, Event::Start) => final(self).stage_spec() == Stage::Guarded && r@
                    == seq![Action::Pause],
                (Stage::Guarded, Event::Paused) => final(self).stage_spec() == Stage::Capturing
                    && r@ == seq![Action::StartTasks],
                (Stage::Capturing, Event::Collected(Ok(pair))) => final(self).stage_spec()
                    == Stage::Authenticating && final(self).capture_spec() == Some(pair) && r@
                    == seq![Action::Authenticate],
                (Stage::Authenticating, Event::Authenticated(Ok(c))) => {
                    final(self).stage_spec() == Stage::Publishing && old(self).capture_spec() is Some
                        && r@ == seq![
                        Action::Publish {
                            screenshot: old(self).capture_spec()->Some_0.0,
                            caption: old(self).capture_spec()->Some_0.1,
                            credentials: c,
                        },
                    ]
                },
                (Stage::Publishing, Event::Published(Ok(_))) => final(self).stage_spec()
                    == Stage::Done && r@ == seq![Action::NotifySuccess, Action::Resume],
                (Stage::Capturing, Event::Collected(Err(e)))
                | (Stage::Authenticating, Event::Authenticated(Err(e)))
                | (Stage::Publishing, Event::Published(Err(e))) => final(self).stage_spec()
                    == Stage::Failed && r@ == seq![Action::Resume, Action::NotifyError(e.message)],
                _ => final(self).stage_spec() == old(self).stage_spec() && r@.len() == 0,
            },
    {
        let mut actions: Vec<Action> = Vec::new();
        proof {
            reveal_with_fuel(count_resumes, 3);
        }
        match self.stage {
            Stage::Idle => {
                if let Event::Start = event {
                    let (g, _sig) = MediaGuard::acquire();
                    self.guard = Some(g);
                    self.stage = Stage::Guarded;
                    actions.push(Action::Pause);
                }
                actions
            },
            Stage::Guarded => {
                if let Event::Paused = event {
                    self.stage = Stage::Capturing;
                    actions.push(Action::StartTasks);
                }
                actions
            },
            Stage::Capturing => match event {
                Event::Collected(Ok(pair)) => {
                    self.capture = Some(pair);
                    self.stage = Stage::Authenticating;
                    actions.push(Action::Authenticate);
                    actions
                },
                Event::Collected(Err(e)) => self.finish(Err(e.message)),
                _ => actions,
            },
            Stage::Authenticating => match event {
                Event::Authenticated(Ok(c)) => {
                    let (screenshot, caption) = self.capture.take().unwrap();
                    self.stage = Stage::Publishing;
                    actions.push(Action::Publish { screenshot, caption, credentials: c });
                    actions
                },
                Event::Authenticated(Err(e)) => self.finish(Err(e.message)),
                _ => actions,
            },
            Stage::Publishing => match event {
                Event::Published(Ok(_)) => self.finish(Ok(())),
                Event::Published(Err(e)) => self.finish(Err(e.message)),
                _ => actions,
            },
            Stage::Done | Stage::Failed => actions,
        }
    }
}

/// Whichever way a run ends, done or failed with any kind of error, it has
/// resumed playback exactly once.
pub proof fn lemma_resume_exactly_once(o: Orchestrator)
    requires
        o.wf(),
        is_terminal(o.stage_spec()),
    ensures
        o.resumes_spec() == 1,
{
}

} // verus!
