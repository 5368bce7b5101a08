use vstd::prelude::*;

verus! {

/// Why a freshly installed driver did not pass verification.
#[derive(Clone, Copy, PartialEq, Eq, Structural, Debug)]
pub enum VerifyFailure {
    /// The driver process did not start, or did not accept connections in time.
    ProcessError,
    /// No automation session could be opened or closed against the driver.
    VerificationError,
}

/// How a verification ended.
#[derive(Clone, Copy, PartialEq, Eq, Structural, Debug)]
pub enum VerifyOutcome {
    Verified,
    Failed(VerifyFailure),
}

/// The step a verification is at. Each step but `Done` is an action for the
/// caller to perform, whose answer (`true` for success) moves it on.
#[derive(Clone, Copy, PartialEq, Eq, Structural, Debug)]
pub enum VerifyStep {
    /// Start the driver as a child process on a local port.
    Launch,
    /// Poll whether the driver accepts connections; `attempt` polls failed so far.
    WaitReady { attempt: u32 },
    /// Open an automation session with the driver's capabilities.
    OpenSession,
    /// Close the session.
    CloseSession,
    /// Terminate the driver process, then end with `outcome`.
    Terminate { outcome: VerifyOutcome },
    /// The verification has ended.
    Done { outcome: VerifyOutcome },
}

/// The step that follows `step` once its action answered `answer`, where at
/// most `max_polls` readiness polls are made.
pub open spec fn verify_next_spec(max_polls: u32, step: VerifyStep, answer: bool) -> VerifyStep {
    match step {
        VerifyStep::Launch => if answer {
            VerifyStep::WaitReady { attempt: 0 }
        } else {
            VerifyStep::Done { outcome: VerifyOutcome::Failed(VerifyFailure::ProcessError) }
        },
        VerifyStep::WaitReady { attempt } => if answer {
            VerifyStep::OpenSession
        } else if attempt + 1 < max_polls {
            VerifyStep::WaitReady { attempt: (attempt + 1) as u32 }
        } else {
            VerifyStep::Terminate { outcome: VerifyOutcome::Failed(VerifyFailure::ProcessError) }
        },
        VerifyStep::OpenSession => if answer {
            VerifyStep::CloseSession
        } else {
            VerifyStep::Terminate { outcome: VerifyOutcome::Failed(VerifyFailure::VerificationError) }
        },
        VerifyStep::CloseSession => if answer {
            VerifyStep::Terminate { outcome: VerifyOutcome::Verified }
        } else {
            VerifyStep::Terminate { outcome: VerifyOutcome::Failed(VerifyFailure::VerificationError) }
        },
        VerifyStep::Terminate { outcome } => VerifyStep::Done { outcome },
        VerifyStep::Done { outcome } => VerifyStep::Done { outcome },
    }
}

/// A step at which the driver process is running.
pub open spec fn process_running(step: VerifyStep) -> bool {
    match step {
        VerifyStep::WaitReady { .. } | VerifyStep::OpenSession | VerifyStep::CloseSession
        | VerifyStep::Terminate { .. } => true,
        _ => false,
    }
}

/// The steps a verification passes through from `step` when its actions
/// answer `answers` in turn, `step` first.
pub open spec fn verify_trace(max_polls: u32, step: VerifyStep, answers: Seq<bool>) -> Seq<VerifyStep>
    decreases answers.len(),
{
    if answers.len() == 0 {
        seq![step]
    } else {
        seq![step] + verify_trace(max_polls, verify_next_spec(max_polls, step, answers[0]), answers.drop_first())
    }
}

impl VerifyStep {
    /// The first step of every verification.
    pub fn start() -> (r: VerifyStep)
        ensures
            r == VerifyStep::Launch,
    {
        VerifyStep::Launch
    }

    /// The step that follows once this step's action answered `answer`.
    pub fn next(self, max_polls: u32, answer: bool) -> (r: VerifyStep)
        ensures
            r == verify_next_spec(max_polls, self, answer),
            process_running(self) && !(r is Done) ==> process_running(r),
            r is Done && !(self is Done) ==> !process_running(self) || self is Terminate,
    {
        match self {
            VerifyStep::Launch => if answer {
                VerifyStep::WaitReady { attempt: 0 }
            } else {
                VerifyStep::Done { outcome: VerifyOutcome::Failed(VerifyFailure::ProcessError) }
            },
            VerifyStep::WaitReady { attempt } => if answer {
                VerifyStep::OpenSession
            } else if attempt < max_polls && attempt + 1 < max_polls {
                VerifyStep::WaitReady { attempt: attempt + 1 }
            } else {
                VerifyStep::Terminate { outcome: VerifyOutcome::Failed(VerifyFailure::ProcessError) }
            },
            VerifyStep::OpenSession => if answer {
                VerifyStep::CloseSession
            } else {
                VerifyStep::Terminate {
                    outcome: VerifyOutcome::Failed(VerifyFailure::VerificationError),
                }
            },
            VerifyStep::CloseSession => if answer {
                VerifyStep::Terminate { outcome: VerifyOutcome::Verified }
            } else {
                VerifyStep::Terminate {
                    outcome: VerifyOutcome::Failed(VerifyFailure::VerificationError),
                }
            },
            VerifyStep::Terminate { outcome } => VerifyStep::Done { outcome },
            VerifyStep::Done { outcome } => VerifyStep::Done { outcome },
        }
    }
}

/// Whenever a verification that has started the driver ends, the step just
/// before the end terminated the driver process: it is never left running,
/// on success or on failure.
pub proof fn driver_is_always_terminated(max_polls: u32, step: VerifyStep, answers: Seq<bool>, i: int)
    requires
        process_running(step),
        0 < i < verify_trace(max_polls, step, answers).len(),
        verify_trace(max_polls, step, answers)[i] is Done,
        !(verify_trace(max_polls, step, answers)[i - 1] is Done),
    ensures
        verify_trace(max_polls, step, answers)[i - 1] is Terminate,
    decreases answers.len(),
{
    let nx = verify_next_spec(max_polls, step, answers[0]);
    let rest = verify_trace(max_polls, nx, answers.drop_first());
    assert(verify_trace(max_polls, step, answers) == seq![step] + rest);
    if i == 1 {
        assert(rest[0] == nx);
    } else {
        if !(nx is Done) {
            driver_is_always_terminated(max_polls, nx, answers.drop_first(), i - 1);
        } else {
            lemma_done_stays(max_polls, nx, answers.drop_first());
        }
    }
}

/// Once a verification is done, further answers change nothing.
pub proof fn lemma_done_stays(max_polls: u32, step: VerifyStep, answers: Seq<bool>)
    requires
        step is Done,
    ensures
        forall|i: int|
            0 <= i < verify_trace(max_polls, step, answers).len() ==> #[trigger] verify_trace(
                max_polls,
                step,
                answers,
            )[i] == step,
        verify_trace(max_polls, step, answers).len() == answers.len() + 1,
    decreases answers.len(),
{
    if answers.len() > 0 {
        lemma_done_stays(max_polls, step, answers.drop_first());
    }
}

/// A driver whose browser cannot be driven fails verification the same way
/// every time: once the session does not open, whatever the later answers,
/// the driver is terminated, the verification never succeeds, and it ends as
/// `VerificationError`.
pub proof fn unusable_browser_fails(max_polls: u32, answers: Seq<bool>)
    requires
        answers.len() > 0,
        !answers[0],
    ensures
        ({
            let t = verify_trace(max_polls, VerifyStep::OpenSession, answers);
            let failed = VerifyOutcome::Failed(VerifyFailure::VerificationError);
            &&& t.len() == answers.len() + 1
            &&& t[1] == VerifyStep::Terminate { outcome: failed }
            &&& forall|i: int| 1 < i < t.len() ==> #[trigger] t[i] == VerifyStep::Done { outcome: failed }
        }),
{
    let failed = VerifyOutcome::Failed(VerifyFailure::VerificationError);
    let a1 = answers.drop_first();
    let t = verify_trace(max_polls, VerifyStep::OpenSession, answers);
    let t1 = verify_trace(max_polls, VerifyStep::Terminate { outcome: failed }, a1);
    assert(t == seq![VerifyStep::OpenSession] + t1);
    if a1.len() > 0 {
        let t2 = verify_trace(max_polls, VerifyStep::Done { outcome: failed }, a1.drop_first());
        lemma_done_stays(max_polls, VerifyStep::Done { outcome: failed }, a1.drop_first());
        assert(t1 == seq![VerifyStep::Terminate { outcome: failed }] + t2);
        assert forall|i: int| 1 < i < t.len() implies #[trigger] t[i] == VerifyStep::Done { outcome: failed } by {
            assert(t[i] == t2[i - 2]);
        }
    }
}

} // verus!
