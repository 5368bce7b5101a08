use crate::resolve::ResolveCause;
use vstd::prelude::*;

verus! {

/// The flags that steer an installation.
#[derive(Clone, Copy, PartialEq, Eq, Structural, Debug)]
pub struct InstallOptions {
    /// Replace a driver that is already at the install path.
    pub reinstall: bool,
    /// Create the install path's parent directory where it is missing.
    pub mkdir: bool,
}

/// Why an installation failed.
#[derive(Clone, Copy, PartialEq, Eq, Structural, Debug)]
pub enum InstallFailure {
    /// The parent directory is missing and may not be created.
    DirectoryMissing,
    /// The parent directory could not be created.
    DirectoryCreation,
    /// The remote listing could not be fetched.
    ListingFetch,
    /// No release could be chosen from the remote listing, for this cause.
    Resolution(ResolveCause),
    /// The archive could not be downloaded.
    Network,
    /// The archive holds no entry with the driver's name.
    ArchiveContent,
    /// The extracted driver could not be moved into place or made executable.
    Placement,
}

/// How an installation ended.
#[derive(Clone, Copy, PartialEq, Eq, Structural, Debug)]
pub enum InstallOutcome {
    AlreadyInstalled,
    Installed,
    Failed(InstallFailure),
}

/// The step an installation is at. Each step but `Finished` is an action for
/// the caller to perform, whose answer (`true` for yes, or for success) moves
/// the installation on.
#[derive(Clone, Copy, PartialEq, Eq, Structural, Debug)]
pub enum InstallStep {
    /// Does a file exist at the install path?
    CheckExisting,
    /// Does the install path's parent directory exist?
    CheckParent,
    /// Create the parent directory.
    CreateParent,
    /// Choose a release from the remote listing.
    ResolveVersion,
    /// Download the chosen archive to temporary storage.
    Download,
    /// Extract the driver's entry from the archive to temporary storage.
    Extract,
    /// Move the extracted driver to the install path.
    Place,
    /// Set the driver's execute permission.
    MarkExecutable,
    /// The installation has ended.
    Finished(InstallOutcome),
}

/// The step that follows `step` once its action answered `answer`.
pub open spec fn next_spec(opts: InstallOptions, step: InstallStep, answer: bool) -> InstallStep {
    match step {
        InstallStep::CheckExisting => if answer && !opts.reinstall {
            InstallStep::Finished(InstallOutcome::AlreadyInstalled)
        } else {
            InstallStep::CheckParent
        },
        InstallStep::CheckParent => if answer {
            InstallStep::ResolveVersion
        } else if opts.mkdir {
            InstallStep::CreateParent
        } else {
            InstallStep::Finished(InstallOutcome::Failed(InstallFailure::DirectoryMissing))
        },
        InstallStep::CreateParent => if answer {
            InstallStep::ResolveVersion
        } else {
            InstallStep::Finished(InstallOutcome::Failed(InstallFailure::DirectoryCreation))
        },
        InstallStep::ResolveVersion => if answer {
            InstallStep::Download
        } else {
            InstallStep::Finished(InstallOutcome::Failed(InstallFailure::ListingFetch))
        },
        InstallStep::Download => if answer {
            InstallStep::Extract
        } else {
            InstallStep::Finished(InstallOutcome::Failed(InstallFailure::Network))
        },
        InstallStep::Extract => if answer {
            InstallStep::Place
        } else {
            InstallStep::Finished(InstallOutcome::Failed(InstallFailure::ArchiveContent))
        },
        InstallStep::Place => if answer {
            InstallStep::MarkExecutable
        } else {
            InstallStep::Finished(InstallOutcome::Failed(InstallFailure::Placement))
        },
        InstallStep::MarkExecutable => if answer {
            InstallStep::Finished(InstallOutcome::Installed)
        } else {
            InstallStep::Finished(InstallOutcome::Failed(InstallFailure::Placement))
        },
        InstallStep::Finished(o) => InstallStep::Finished(o),
    }
}

/// The steps an installation passes through from `step` when its actions
/// answer `answers` in turn, `step` first.
pub open spec fn trace(opts: InstallOptions, step: InstallStep, answers: Seq<bool>) -> Seq<InstallStep>
    decreases answers.len(),
{
    if answers.len() == 0 {
        seq![step]
    } else {
        seq![step] + trace(opts, next_spec(opts, step, answers[0]), answers.drop_first())
    }
}

/// The step at which an installation stands after the answers `answers`.
pub open spec fn run(opts: InstallOptions, answers: Seq<bool>) -> InstallStep {
    trace(opts, InstallStep::CheckExisting, answers).last()
}

/// The step's action changes the file system.
pub open spec fn mutates(step: InstallStep) -> bool {
    match step {
        InstallStep::CreateParent | InstallStep::Place | InstallStep::MarkExecutable => true,
        _ => false,
    }
}

/// The text reported when no release could be chosen.
pub open spec fn resolution_message_spec(cause: ResolveCause) -> Seq<char> {
    match cause {
        ResolveCause::EmptyListing => "The driver listing is empty.\n"@,
        ResolveCause::NoMatchingVersion => "No driver release matches the browser.\n"@,
        ResolveCause::BadPattern => "The driver listing's pattern does not compile.\n"@,
        ResolveCause::NoVersions => "The driver listing names no release.\n"@,
        ResolveCause::Unparsable => "No version in the driver listing parses.\n"@,
    }
}

pub fn resolution_message(cause: ResolveCause) -> (r: &'static str)
    ensures
        r@ == resolution_message_spec(cause),
{
    match cause {
        ResolveCause::EmptyListing => "The driver listing is empty.\n",
        ResolveCause::NoMatchingVersion => "No driver release matches the browser.\n",
        ResolveCause::BadPattern => "The driver listing's pattern does not compile.\n",
        ResolveCause::NoVersions => "The driver listing names no release.\n",
        ResolveCause::Unparsable => "No version in the driver listing parses.\n",
    }
}

/// The step that follows `step` when the choice of a release failed with
/// `cause`: at `ResolveVersion` the installation fails with that cause, and
/// nothing happens at any other step.
pub open spec fn unresolved_spec(step: InstallStep, cause: ResolveCause) -> InstallStep {
    match step {
        InstallStep::ResolveVersion => InstallStep::Finished(
            InstallOutcome::Failed(InstallFailure::Resolution(cause)),
        ),
        _ => step,
    }
}

/// The text reported for an outcome.
pub open spec fn message_spec(outcome: InstallOutcome) -> Seq<char> {
    match outcome {
        InstallOutcome::AlreadyInstalled => "Driver already installed.\n"@,
        InstallOutcome::Installed => "Driver installed successfully.\n"@,
        InstallOutcome::Failed(InstallFailure::DirectoryMissing) => "The driver's directory does not exist.\n"@,
        InstallOutcome::Failed(InstallFailure::DirectoryCreation) => "The driver's directory could not be created.\n"@,
        InstallOutcome::Failed(InstallFailure::ListingFetch) => "The driver listing could not be fetched.\n"@,
        InstallOutcome::Failed(InstallFailure::Resolution(cause)) => resolution_message_spec(cause),
        InstallOutcome::Failed(InstallFailure::Network) => "The driver could not be downloaded.\n"@,
        InstallOutcome::Failed(InstallFailure::ArchiveContent) => "The archive holds no driver.\n"@,
        InstallOutcome::Failed(InstallFailure::Placement) => "The driver could not be put in place.\n"@,
    }
}

impl InstallStep {
    /// The first step of every installation.
    pub fn start() -> (r: InstallStep)
        ensures
            r == InstallStep::CheckExisting,
    {
        InstallStep::CheckExisting
    }

    /// The step that follows once this step's action answered `answer`.
    pub fn next(self, opts: InstallOptions, answer: bool) -> (r: InstallStep)
        ensures
            r == next_spec(opts, self, answer),
    {
        match self {
            InstallStep::CheckExisting => if answer && !opts.reinstall {
                InstallStep::Finished(InstallOutcome::AlreadyInstalled)
            } else {
                InstallStep::CheckParent
            },
            InstallStep::CheckParent => if answer {
                InstallStep::ResolveVersion
            } else if opts.mkdir {
                InstallStep::CreateParent
            } else {
                InstallStep::Finished(InstallOutcome::Failed(InstallFailure::DirectoryMissing))
            },
            InstallStep::CreateParent => if answer {
                InstallStep::ResolveVersion
            } else {
                InstallStep::Finished(InstallOutcome::Failed(InstallFailure::DirectoryCreation))
            },
            InstallStep::ResolveVersion => if answer {
                InstallStep::Download
            } else {
                InstallStep::Finished(InstallOutcome::Failed(InstallFailure::ListingFetch))
            },
            InstallStep::Download => if answer {
                InstallStep::Extract
            } else {
                InstallStep::Finished(InstallOutcome::Failed(InstallFailure::Network))
            },
            InstallStep::Extract => if answer {
                InstallStep::Place
            } else {
                InstallStep::Finished(InstallOutcome::Failed(InstallFailure::ArchiveContent))
            },
            InstallStep::Place => if answer {
                InstallStep::MarkExecutable
            } else {
                InstallStep::Finished(InstallOutcome::Failed(InstallFailure::Placement))
            },
            InstallStep::MarkExecutable => if answer {
                InstallStep::Finished(InstallOutcome::Installed)
            } else {
                InstallStep::Finished(InstallOutcome::Failed(InstallFailure::Placement))
            },
            InstallStep::Finished(o) => InstallStep::Finished(o),
        }
    }
}

impl InstallStep {
    /// The step that follows when the choice of a release failed with `cause`.
    pub fn unresolved(self, cause: ResolveCause) -> (r: InstallStep)
        ensures
            r == unresolved_spec(self, cause),
    {
        match self {
            InstallStep::ResolveVersion => InstallStep::Finished(
                InstallOutcome::Failed(InstallFailure::Resolution(cause)),
            ),
            _ => self,
        }
    }
}

impl InstallOutcome {
    /// Whether the outcome counts as success (exit status zero).
    pub fn is_success(&self) -> (r: bool)
        ensures
            r == !(*self is Failed),
    {
        !matches!(self, InstallOutcome::Failed(_))
    }

    /// The text reported for this outcome.
    pub fn message(&self) -> (r: &'static str)
        ensures
            r@ == message_spec(*self),
    {
        match self {
            InstallOutcome::AlreadyInstalled => "Driver already installed.\n",
            InstallOutcome::Installed => "Driver installed successfully.\n",
            InstallOutcome::Failed(InstallFailure::DirectoryMissing) => "The driver's directory does not exist.\n",
            InstallOutcome::Failed(InstallFailure::DirectoryCreation) => "The driver's directory could not be created.\n",
            InstallOutcome::Failed(InstallFailure::ListingFetch) => "The driver listing could not be fetched.\n",
            InstallOutcome::Failed(InstallFailure::Resolution(cause)) => resolution_message(*cause),
            InstallOutcome::Failed(InstallFailure::Network) => "The driver could not be downloaded.\n",
            InstallOutcome::Failed(InstallFailure::ArchiveContent) => "The archive holds no driver.\n",
            InstallOutcome::Failed(InstallFailure::Placement) => "The driver could not be put in place.\n",
        }
    }
}

/// Once an installation has finished, further answers change nothing.
pub proof fn lemma_finished_stays(opts: InstallOptions, o: InstallOutcome, answers: Seq<bool>)
    ensures
        forall|i: int|
            0 <= i < trace(opts, InstallStep::Finished(o), answers).len() ==> #[trigger] trace(
                opts,
                InstallStep::Finished(o),
                answers,
            )[i] == InstallStep::Finished(o),
        trace(opts, InstallStep::Finished(o), answers).len() == answers.len() + 1,
    decreases answers.len(),
{
    if answers.len() > 0 {
        lemma_finished_stays(opts, o, answers.drop_first());
    }
}

/// Without `mkdir`, no step reached from a step other than `CreateParent`
/// is `CreateParent`.
pub proof fn lemma_no_create_without_mkdir(opts: InstallOptions, step: InstallStep, answers: Seq<bool>)
    requires
        !opts.mkdir,
        step != InstallStep::CreateParent,
    ensures
        !trace(opts, step, answers).contains(InstallStep::CreateParent),
        trace(opts, step, answers).len() == answers.len() + 1,
    decreases answers.len(),
{
    if answers.len() > 0 {
        let nx = next_spec(opts, step, answers[0]);
        lemma_no_create_without_mkdir(opts, nx, answers.drop_first());
        let rest = trace(opts, nx, answers.drop_first());
        assert(trace(opts, step, answers) == seq![step] + rest);
        if trace(opts, step, answers).contains(InstallStep::CreateParent) {
            let k = choose|k: int|
                0 <= k < trace(opts, step, answers).len() && trace(opts, step, answers)[k]
                    == InstallStep::CreateParent;
            assert(k > 0);
            assert(rest[k - 1] == InstallStep::CreateParent);
        }
    }
}

/// Installing where a driver already is, without `reinstall`, ends as
/// "already installed" at the first answer, whatever comes after: the step
/// that checks the install path is the only one taken, so nothing on disk
/// changes, and the report is exactly "Driver already installed.\n".
pub proof fn existing_driver_is_kept(opts: InstallOptions, answers: Seq<bool>)
    requires
        !opts.reinstall,
        answers.len() > 0,
        answers[0],
    ensures
        run(opts, answers) == InstallStep::Finished(InstallOutcome::AlreadyInstalled),
        forall|i: int|
            0 <= i < trace(opts, InstallStep::CheckExisting, answers).len() ==> !mutates(
                #[trigger] trace(opts, InstallStep::CheckExisting, answers)[i],
            ),
        message_spec(InstallOutcome::AlreadyInstalled) == "Driver already installed.\n"@,
{
    let o = InstallOutcome::AlreadyInstalled;
    lemma_finished_stays(opts, o, answers.drop_first());
    let rest = trace(opts, InstallStep::Finished(o), answers.drop_first());
    let t = trace(opts, InstallStep::CheckExisting, answers);
    assert(t == seq![InstallStep::CheckExisting] + rest);
    assert forall|i: int| 0 <= i < t.len() implies !mutates(#[trigger] t[i]) by {
        if i > 0 {
            assert(t[i] == rest[i - 1]);
        }
    }
}

/// Without `mkdir`, an installation never creates a directory, and where the
/// parent directory is missing it fails with `DirectoryMissing`.
pub proof fn missing_directory_is_not_created(opts: InstallOptions, answers: Seq<bool>)
    requires
        !opts.mkdir,
    ensures
        !trace(opts, InstallStep::CheckExisting, answers).contains(InstallStep::CreateParent),
        answers.len() >= 2 && !(answers[0] && !opts.reinstall) && !answers[1] ==> run(opts, answers)
            == InstallStep::Finished(InstallOutcome::Failed(InstallFailure::DirectoryMissing)),
{
    lemma_no_create_without_mkdir(opts, InstallStep::CheckExisting, answers);
    if answers.len() >= 2 && !(answers[0] && !opts.reinstall) && !answers[1] {
        let o = InstallOutcome::Failed(InstallFailure::DirectoryMissing);
        let a1 = answers.drop_first();
        let a2 = a1.drop_first();
        lemma_finished_stays(opts, o, a2);
        assert(trace(opts, InstallStep::CheckParent, a1) == seq![InstallStep::CheckParent] + trace(
            opts,
            InstallStep::Finished(o),
            a2,
        ));
        assert(trace(opts, InstallStep::CheckExisting, answers) == seq![InstallStep::CheckExisting]
            + trace(opts, InstallStep::CheckParent, a1));
    }
}

/// The answers of a run in which the install path is (`existing`) or is not
/// occupied, the parent directory is missing or present, and every later
/// action succeeds.
pub open spec fn successful_answers(existing: bool, parent: bool) -> Seq<bool> {
    if parent {
        seq![existing, true, true, true, true, true, true]
    } else {
        seq![existing, false, true, true, true, true, true, true]
    }
}

/// With `mkdir`, installing where the parent directory is missing creates it,
/// places the driver, and ends installed.
pub proof fn missing_directory_is_created(opts: InstallOptions)
    requires
        opts.mkdir,
    ensures
        trace(opts, InstallStep::CheckExisting, successful_answers(false, false)).contains(
            InstallStep::CreateParent,
        ),
        trace(opts, InstallStep::CheckExisting, successful_answers(false, false)).contains(
            InstallStep::Place,
        ),
        run(opts, successful_answers(false, false)) == InstallStep::Finished(InstallOutcome::Installed),
{
    let a = successful_answers(false, false);
    reveal_with_fuel(trace, 9);
    let t = trace(opts, InstallStep::CheckExisting, a);
    assert(t[2] == InstallStep::CreateParent);
    assert(t[6] == InstallStep::Place);
}

/// With `reinstall`, installing over an existing driver downloads and places
/// it again and reports a text that ends in "Driver installed successfully.\n".
pub proof fn reinstall_replaces_driver(opts: InstallOptions)
    requires
        opts.reinstall,
    ensures
        trace(opts, InstallStep::CheckExisting, successful_answers(true, true)).contains(
            InstallStep::Download,
        ),
        trace(opts, InstallStep::CheckExisting, successful_answers(true, true)).contains(
            InstallStep::Place,
        ),
        run(opts, successful_answers(true, true)) == InstallStep::Finished(InstallOutcome::Installed),
        message_spec(InstallOutcome::Installed) == "Driver installed successfully.\n"@,
{
    let a = successful_answers(true, true);
    let t = trace(opts, InstallStep::CheckExisting, a);
    let a1 = a.drop_first();
    let a2 = a1.drop_first();
    let a3 = a2.drop_first();
    let a4 = a3.drop_first();
    let a5 = a4.drop_first();
    let a6 = a5.drop_first();
    let a7 = a6.drop_first();
    assert(a7.len() == 0);
    let o = InstallOutcome::Installed;
    let t7 = trace(opts, InstallStep::Finished(o), a7);
    let t6 = trace(opts, InstallStep::MarkExecutable, a6);
    assert(t6 == seq![InstallStep::MarkExecutable] + t7);
    let t5 = trace(opts, InstallStep::Place, a5);
    assert(t5 == seq![InstallStep::Place] + t6);
    let t4 = trace(opts, InstallStep::Extract, a4);
    assert(t4 == seq![InstallStep::Extract] + t5);
    let t3 = trace(opts, InstallStep::Download, a3);
    assert(t3 == seq![InstallStep::Download] + t4);
    let t2 = trace(opts, InstallStep::ResolveVersion, a2);
    assert(t2 == seq![InstallStep::ResolveVersion] + t3);
    let t1 = trace(opts, InstallStep::CheckParent, a1);
    assert(t1 == seq![InstallStep::CheckParent] + t2);
    assert(t == seq![InstallStep::CheckExisting] + t1);
    assert(t[3] == InstallStep::Download);
    assert(t[5] == InstallStep::Place);
}

} // verus!
