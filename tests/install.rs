use webdriver_downloader::{
    ResolveCause, ResolveError,
    InstallFailure, InstallOptions, InstallOutcome, InstallStep, VerifyFailure, VerifyOutcome,
    VerifyStep,
};

/// Runs the installer's steps with the given answers and returns the steps
/// visited, the final one last.
fn run(opts: InstallOptions, answers: &[bool]) -> Vec<InstallStep> {
    let mut step = InstallStep::start();
    let mut seen = vec![step];
    for &a in answers {
        step = step.next(opts, a);
        seen.push(step);
    }
    seen
}

fn verify(max_polls: u32, answers: &[bool]) -> Vec<VerifyStep> {
    let mut step = VerifyStep::start();
    let mut seen = vec![step];
    for &a in answers {
        step = step.next(max_polls, a);
        seen.push(step);
    }
    seen
}

const PLAIN: InstallOptions = InstallOptions { reinstall: false, mkdir: false };
const MKDIR: InstallOptions = InstallOptions { reinstall: false, mkdir: true };
const REINSTALL: InstallOptions = InstallOptions { reinstall: true, mkdir: false };

#[test]
fn test_passes_no_mkdir() {
    let seen = run(PLAIN, &[false, true, true, true, true, true, true]);
    assert_eq!(
        seen,
        vec![
            InstallStep::CheckExisting,
            InstallStep::CheckParent,
            InstallStep::ResolveVersion,
            InstallStep::Download,
            InstallStep::Extract,
            InstallStep::Place,
            InstallStep::MarkExecutable,
            InstallStep::Finished(InstallOutcome::Installed),
        ]
    );
    assert!(InstallOutcome::Installed.is_success());
}

#[test]
fn test_passes_mkdir() {
    let seen = run(MKDIR, &[false, false, true, true, true, true, true, true]);
    assert_eq!(seen[2], InstallStep::CreateParent);
    assert!(seen.contains(&InstallStep::Place));
    assert_eq!(*seen.last().unwrap(), InstallStep::Finished(InstallOutcome::Installed));
}

#[test]
fn test_existing_driver() {
    let seen = run(PLAIN, &[true, true, true]);
    assert_eq!(seen[1], InstallStep::Finished(InstallOutcome::AlreadyInstalled));
    assert_eq!(*seen.last().unwrap(), InstallStep::Finished(InstallOutcome::AlreadyInstalled));
    assert!(!seen.contains(&InstallStep::Download));
    assert!(!seen.contains(&InstallStep::Place));
    assert_eq!(InstallOutcome::AlreadyInstalled.message(), "Driver already installed.\n");
    assert!(InstallOutcome::AlreadyInstalled.is_success());
}

#[test]
fn test_reinstall() {
    let seen = run(REINSTALL, &[true, true, true, true, true, true, true]);
    assert!(seen.contains(&InstallStep::Download));
    assert!(seen.contains(&InstallStep::Place));
    let outcome = InstallOutcome::Installed;
    assert_eq!(*seen.last().unwrap(), InstallStep::Finished(outcome));
    assert!(outcome.message().ends_with("Driver installed successfully.\n"));
}

#[test]
fn test_fails_no_mkdir_and_no_dir() {
    let seen = run(PLAIN, &[false, false, true, true]);
    let failed = InstallOutcome::Failed(InstallFailure::DirectoryMissing);
    assert_eq!(seen[2], InstallStep::Finished(failed));
    assert!(!seen.contains(&InstallStep::CreateParent));
    assert!(!failed.is_success());
}

#[test]
fn test_fails_no_browser() {
    let seen = verify(10, &[true, true, false, true]);
    let failed = VerifyOutcome::Failed(VerifyFailure::VerificationError);
    assert_eq!(seen[3], VerifyStep::Terminate { outcome: failed });
    assert_eq!(seen[4], VerifyStep::Done { outcome: failed });
}

#[test]
fn test_geckodriver() {
    let seen = verify(10, &[true, false, true, true, true, true]);
    assert_eq!(
        seen,
        vec![
            VerifyStep::Launch,
            VerifyStep::WaitReady { attempt: 0 },
            VerifyStep::WaitReady { attempt: 1 },
            VerifyStep::OpenSession,
            VerifyStep::CloseSession,
            VerifyStep::Terminate { outcome: VerifyOutcome::Verified },
            VerifyStep::Done { outcome: VerifyOutcome::Verified },
        ]
    );
}

#[test]
fn each_install_failure_has_its_step() {
    let cases = [
        (MKDIR, vec![false, false, false], InstallFailure::DirectoryCreation),
        (PLAIN, vec![false, true, false], InstallFailure::ListingFetch),
        (PLAIN, vec![false, true, true, false], InstallFailure::Network),
        (PLAIN, vec![false, true, true, true, false], InstallFailure::ArchiveContent),
        (PLAIN, vec![false, true, true, true, true, false], InstallFailure::Placement),
        (PLAIN, vec![false, true, true, true, true, true, false], InstallFailure::Placement),
    ];
    for (opts, answers, failure) in cases {
        let seen = run(opts, &answers);
        assert_eq!(*seen.last().unwrap(), InstallStep::Finished(InstallOutcome::Failed(failure)));
        assert!(InstallOutcome::Failed(failure).message().ends_with(".\n"));
    }
}

#[test]
fn readiness_polls_are_bounded() {
    let seen = verify(3, &[true, false, false, false, true]);
    let failed = VerifyOutcome::Failed(VerifyFailure::ProcessError);
    assert_eq!(seen[3], VerifyStep::WaitReady { attempt: 2 });
    assert_eq!(seen[4], VerifyStep::Terminate { outcome: failed });
    assert_eq!(seen[5], VerifyStep::Done { outcome: failed });
}

#[test]
fn launch_failure_needs_no_termination() {
    let seen = verify(3, &[false]);
    let failed = VerifyOutcome::Failed(VerifyFailure::ProcessError);
    assert_eq!(seen[1], VerifyStep::Done { outcome: failed });
}

#[test]
fn failed_close_still_terminates() {
    let seen = verify(3, &[true, true, true, false, true]);
    let failed = VerifyOutcome::Failed(VerifyFailure::VerificationError);
    assert_eq!(seen[4], VerifyStep::Terminate { outcome: failed });
    assert_eq!(seen[5], VerifyStep::Done { outcome: failed });
}

#[test]
fn resolution_failure_carries_its_cause() {
    let step = InstallStep::start().next(PLAIN, false).next(PLAIN, true);
    assert_eq!(step, InstallStep::ResolveVersion);
    let cause = ResolveError::NoMatchingVersion.cause();
    let failed = InstallOutcome::Failed(InstallFailure::Resolution(cause));
    assert_eq!(step.unresolved(cause), InstallStep::Finished(failed));
    assert_eq!(failed.message(), "No driver release matches the browser.\n");
    assert_eq!(InstallStep::Download.unresolved(ResolveCause::Unparsable), InstallStep::Download);
    assert_eq!(
        ResolveError::Listing(webdriver_downloader::ListingError::Unparsable(String::from("x"))).cause(),
        ResolveCause::Unparsable
    );
}
