use pmmp_installer::errors::InstallError;
use pmmp_installer::platform::Os;
use pmmp_installer::workflow::{
    Action, Workflow, application_plan, launcher_path, redistributable_path, runtime_plan,
};

/// Performs a plan against an in-memory picture of the filesystem, the way
/// the real binary performs it: in order, stopping at the first failure.
fn run_simulated(
    plan: Vec<Action>,
    files: &mut Vec<String>,
    spawned: &mut Vec<String>,
    extracted_into: &mut Vec<String>,
    fail_fetch: bool,
    fail_extract: bool,
) -> Result<(), InstallError> {
    let mut wf = Workflow::new(plan);
    loop {
        let action = match wf.next_action() {
            Some(a) => a.clone(),
            None => break,
        };
        let outcome = match &action {
            Action::Fetch { .. } => {
                if fail_fetch {
                    Err(InstallError::Transport)
                } else {
                    Ok(())
                }
            }
            Action::WriteFile { path } => {
                // Create-or-truncate: writing over an existing file succeeds.
                if !files.contains(path) {
                    files.push(path.clone());
                }
                Ok(())
            }
            Action::ExtractArchive { archive_path, destination } => {
                if fail_extract || !files.contains(archive_path) {
                    Err(InstallError::Extraction)
                } else {
                    extracted_into.push(destination.clone());
                    Ok(())
                }
            }
            Action::DeleteFile { path } => {
                files.retain(|f| f != path);
                Ok(())
            }
            Action::RunProcess { path } => {
                spawned.push(path.clone());
                Ok(())
            }
        };
        wf.report(outcome);
    }
    wf.outcome()
}

#[test]
fn runtime_plan_unix_shape() {
    let plan = runtime_plan("7.4", "/tmp/x", Os::Other);
    assert_eq!(plan.len(), 4);
    match &plan[0] {
        Action::Fetch { url } => assert_eq!(
            url,
            "https://jenkins.pmmp.io/job/PHP-7.4-Aggregate/lastSuccessfulBuild/artifact/PHP-7.4-Linux-x86_64.tar.gz"
        ),
        other => panic!("unexpected first step: {:?}", other),
    }
    match &plan[1] {
        Action::WriteFile { path } => assert_eq!(path, "/tmp/x/PHP-7.4-Linux-x86_64.tar.gz"),
        other => panic!("unexpected second step: {:?}", other),
    }
    match &plan[2] {
        Action::ExtractArchive { archive_path, destination } => {
            assert_eq!(archive_path, "/tmp/x/PHP-7.4-Linux-x86_64.tar.gz");
            assert_eq!(destination, "/tmp/x");
        }
        other => panic!("unexpected third step: {:?}", other),
    }
    match &plan[3] {
        Action::DeleteFile { path } => assert_eq!(path, "/tmp/x/PHP-7.4-Linux-x86_64.tar.gz"),
        other => panic!("unexpected fourth step: {:?}", other),
    }
}

#[test]
fn runtime_plan_windows_runs_redistributable_last() {
    let plan = runtime_plan("7.4", "C:/pm", Os::Windows);
    assert_eq!(plan.len(), 5);
    match &plan[4] {
        Action::RunProcess { path } => assert_eq!(path, "C:/pm/vc_redist.x64.exe"),
        other => panic!("unexpected last step: {:?}", other),
    }
    assert_eq!(redistributable_path("C:/pm"), "C:/pm/vc_redist.x64.exe");
}

#[test]
fn application_plan_pairs_each_artifact() {
    let plan = application_plan("Stable", "/srv/pm", Os::Other);
    assert_eq!(plan.len(), 4);
    let written: Vec<&String> = plan
        .iter()
        .filter_map(|a| match a {
            Action::WriteFile { path } => Some(path),
            _ => None,
        })
        .collect();
    assert_eq!(written, vec!["/srv/pm/PocketMine-MP.phar", "/srv/pm/start.sh"]);

    let windows = application_plan("Stable", "/srv/pm", Os::Windows);
    assert_eq!(windows.len(), 6);
}

#[test]
fn driver_hands_out_steps_in_order() {
    let plan = runtime_plan("7.4", "/tmp/x", Os::Other);
    let expected: Vec<Action> = plan.clone();
    let mut wf = Workflow::new(plan);
    let mut seen: Vec<Action> = Vec::new();
    while let Some(a) = wf.next_action() {
        seen.push(a.clone());
        wf.report(Ok(()));
    }
    assert_eq!(seen.len(), expected.len());
    assert!(matches!(wf.outcome(), Ok(())));
}

#[test]
fn driver_halts_at_first_failure() {
    let plan = runtime_plan("7.4", "/tmp/x", Os::Other);
    let mut wf = Workflow::new(plan);
    // Perform the fetch, then fail the file write.
    assert!(wf.next_action().is_some());
    wf.report(Ok(()));
    assert!(wf.next_action().is_some());
    wf.report(Err(InstallError::Io));
    assert!(wf.next_action().is_none());
    assert!(matches!(wf.outcome(), Err(InstallError::Io)));
}

#[test]
fn extraction_failure_keeps_archive() {
    let mut files: Vec<String> = Vec::new();
    let mut spawned: Vec<String> = Vec::new();
    let mut extracted: Vec<String> = Vec::new();
    let plan = runtime_plan("7.4", "/tmp/x", Os::Other);
    let result = run_simulated(plan, &mut files, &mut spawned, &mut extracted, false, true);
    assert!(matches!(result, Err(InstallError::Extraction)));
    // The downloaded archive must survive a failed extraction.
    assert!(files.contains(&String::from("/tmp/x/PHP-7.4-Linux-x86_64.tar.gz")));
    assert!(extracted.is_empty());
}

#[test]
fn successful_extraction_deletes_archive() {
    let mut files: Vec<String> = Vec::new();
    let mut spawned: Vec<String> = Vec::new();
    let mut extracted: Vec<String> = Vec::new();
    let plan = runtime_plan("7.4", "/tmp/x", Os::Other);
    let result = run_simulated(plan, &mut files, &mut spawned, &mut extracted, false, false);
    assert!(matches!(result, Ok(())));
    // On success the archive is extracted and then removed.
    assert!(!files.contains(&String::from("/tmp/x/PHP-7.4-Linux-x86_64.tar.gz")));
    assert_eq!(extracted, vec![String::from("/tmp/x")]);
}

#[test]
fn launcher_path_follows_platform() {
    assert_eq!(launcher_path("/srv/pm", Os::Windows), "/srv/pm/start.cmd");
    assert_eq!(launcher_path("/srv/pm", Os::MacOs), "/srv/pm/start.sh");
    assert_eq!(launcher_path("/srv/pm", Os::Other), "/srv/pm/start.sh");
}
