use stemmer::orchestrate::directory_creation_message;
use stemmer::orchestrate::orchestrator_step;
use stemmer::orchestrate::probe_label_bytes;
use stemmer::orchestrate::write_permission_message;
use stemmer::orchestrate::OrchestratorState;
use stemmer::orchestrate::SplitFailure;
use stemmer::orchestrate::SplitRequest;
use stemmer::orchestrate::StepAction;
use stemmer::orchestrate::StepEvent;

fn b(s: &str) -> Vec<u8> {
    s.as_bytes().to_vec()
}

fn start() -> StepEvent {
    StepEvent::Start {
        request: SplitRequest {
            input_path: b("/home/u/song.wav"),
            output_base_dir: b("/home/u/out"),
        },
    }
}

#[test]
fn probe_file_name() {
    assert_eq!(probe_label_bytes(), b(".stemmer_write_test"));
}

#[test]
fn happy_path_issues_every_action_in_order() {
    let (s, a) = orchestrator_step(OrchestratorState::Idle, start());
    assert!(matches!(&a, StepAction::EnsureDir { path } if *path == b("/home/u/out")));

    let (s, a) = orchestrator_step(s, StepEvent::FsOk);
    assert!(matches!(&a, StepAction::EnsureDir { path } if *path == b("/home/u/out/song")));

    let (s, a) = orchestrator_step(s, StepEvent::FsOk);
    let probe = b("/home/u/out/song/.stemmer_write_test");
    assert!(matches!(&a, StepAction::WriteProbe { path } if *path == probe));

    let (s, a) = orchestrator_step(s, StepEvent::FsOk);
    assert!(matches!(&a, StepAction::RemoveProbe { path } if *path == probe));

    let (s, a) = orchestrator_step(s, StepEvent::FsOk);
    assert!(
        matches!(&a, StepAction::InstallBridge { output_path } if *output_path == b("/home/u/out/song"))
    );

    let (s, a) = orchestrator_step(s, StepEvent::Installed);
    match &a {
        StepAction::RunPipeline { input_path, output_dir } => {
            assert_eq!(*input_path, b("/home/u/song.wav"));
            assert_eq!(*output_dir, b("/home/u/out/song"));
        }
        _ => panic!("installation must lead to the pipeline run"),
    }

    let (s, a) = orchestrator_step(s, StepEvent::PipelineOk);
    assert!(
        matches!(&a, StepAction::ReportSuccess { output_path } if *output_path == b("/home/u/out/song"))
    );
    assert!(
        matches!(&s, OrchestratorState::Completed { output_path } if *output_path == b("/home/u/out/song"))
    );
}

#[test]
fn base_directory_failure_reports_raw_base() {
    let (s, _) = orchestrator_step(OrchestratorState::Idle, start());
    let (s, a) = orchestrator_step(
        s,
        StepEvent::FsFailed {
            error_text: "permission denied".to_string(),
            error_code: "PermissionDenied".to_string(),
        },
    );
    match &s {
        OrchestratorState::Failed {
            failure: SplitFailure::DirectoryCreation { path, base, error_text, .. },
        } => {
            assert_eq!(*path, b("/home/u/out"));
            assert!(*base);
            assert_eq!(error_text, "permission denied");
        }
        _ => panic!("a base-directory failure must fail the run"),
    }
    assert!(matches!(a, StepAction::ReportFailure { .. }));
}

#[test]
fn project_directory_failure_reports_full_path() {
    let (s, _) = orchestrator_step(OrchestratorState::Idle, start());
    let (s, _) = orchestrator_step(s, StepEvent::FsOk);
    let (s, _) = orchestrator_step(
        s,
        StepEvent::FsFailed {
            error_text: "disk full".to_string(),
            error_code: "StorageFull".to_string(),
        },
    );
    match &s {
        OrchestratorState::Failed {
            failure: SplitFailure::DirectoryCreation { path, base, .. },
        } => {
            assert_eq!(*path, b("/home/u/out/song"));
            assert!(!*base);
        }
        _ => panic!("a project-folder failure must fail the run"),
    }
}

#[test]
fn probe_write_failure_is_write_permission() {
    let (s, _) = orchestrator_step(OrchestratorState::Idle, start());
    let (s, _) = orchestrator_step(s, StepEvent::FsOk);
    let (s, _) = orchestrator_step(s, StepEvent::FsOk);
    let (s, _) = orchestrator_step(
        s,
        StepEvent::FsFailed {
            error_text: "read-only".to_string(),
            error_code: "ReadOnlyFilesystem".to_string(),
        },
    );
    match &s {
        OrchestratorState::Failed { failure: SplitFailure::WritePermission { path, .. } } => {
            assert_eq!(*path, b("/home/u/out/song"));
        }
        _ => panic!("a probe-write failure must fail the run"),
    }
}

#[test]
fn probe_removal_failure_fails_the_run() {
    let (s, _) = orchestrator_step(OrchestratorState::Idle, start());
    let (s, _) = orchestrator_step(s, StepEvent::FsOk);
    let (s, _) = orchestrator_step(s, StepEvent::FsOk);
    let (s, _) = orchestrator_step(s, StepEvent::FsOk);
    let (s, a) = orchestrator_step(
        s,
        StepEvent::FsFailed {
            error_text: "device busy".to_string(),
            error_code: "resource busy".to_string(),
        },
    );
    match &s {
        OrchestratorState::Failed { failure: SplitFailure::WritePermission { path, .. } } => {
            assert_eq!(*path, b("/home/u/out/song"));
        }
        _ => panic!("a failed probe removal must fail the run"),
    }
    assert!(matches!(a, StepAction::ReportFailure { .. }));
}

#[test]
fn pipeline_failure_is_reported() {
    let (s, _) = orchestrator_step(OrchestratorState::Idle, start());
    let (s, _) = orchestrator_step(s, StepEvent::FsOk);
    let (s, _) = orchestrator_step(s, StepEvent::FsOk);
    let (s, _) = orchestrator_step(s, StepEvent::FsOk);
    let (s, _) = orchestrator_step(s, StepEvent::FsOk);
    let (s, _) = orchestrator_step(s, StepEvent::Installed);
    let (s, _) = orchestrator_step(
        s,
        StepEvent::PipelineFailed { message: "model not found".to_string() },
    );
    match &s {
        OrchestratorState::Failed { failure: SplitFailure::Pipeline { message } } => {
            assert_eq!(message, "model not found");
        }
        _ => panic!("a pipeline failure must fail the run"),
    }
}

#[test]
fn task_failure_is_distinguished() {
    let (s, _) = orchestrator_step(OrchestratorState::Idle, start());
    let (s, _) = orchestrator_step(s, StepEvent::FsOk);
    let (s, _) = orchestrator_step(s, StepEvent::FsOk);
    let (s, _) = orchestrator_step(s, StepEvent::FsOk);
    let (s, _) = orchestrator_step(s, StepEvent::FsOk);
    let (s, _) = orchestrator_step(s, StepEvent::Installed);
    let (s, _) =
        orchestrator_step(s, StepEvent::TaskFailed { message: "task aborted".to_string() });
    match &s {
        OrchestratorState::Failed { failure: SplitFailure::Task { message } } => {
            assert_eq!(message, "task aborted");
        }
        _ => panic!("a task failure must fail the run"),
    }
}

#[test]
fn base_creation_message_text() {
    let m = directory_creation_message("/home/u/out", true, "permission denied", "PermissionDenied");
    assert_eq!(
        m,
        format!(
            "Failed to create output directory '{}': {}. \n\nTroubleshooting:\n• Try selecting a different folder in Settings\n• Use Desktop or Downloads folder\n• Check if you have write permissions\n• Error code: {}",
            "/home/u/out", "permission denied", "PermissionDenied"
        )
    );
}

#[test]
fn project_creation_message_text() {
    let m = directory_creation_message("/home/u/out/song", false, "disk full", "StorageFull");
    assert_eq!(
        m,
        format!(
            "Failed to create project folder '{}': {}. \n\nError code: {}",
            "/home/u/out/song", "disk full", "StorageFull"
        )
    );
}

#[test]
fn write_permission_message_text() {
    let m = write_permission_message("/home/u/out/song", "read-only", "ReadOnlyFilesystem");
    assert_eq!(
        m,
        format!(
            "No write permission for output directory '{}': {}. \n\nTroubleshooting:\n• The app may need permission to access this folder\n• Try Desktop or Downloads folder\n• On macOS, check System Settings > Privacy & Security > Files and Folders\n• Error code: {}",
            "/home/u/out/song", "read-only", "ReadOnlyFilesystem"
        )
    );
}
