use app_startup::provision::{
    ProvisionAction, ProvisionError, ProvisionEvent, ProvisionState,
};

/// Drives one full provisioning run: performs no real filesystem work,
/// but answers each requested action from the given outcomes, records
/// every action asked for, and returns the terminal state.
fn drive(
    resolution: Result<&str, &str>,
    directory_present: bool,
    creation_succeeds: bool,
    actions: &mut Vec<ProvisionAction>,
) -> ProvisionState {
    let mut state = ProvisionState::start();
    while !state.is_finished() {
        let action = state.required_action();
        actions.push(action.clone());
        let event = match action {
            ProvisionAction::ResolvePath => match resolution {
                Ok(path) => ProvisionEvent::PathResolved { path: path.to_owned() },
                Err(cause) => ProvisionEvent::PathResolutionFailed { cause: cause.to_owned() },
            },
            ProvisionAction::CheckExistence { .. } => {
                if directory_present {
                    ProvisionEvent::DirectoryFound
                } else {
                    ProvisionEvent::DirectoryMissing
                }
            }
            ProvisionAction::CreateDirectory { .. } => {
                if creation_succeeds {
                    ProvisionEvent::DirectoryCreated
                } else {
                    ProvisionEvent::DirectoryCreationFailed
                }
            }
            ProvisionAction::Idle => unreachable!("terminal states ask for nothing"),
        };
        state = state.step(event);
    }
    state
}

#[test]
fn present_directory_succeeds_without_mutation() {
    let mut actions = Vec::new();
    let end = drive(Ok("/home/user/.config/app"), true, true, &mut actions);
    assert_eq!(end.emitted_path().map(String::as_str), Some("/home/user/.config/app"));
    assert_eq!(end.error(), None);
    assert!(!actions
        .iter()
        .any(|a| matches!(a, ProvisionAction::CreateDirectory { .. })));
}

#[test]
fn provisioning_is_idempotent() {
    // First run: the directory is missing and gets created.
    let mut first_actions = Vec::new();
    let first = drive(Ok("/home/user/.config/app"), false, true, &mut first_actions);
    assert!(first.is_finished());
    assert_eq!(first.error(), None);
    // Second run: the directory the first run left behind is present;
    // the run must succeed again and must not ask for a creation.
    let mut second_actions = Vec::new();
    let second = drive(Ok("/home/user/.config/app"), true, true, &mut second_actions);
    assert_eq!(second.emitted_path().map(String::as_str), Some("/home/user/.config/app"));
    assert_eq!(second.error(), None);
    assert!(!second_actions
        .iter()
        .any(|a| matches!(a, ProvisionAction::CreateDirectory { .. })));
}

#[test]
fn missing_directory_is_created() {
    let mut actions = Vec::new();
    let end = drive(Ok("/tmp/app-config"), false, true, &mut actions);
    assert_eq!(end.emitted_path().map(String::as_str), Some("/tmp/app-config"));
    assert!(actions.contains(&ProvisionAction::CreateDirectory {
        path: "/tmp/app-config".to_owned(),
    }));
}

#[test]
fn resolution_failure_precedes_filesystem_access() {
    let mut actions = Vec::new();
    let end = drive(Err("unsupported platform"), true, true, &mut actions);
    assert_eq!(
        end.error(),
        Some(&ProvisionError::PathResolution { cause: "unsupported platform".to_owned() })
    );
    assert_eq!(end.emitted_path(), None);
    // The only action ever requested was the path resolution itself.
    assert_eq!(actions, vec![ProvisionAction::ResolvePath]);
    assert_eq!(
        end.error().unwrap().message(),
        "unsupported platform"
    );
}

#[test]
fn creation_failure_fails_the_run() {
    let mut actions = Vec::new();
    let end = drive(Ok("/readonly/app-config"), false, false, &mut actions);
    assert_eq!(end.error(), Some(&ProvisionError::DirectoryCreation));
    assert_eq!(end.emitted_path(), None);
    assert_eq!(
        end.error().unwrap().message(),
        "creating app config directory failed"
    );
}

#[test]
fn mismatched_event_leaves_state_unchanged() {
    let start = ProvisionState::start();
    let still_start = start.clone().step(ProvisionEvent::DirectoryFound);
    assert_eq!(still_start, start);
    let terminal = start
        .step(ProvisionEvent::PathResolved { path: "/a".to_owned() })
        .step(ProvisionEvent::DirectoryFound);
    let after_extra = terminal.clone().step(ProvisionEvent::DirectoryMissing);
    assert_eq!(after_extra, terminal);
}
