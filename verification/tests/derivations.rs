use reporter_action::{
    Action, ActionDetails, ActionStatus, OwnedToolchainSpec, ReleaseSource, ScopePosition,
};
use rust_releases::semver::Version;

fn version() -> Version {
    Version::new(1, 60, 0)
}

fn toolchain() -> OwnedToolchainSpec {
    OwnedToolchainSpec::new(version(), String::from("x86_64-unknown-linux-gnu"))
}

#[test]
fn fetching_index_is_named_and_classified() {
    let details = ActionDetails::FetchingIndex { source: ReleaseSource::RustChangelog };
    assert_eq!(<&'static str>::from(&details), "fetching_index");
    assert_eq!(ActionStatus::from(&details), ActionStatus::Fetching);
}

#[test]
fn setup_toolchain_is_named_and_classified() {
    let details = ActionDetails::SetupToolchain { toolchain: toolchain() };
    assert_eq!(<&'static str>::from(&details), "setup_toolchain");
    assert_eq!(ActionStatus::from(&details), ActionStatus::Setup);
}

#[test]
fn check_toolchain_is_named_and_classified() {
    let details = ActionDetails::CheckToolchain { toolchain: toolchain() };
    assert_eq!(<&'static str>::from(&details), "check");
    assert_eq!(ActionStatus::from(&details), ActionStatus::Check);
}

#[test]
fn run_toolchain_check_is_named_and_classified() {
    let details = ActionDetails::RunToolchainCheck { version: version() };
    assert_eq!(<&'static str>::from(&details), "run_check");
    assert_eq!(ActionStatus::from(&details), ActionStatus::Running);
}

#[test]
fn run_toolchain_check_pass_is_named_and_classified() {
    let details = ActionDetails::RunToolchainCheckPass { version: version() };
    assert_eq!(<&'static str>::from(&details), "check_passed");
    assert_eq!(ActionStatus::from(&details), ActionStatus::Passed);
}

#[test]
fn run_toolchain_check_fail_is_named_and_classified() {
    let details = ActionDetails::RunToolchainCheckFail {
        version: version(),
        error_message: String::from("E0308"),
    };
    assert_eq!(<&'static str>::from(&details), "check_failed");
    assert_eq!(ActionStatus::from(&details), ActionStatus::Failed);
}

#[test]
fn derivations_do_not_depend_on_the_payload() {
    let first = ActionDetails::RunToolchainCheckFail {
        version: Version::new(1, 60, 0),
        error_message: String::from("E0308"),
    };
    let second = ActionDetails::RunToolchainCheckFail {
        version: Version::new(1, 31, 1),
        error_message: String::new(),
    };
    assert_eq!(<&'static str>::from(&first), <&'static str>::from(&second));
    assert_eq!(ActionStatus::from(&first), ActionStatus::from(&second));
    assert_eq!(<&'static str>::from(&first), <&'static str>::from(&first));
    assert_eq!(ActionStatus::from(&first), ActionStatus::from(&first));
}

#[test]
fn derivations_work_through_into() {
    let details = ActionDetails::RunToolchainCheckPass { version: version() };
    let name: &'static str = (&details).into();
    let status: ActionStatus = (&details).into();
    assert_eq!(name, "check_passed");
    assert_eq!(status, ActionStatus::Passed);
}

#[test]
fn names_and_statuses_go_one_to_one() {
    let all = vec![
        ActionDetails::FetchingIndex { source: ReleaseSource::RustDist },
        ActionDetails::SetupToolchain { toolchain: toolchain() },
        ActionDetails::CheckToolchain { toolchain: toolchain() },
        ActionDetails::RunToolchainCheck { version: version() },
        ActionDetails::RunToolchainCheckPass { version: version() },
        ActionDetails::RunToolchainCheckFail { version: version(), error_message: String::new() },
    ];
    for (i, first) in all.iter().enumerate() {
        for (j, second) in all.iter().enumerate() {
            let same_name = <&'static str>::from(first) == <&'static str>::from(second);
            let same_status = ActionStatus::from(first) == ActionStatus::from(second);
            assert_eq!(same_name, i == j);
            assert_eq!(same_status, i == j);
        }
    }
}

#[test]
fn status_labels() {
    assert_eq!(ActionStatus::Fetching.as_str(), "Fetching");
    assert_eq!(ActionStatus::Check.as_str(), "Check");
    assert_eq!(ActionStatus::Setup.as_str(), "Setup");
    assert_eq!(ActionStatus::Running.as_str(), "Running");
    assert_eq!(ActionStatus::Passed.as_str(), "[Pass]");
    assert_eq!(ActionStatus::Failed.as_str(), "[Fail]");
}

#[test]
fn constructed_actions_agree_with_their_details() {
    let actions = vec![
        Action::fetching_index(ReleaseSource::RustChangelog),
        Action::setup_toolchain(toolchain()),
        Action::check_toolchain(toolchain()),
        Action::run_toolchain_check(version()),
        Action::run_toolchain_check_pass(version()),
        Action::run_toolchain_check_fail(version(), String::from("E0308")),
    ];
    for action in &actions {
        assert_eq!(action.name(), <&'static str>::from(action.details()));
        assert_eq!(action.status(), ActionStatus::from(action.details()));
        assert_eq!(action.scope(), None);
        let placed = action.clone_with_scope_position(ScopePosition::End);
        assert_eq!(placed.name(), action.name());
        assert_eq!(placed.status(), action.status());
    }
}
