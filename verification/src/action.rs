//! Actions, the details they carry, and what is derived from the details.

use crate::release_source::ReleaseSource;
use crate::toolchain::OwnedToolchainSpec;
use rust_releases::semver::Version;
use vstd::prelude::*;
use vstd::std_specs::convert::FromSpecImpl;

verus! {

/// The coarse classification of an action, for display. The statuses follow
/// the phases of the pipeline; `Passed` and `Failed` are its two outcomes.
#[derive(Debug, Copy, Clone, PartialEq, Eq, Structural)]
pub enum ActionStatus {
    Fetching,
    Check,
    Setup,
    Running,
    Passed,
    Failed,
}

/// The label under which a status is shown.
pub open spec fn label_of(status: ActionStatus) -> &'static str {
    match status {
        ActionStatus::Fetching => "Fetching",
        ActionStatus::Check => "Check",
        ActionStatus::Setup => "Setup",
        ActionStatus::Running => "Running",
        ActionStatus::Passed => "[Pass]",
        ActionStatus::Failed => "[Fail]",
    }
}

impl ActionStatus {
    /// The label under which the status is shown.
    pub fn as_str(&self) -> (label: &'static str)
        ensures
            label == label_of(*self),
    {
        match self {
            Self::Fetching => "Fetching",
            Self::Check => "Check",
            Self::Setup => "Setup",
            Self::Running => "Running",
            Self::Passed => "[Pass]",
            Self::Failed => "[Fail]",
        }
    }
}

/// Whether an action opens or closes a reporting scope. A step that is
/// reported on entry and on exit is rendered once, on entry.
#[derive(Debug, Copy, Clone, PartialEq, Eq, Structural)]
pub enum ScopePosition {
    Start,
    End,
}

/// What a step of the pipeline is about: one variant for each kind of step,
/// with the data of that step.
#[derive(Debug)]
pub enum ActionDetails {
    /// The index of available releases is being fetched from `source`.
    FetchingIndex { source: ReleaseSource },
    /// `toolchain` is being installed.
    SetupToolchain { toolchain: OwnedToolchainSpec },
    /// The check against `toolchain` begins.
    CheckToolchain { toolchain: OwnedToolchainSpec },
    /// The check command runs for `version`.
    RunToolchainCheck { version: Version },
    /// The check for `version` succeeded.
    RunToolchainCheckPass { version: Version },
    /// The check for `version` failed, with the diagnostics in `error_message`.
    RunToolchainCheckFail { version: Version, error_message: String },
}

/// The machine-readable name of a step, fixed by its variant. Consumers key on
/// these names.
pub open spec fn name_of(details: ActionDetails) -> &'static str {
    match details {
        ActionDetails::FetchingIndex { .. } => "fetching_index",
        ActionDetails::SetupToolchain { .. } => "setup_toolchain",
        ActionDetails::CheckToolchain { .. } => "check",
        ActionDetails::RunToolchainCheck { .. } => "run_check",
        ActionDetails::RunToolchainCheckPass { .. } => "check_passed",
        ActionDetails::RunToolchainCheckFail { .. } => "check_failed",
    }
}

/// The status of a step, fixed by its variant.
pub open spec fn status_of(details: ActionDetails) -> ActionStatus {
    match details {
        ActionDetails::FetchingIndex { .. } => ActionStatus::Fetching,
        ActionDetails::SetupToolchain { .. } => ActionStatus::Setup,
        ActionDetails::CheckToolchain { .. } => ActionStatus::Check,
        ActionDetails::RunToolchainCheck { .. } => ActionStatus::Running,
        ActionDetails::RunToolchainCheckPass { .. } => ActionStatus::Passed,
        ActionDetails::RunToolchainCheckFail { .. } => ActionStatus::Failed,
    }
}

impl Clone for ActionDetails {
    fn clone(&self) -> (copy: Self)
        ensures
            copy == *self,
    {
        match self {
            ActionDetails::FetchingIndex { source } => ActionDetails::FetchingIndex {
                source: *source,
            },
            ActionDetails::SetupToolchain { toolchain } => ActionDetails::SetupToolchain {
                toolchain: toolchain.clone(),
            },
            ActionDetails::CheckToolchain { toolchain } => ActionDetails::CheckToolchain {
                toolchain: toolchain.clone(),
            },
            ActionDetails::RunToolchainCheck { version } => ActionDetails::RunToolchainCheck {
                version: version.clone(),
            },
            ActionDetails::RunToolchainCheckPass { version } => {
                ActionDetails::RunToolchainCheckPass { version: version.clone() }
            },
            ActionDetails::RunToolchainCheckFail { version, error_message } => {
                ActionDetails::RunToolchainCheckFail {
                    version: version.clone(),
                    error_message: error_message.clone(),
                }
            },
        }
    }
}

impl<'reference> From<&'reference ActionDetails> for ActionStatus {
    /// The status of the step that `action_details` describes.
    fn from(action_details: &'reference ActionDetails) -> (status: Self)
        ensures
            status == status_of(*action_details),
    {
        match action_details {
            ActionDetails::FetchingIndex { .. } => Self::Fetching,
            ActionDetails::SetupToolchain { .. } => Self::Setup,
            ActionDetails::CheckToolchain { .. } => Self::Check,
            ActionDetails::RunToolchainCheck { .. } => Self::Running,
            ActionDetails::RunToolchainCheckPass { .. } => Self::Passed,
            ActionDetails::RunToolchainCheckFail { .. } => Self::Failed,
        }
    }
}

impl<'reference> FromSpecImpl<&'reference ActionDetails> for ActionStatus {
    open spec fn obeys_from_spec() -> bool {
        true
    }

    open spec fn from_spec(action_details: &'reference ActionDetails) -> ActionStatus {
        status_of(*action_details)
    }
}

impl<'reference> From<&'reference ActionDetails> for &'static str {
    /// The name of the step that `action_details` describes.
    fn from(action_details: &'reference ActionDetails) -> (name: Self)
        ensures
            name == name_of(*action_details),
    {
        match action_details {
            ActionDetails::FetchingIndex { .. } => "fetching_index",
            ActionDetails::SetupToolchain { .. } => "setup_toolchain",
            ActionDetails::CheckToolchain { .. } => "check",
            ActionDetails::RunToolchainCheck { .. } => "run_check",
            ActionDetails::RunToolchainCheckPass { .. } => "check_passed",
            ActionDetails::RunToolchainCheckFail { .. } => "check_failed",
        }
    }
}

impl<'reference> FromSpecImpl<&'reference ActionDetails> for &'static str {
    open spec fn obeys_from_spec() -> bool {
        true
    }

    open spec fn from_spec(action_details: &'reference ActionDetails) -> &'static str {
        name_of(*action_details)
    }
}

/// What an [`Action`] stands for: the step it describes, and where in a
/// reporting scope it was emitted, if anywhere. The name and the status of an
/// action are not part of it: they follow from the step.
pub struct ActionView {
    pub details: ActionDetails,
    pub scope: Option<ScopePosition>,
}

impl ActionView {
    /// The name under which the action is known to consumers.
    pub open spec fn name(self) -> &'static str {
        name_of(self.details)
    }

    /// The status under which the action is displayed.
    pub open spec fn status(self) -> ActionStatus {
        status_of(self.details)
    }

    /// Whether a reporter renders the action: it does unless the action
    /// closes a scope.
    pub open spec fn must_report(self) -> bool {
        self.scope is None || self.scope == Some(ScopePosition::Start)
    }

    /// The same action, placed at `position` of a scope.
    pub open spec fn with_scope(self, position: ScopePosition) -> ActionView {
        ActionView { details: self.details, scope: Some(position) }
    }
}

/// One reportable event of the pipeline.
///
/// An action is made by one of the constructors below, one for each kind of
/// step, and never changes afterwards: its name and status always agree with
/// its details.
pub struct Action {
    name: &'static str,
    status: ActionStatus,
    details: ActionDetails,
    scope: Option<ScopePosition>,
}

impl View for Action {
    type V = ActionView;

    closed spec fn view(&self) -> ActionView {
        ActionView { details: self.details, scope: self.scope }
    }
}

impl Action {
    #[verifier::type_invariant]
    spec fn derived_fields_agree(self) -> bool {
        &&& self.name == name_of(self.details)
        &&& self.status == status_of(self.details)
    }

    /// The action for the step that `action` describes, with no scope
    /// position. Only the constructors below call this, so that no action
    /// exists whose name or status was chosen apart from its details.
    fn new(action: ActionDetails) -> (created: Self)
        ensures
            created@ == (ActionView { details: action, scope: None }),
    {
        Self { name: (&action).into(), status: (&action).into(), details: action, scope: None }
    }

    /// A copy of this action placed at `position` of a reporting scope. The
    /// action itself is left as it was.
    pub fn clone_with_scope_position(&self, position: ScopePosition) -> (placed: Self)
        ensures
            placed@ == self@.with_scope(position),
    {
        let mut cloned = self.clone();
        proof {
            use_type_invariant(&cloned);
        }
        cloned.scope = Some(position);
        cloned
    }

    /// The machine-readable name of the action.
    pub fn name(&self) -> (name: &'static str)
        ensures
            name == self@.name(),
    {
        proof {
            use_type_invariant(self);
        }
        self.name
    }

    /// The status under which the action is displayed.
    pub fn status(&self) -> (status: ActionStatus)
        ensures
            status == self@.status(),
    {
        proof {
            use_type_invariant(self);
        }
        self.status
    }

    /// The step that the action describes.
    pub fn details(&self) -> (details: &ActionDetails)
        ensures
            *details == self@.details,
    {
        &self.details
    }

    /// The position of the action in a reporting scope, if it has one.
    pub fn scope(&self) -> (scope: Option<ScopePosition>)
        ensures
            scope == self@.scope,
    {
        self.scope
    }

    /// Whether a reporter renders the action: it does unless the action
    /// closes a scope.
    pub fn must_report(&self) -> (report: bool)
        ensures
            report == self@.must_report(),
    {
        match self.scope {
            Some(ScopePosition::Start) | None => true,
            Some(ScopePosition::End) => false,
        }
    }
}

impl Clone for Action {
    fn clone(&self) -> (copy: Self)
        ensures
            copy@ == self@,
    {
        proof {
            use_type_invariant(self);
        }
        Action {
            name: self.name,
            status: self.status,
            details: self.details.clone(),
            scope: self.scope,
        }
    }
}

/// The constructors, one for each kind of step. Each takes the data of its
/// step and gives an action without a scope position.
impl Action {
    pub fn fetching_index(source: ReleaseSource) -> (action: Self)
        ensures
            action@ == (ActionView { details: ActionDetails::FetchingIndex { source }, scope: None }),
    {
        Self::new(ActionDetails::FetchingIndex { source })
    }

    pub fn setup_toolchain(toolchain: OwnedToolchainSpec) -> (action: Self)
        ensures
            action@ == (ActionView {
                details: ActionDetails::SetupToolchain { toolchain },
                scope: None,
            }),
    {
        Self::new(ActionDetails::SetupToolchain { toolchain })
    }

    pub fn check_toolchain(toolchain: OwnedToolchainSpec) -> (action: Self)
        ensures
            action@ == (ActionView {
                details: ActionDetails::CheckToolchain { toolchain },
                scope: None,
            }),
    {
        Self::new(ActionDetails::CheckToolchain { toolchain })
    }

    pub fn run_toolchain_check(version: Version) -> (action: Self)
        ensures
            action@ == (ActionView {
                details: ActionDetails::RunToolchainCheck { version },
                scope: None,
            }),
    {
        Self::new(ActionDetails::RunToolchainCheck { version })
    }

    pub fn run_toolchain_check_pass(version: Version) -> (action: Self)
        ensures
            action@ == (ActionView {
                details: ActionDetails::RunToolchainCheckPass { version },
                scope: None,
            }),
    {
        Self::new(ActionDetails::RunToolchainCheckPass { version })
    }

    pub fn run_toolchain_check_fail(version: Version, error_msg: String) -> (action: Self)
        ensures
            action@ == (ActionView {
                details: ActionDetails::RunToolchainCheckFail { version, error_message: error_msg },
                scope: None,
            }),
    {
        Self::new(ActionDetails::RunToolchainCheckFail { version, error_message: error_msg })
    }
}

} // verus!
