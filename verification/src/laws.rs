//! What holds of every action, proved from the definitions in [`crate::action`].

use crate::action::{label_of, name_of, status_of, Action, ActionDetails, ActionStatus, ScopePosition};
use vstd::prelude::*;

verus! {

/// The scope position alone decides whether an action is reported: it is
/// reported exactly when it has no position or opens a scope, and suppressed
/// exactly when it closes one. So a copy placed at the start of a scope is
/// reported and a copy placed at the end is not, whatever the position of the
/// action they were made from.
pub proof fn lemma_scope_decides_reporting(action: Action)
    ensures
        action@.must_report() <==> (action@.scope is None || action@.scope == Some(
            ScopePosition::Start,
        )),
        !action@.must_report() <==> action@.scope == Some(ScopePosition::End),
        action@.with_scope(ScopePosition::Start).must_report(),
        !action@.with_scope(ScopePosition::End).must_report(),
{
    match action@.scope {
        Some(ScopePosition::Start) => {},
        Some(ScopePosition::End) => {},
        None => {},
    }
}

/// Placing an action in a scope changes nothing but its position: the copy
/// describes the same step, under the same name and status. Placing it again
/// replaces the position.
pub proof fn lemma_placing_keeps_the_step(
    action: Action,
    position: ScopePosition,
    again: ScopePosition,
)
    ensures
        action@.with_scope(position).details == action@.details,
        action@.with_scope(position).name() == action@.name(),
        action@.with_scope(position).status() == action@.status(),
        action@.with_scope(position).scope == Some(position),
        action@.with_scope(position).with_scope(again) == action@.with_scope(again),
{
}

/// Names and statuses go one to one: two steps have the same name exactly when
/// they have the same status, which is when they are of the same kind.
pub proof fn lemma_name_and_status_correspond(first: ActionDetails, second: ActionDetails)
    ensures
        name_of(first)@ == name_of(second)@ <==> status_of(first) == status_of(second),
{
    reveal_strlit("fetching_index");
    reveal_strlit("setup_toolchain");
    reveal_strlit("check");
    reveal_strlit("run_check");
    reveal_strlit("check_passed");
    reveal_strlit("check_failed");
    if status_of(first) != status_of(second) {
        let n1 = name_of(first)@;
        let n2 = name_of(second)@;
        if n1.len() == n2.len() {
            assert(n1[6] != n2[6]);
        }
    }
}

/// No two statuses are shown under the same label.
pub proof fn lemma_labels_are_distinct(first: ActionStatus, second: ActionStatus)
    ensures
        label_of(first)@ == label_of(second)@ <==> first == second,
{
    reveal_strlit("Fetching");
    reveal_strlit("Check");
    reveal_strlit("Setup");
    reveal_strlit("Running");
    reveal_strlit("[Pass]");
    reveal_strlit("[Fail]");
    if first != second {
        let l1 = label_of(first)@;
        let l2 = label_of(second)@;
        if l1.len() == l2.len() {
            assert(l1[1] != l2[1]);
        }
    }
}

} // verus!
