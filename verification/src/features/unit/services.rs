use vstd::prelude::*;
use crate::util::reply::ReplyKey;
use crate::util::transaction::{
    TxPlan, TxStep, begin_failure, commit_failure, failure_matches, plain_step, step_matches,
};

verus! {

/// The plan shared by unit creation and unit edit: one statement that returns the
/// unit row, answered 201.
fn unit_write_plan() -> (p: TxPlan)
    ensures
        failure_matches(p.on_begin_error, (500, ReplyKey::Error, "Failed to start transaction: "@, true)),
        p.steps@.len() == 1,
        step_matches(p.steps@[0], (500, ReplyKey::Error, "Failed to add project PM step: "@, true), None),
        p.success_status == 201,
        failure_matches(p.on_commit_error, (500, ReplyKey::Error, "Failed to commit transaction: "@, true)),
        !p.discard_upload_on_failure,
{
    let mut steps: Vec<TxStep> = Vec::new();
    steps.push(plain_step(ReplyKey::Error, "Failed to add project PM step: "));
    TxPlan {
        on_begin_error: begin_failure(ReplyKey::Error),
        steps,
        success_status: 201,
        on_commit_error: commit_failure(ReplyKey::Error),
        discard_upload_on_failure: false,
    }
}

/// The plan of a unit creation: an insert returning the row, answered 201.
pub fn post_create_unit_plan() -> (p: TxPlan)
    ensures
        failure_matches(p.on_begin_error, (500, ReplyKey::Error, "Failed to start transaction: "@, true)),
        p.steps@.len() == 1,
        step_matches(p.steps@[0], (500, ReplyKey::Error, "Failed to add project PM step: "@, true), None),
        p.success_status == 201,
        failure_matches(p.on_commit_error, (500, ReplyKey::Error, "Failed to commit transaction: "@, true)),
        !p.discard_upload_on_failure,
{
    unit_write_plan()
}

/// The plan of a unit edit: an update returning the row, answered 201 as a creation is.
pub fn put_edit_unit_plan() -> (p: TxPlan)
    ensures
        failure_matches(p.on_begin_error, (500, ReplyKey::Error, "Failed to start transaction: "@, true)),
        p.steps@.len() == 1,
        step_matches(p.steps@[0], (500, ReplyKey::Error, "Failed to add project PM step: "@, true), None),
        p.success_status == 201,
        failure_matches(p.on_commit_error, (500, ReplyKey::Error, "Failed to commit transaction: "@, true)),
        !p.discard_upload_on_failure,
{
    unit_write_plan()
}

/// The success text of both unit writes.
pub fn unit_saved_message() -> (t: String)
    ensures
        t@ == "Unit successfully created."@,
{
    "Unit successfully created.".to_owned()
}

} // verus!
