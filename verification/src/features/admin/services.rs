use vstd::prelude::*;
use crate::util::number::{i32_to_string, int_decimal};
use crate::util::reply::{Reply, ReplyKey, error, join3};
use crate::util::transaction::{
    TxPlan, TxStep, begin_failure, commit_failure, failure_matches, plain_step, step_matches,
};

verus! {

/// A write made of one statement that returns the written row; failures answer with
/// `{"error": ...}`.
pub open spec fn single_statement_plan(p: TxPlan, statement_error: Seq<char>, success: u16) -> bool {
    &&& failure_matches(p.on_begin_error, (500, ReplyKey::Error, "Failed to start transaction: "@, true))
    &&& p.steps@.len() == 1
    &&& step_matches(p.steps@[0], (500, ReplyKey::Error, statement_error, true), None)
    &&& p.success_status == success
    &&& failure_matches(p.on_commit_error, (500, ReplyKey::Error, "Failed to commit transaction: "@, true))
    &&& !p.discard_upload_on_failure
}

fn single_statement(statement_error: &str, success: u16) -> (p: TxPlan)
    ensures
        single_statement_plan(p, statement_error@, success),
{
    let mut steps: Vec<TxStep> = Vec::new();
    steps.push(plain_step(ReplyKey::Error, statement_error));
    TxPlan {
        on_begin_error: begin_failure(ReplyKey::Error),
        steps,
        success_status: success,
        on_commit_error: commit_failure(ReplyKey::Error),
        discard_upload_on_failure: false,
    }
}

/// Vendor creation: an insert returning the vendor, answered 201.
pub fn post_create_vendor_plan() -> (p: TxPlan)
    ensures
        single_statement_plan(p, "Failed to create vendor: "@, 201),
{
    single_statement("Failed to create vendor: ", 201)
}

/// Vendor edit: an update returning the vendor, answered 200.
pub fn put_edit_vendor_plan() -> (p: TxPlan)
    ensures
        single_statement_plan(p, "Failed to update vendor: "@, 200),
{
    single_statement("Failed to update vendor: ", 200)
}

/// Project creation: an insert returning the project, answered 201.
pub fn post_create_vendor_project_plan() -> (p: TxPlan)
    ensures
        single_statement_plan(p, "Failed to create project: "@, 201),
{
    single_statement("Failed to create project: ", 201)
}

/// Project edit: an update returning the project, answered 200.
pub fn put_edit_vendor_project_plan() -> (p: TxPlan)
    ensures
        single_statement_plan(p, "Failed to update project: "@, 200),
{
    single_statement("Failed to update project: ", 200)
}

/// Verification of a maintenance step: an update returning the step, answered 200.
pub fn put_edit_verify_pm_plan() -> (p: TxPlan)
    ensures
        single_statement_plan(p, "Failed to update project: "@, 200),
{
    single_statement("Failed to update project: ", 200)
}

/// `Project ID '<id>' successfully updated.`
pub fn pm_verified_message(id: i32) -> (t: String)
    ensures
        t@ == "Project ID '"@ + int_decimal(id as int) + "' successfully updated."@,
{
    let id_text = i32_to_string(id);
    join3("Project ID '", id_text.as_str(), "' successfully updated.")
}

/// A failed query, answered 500 with the database error.
pub fn query_failure_reply(detail: &str) -> (r: Reply)
    ensures
        r.status == 500 && r.key == ReplyKey::Error && r.text@ == detail@,
{
    error(500, detail)
}

/// The project listing names a vendor that does not exist.
pub fn vendor_not_found_reply() -> (r: Reply)
    ensures
        r.status == 404 && r.key == ReplyKey::Error && r.text@ == "No vendor found with specified ID."@,
{
    error(404, "No vendor found with specified ID.")
}

/// The maintenance listing names a project that does not exist.
pub fn project_not_found_reply() -> (r: Reply)
    ensures
        r.status == 404 && r.key == ReplyKey::Error && r.text@ == "No project found with specified ID."@,
{
    error(404, "No project found with specified ID.")
}

} // verus!
