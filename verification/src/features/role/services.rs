use vstd::prelude::*;
use crate::features::role::model::Role;
use crate::util::number::{i32_to_string, int_decimal};
use crate::util::page_response_builder::{
    PageResponse, is_page_of, page_request_ok, page_response_builder,
};
use crate::util::reply::{Reply, ReplyKey, error, join3};
use crate::util::transaction::{
    TxPlan, TxStep, begin_failure, commit_failure, failure, failure_matches, plain_step,
    step_matches,
};

verus! {

/// The plan of a role creation: one insert, answered 201.
pub fn post_create_role_plan() -> (p: TxPlan)
    ensures
        failure_matches(p.on_begin_error, (500, ReplyKey::Error, "Failed to start transaction: "@, true)),
        p.steps@.len() == 1,
        step_matches(p.steps@[0], (500, ReplyKey::Error, "Failed to create role: "@, true), None),
        p.success_status == 201,
        failure_matches(p.on_commit_error, (500, ReplyKey::Error, "Failed to commit transaction: "@, true)),
        !p.discard_upload_on_failure,
{
    let mut steps: Vec<TxStep> = Vec::new();
    steps.push(plain_step(ReplyKey::Error, "Failed to create role: "));
    TxPlan {
        on_begin_error: begin_failure(ReplyKey::Error),
        steps,
        success_status: 201,
        on_commit_error: commit_failure(ReplyKey::Error),
        discard_upload_on_failure: false,
    }
}

/// The success text of a role creation.
pub fn role_created_message() -> (t: String)
    ensures
        t@ == "Role successfully created."@,
{
    "Role successfully created.".to_owned()
}

/// The id of the role to edit; editing needs one.
pub fn edit_role_id(body: &Role) -> (r: Result<i32, Reply>)
    ensures
        match body.id {
            Some(id) => r == Ok::<i32, Reply>(id),
            None => r matches Err(rep) && rep.status == 400 && rep.key == ReplyKey::Error
                && rep.text@ == "The role ID is required for editing a role."@,
        },
{
    match body.id {
        Some(id) => Ok(id),
        None => Err(error(400, "The role ID is required for editing a role.")),
    }
}

/// The plan of a role edit: one update, which must change a row; answered 200.
pub fn put_edit_role_plan(role_id: i32) -> (p: TxPlan)
    ensures
        failure_matches(p.on_begin_error, (500, ReplyKey::Error, "Failed to start transaction: "@, true)),
        p.steps@.len() == 1,
        step_matches(
            p.steps@[0],
            (500, ReplyKey::Error, "Failed to update role: "@, true),
            Some(
                (
                    404,
                    ReplyKey::Error,
                    "Role with ID "@ + int_decimal(role_id as int) + " not found."@,
                    false,
                ),
            ),
        ),
        p.success_status == 200,
        failure_matches(p.on_commit_error, (500, ReplyKey::Error, "Failed to commit transaction: "@, true)),
        !p.discard_upload_on_failure,
{
    let id_text = i32_to_string(role_id);
    let missing = join3("Role with ID ", id_text.as_str(), " not found.");
    let mut steps: Vec<TxStep> = Vec::new();
    steps.push(
        TxStep {
            on_error: failure(500, ReplyKey::Error, "Failed to update role: ", true),
            on_empty: Some(failure(404, ReplyKey::Error, missing.as_str(), false)),
        },
    );
    TxPlan {
        on_begin_error: begin_failure(ReplyKey::Error),
        steps,
        success_status: 200,
        on_commit_error: commit_failure(ReplyKey::Error),
        discard_upload_on_failure: false,
    }
}

/// The success text of a role edit.
pub fn role_updated_message() -> (t: String)
    ensures
        t@ == "Role successfully updated."@,
{
    "Role successfully updated.".to_owned()
}

/// How the role listing answers.
pub enum RoleListing<'a, T> {
    /// Every row, for a report.
    All(&'a [T]),
    /// One page of the rows.
    Page(PageResponse<'a, T>),
}

/// The role listing: every row when a report is asked for, else one page.
pub fn role_listing<'a, T>(is_report: Option<bool>, page: i32, page_size: i32, roles: &'a [T]) -> (r:
    RoleListing<'a, T>)
    requires
        is_report != Some(true) ==> page_request_ok(page, page_size, roles@.len() as int),
    ensures
        is_report == Some(true) ==> (r matches RoleListing::All(all) && all@ == roles@),
        is_report != Some(true) ==> (r matches RoleListing::Page(p) && is_page_of(
            p,
            page,
            page_size,
            roles@,
        )),
{
    let report = match is_report {
        Some(b) => b,
        None => false,
    };
    if report {
        RoleListing::All(roles)
    } else {
        RoleListing::Page(page_response_builder(page, page_size, roles))
    }
}

} // verus!
