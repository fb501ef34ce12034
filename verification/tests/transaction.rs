use pm_service::features::admin::services as admin;
use pm_service::features::role::model::Role;
use pm_service::features::role::services::{
    edit_role_id, post_create_role_plan, put_edit_role_plan, role_created_message,
    role_updated_message,
};
use pm_service::features::unit::services::{post_create_unit_plan, put_edit_unit_plan, unit_saved_message};
use pm_service::features::vendor_project::services::{
    post_create_vendor_plan, put_edit_project_pm_plan, put_edit_verify_pm_plan,
};
use pm_service::util::reply::ReplyKey;
use pm_service::util::transaction::{
    fail_reply, tx_begin, tx_next, FailPoint, TxAction, TxEvent, TxPlan, TxState,
};

fn run(plan: &TxPlan, events: &[TxEvent]) -> Vec<TxAction> {
    let (mut s, a) = tx_begin();
    let mut acts = vec![a];
    for e in events {
        let (s2, a2) = tx_next(plan, s, *e);
        s = s2;
        acts.push(a2);
    }
    acts
}

fn role(id: Option<i32>) -> Role {
    Role {
        id,
        name: "r".to_string(),
        can_add_role: false,
        can_edit_role: false,
        can_add_user: false,
        can_edit_user: false,
        can_add_vendor: false,
        can_edit_vendor: false,
        can_add_project: false,
        can_edit_project: false,
        can_add_pm: false,
        can_edit_pm: false,
        can_verify_pm: false,
        can_add_unit: false,
        can_edit_unit: false,
        can_get_user: false,
        can_get_unit: false,
        can_get_vendor: false,
        can_get_role: false,
        can_get_project: false,
        can_get_pm: false,
        is_active: true,
    }
}

#[test]
fn happy_path_commits_then_succeeds() {
    let plan = post_create_vendor_plan();
    let acts = run(&plan, &[
        TxEvent::Began { ok: true },
        TxEvent::StepDone { ok: true, hit: true },
        TxEvent::StepDone { ok: true, hit: true },
        TxEvent::Committed { ok: true },
    ]);
    assert_eq!(acts, vec![
        TxAction::Begin,
        TxAction::RunStep(0),
        TxAction::RunStep(1),
        TxAction::Commit,
        TxAction::Succeed { status: 201 },
    ]);
}

#[test]
fn failed_statement_rolls_back_and_ends_the_request() {
    let plan = post_create_vendor_plan();
    let acts = run(&plan, &[
        TxEvent::Began { ok: true },
        TxEvent::StepDone { ok: false, hit: false },
        TxEvent::StepDone { ok: true, hit: true },
        TxEvent::Committed { ok: true },
    ]);
    assert_eq!(acts[2], TxAction::Fail { at: FailPoint::Step(0), rollback: true, discard_upload: false });
    assert_eq!(acts[3], TxAction::Idle);
    assert_eq!(acts[4], TxAction::Idle);
    let r = fail_reply(&plan, FailPoint::Step(0), "duplicate key").unwrap();
    assert_eq!((r.status, r.key, r.text.as_str()), (500, ReplyKey::Message, "Failed to create vendor: duplicate key"));
}

#[test]
fn begin_and_commit_failures_do_not_roll_back() {
    let plan = put_edit_verify_pm_plan();
    assert_eq!(run(&plan, &[TxEvent::Began { ok: false }])[1], TxAction::Fail { at: FailPoint::Begin, rollback: false, discard_upload: false });
    let acts = run(&plan, &[
        TxEvent::Began { ok: true },
        TxEvent::StepDone { ok: true, hit: true },
        TxEvent::StepDone { ok: true, hit: false },
        TxEvent::StepDone { ok: true, hit: false },
        TxEvent::StepDone { ok: true, hit: false },
        TxEvent::Committed { ok: false },
    ]);
    assert_eq!(acts[5], TxAction::Commit);
    assert_eq!(acts[6], TxAction::Fail { at: FailPoint::Commit, rollback: false, discard_upload: false });
    let r = fail_reply(&plan, FailPoint::Commit, "lost connection").unwrap();
    assert_eq!(r.text, "Failed to commit transaction: lost connection");
    let r = fail_reply(&plan, FailPoint::Begin, "pool closed").unwrap();
    assert_eq!(r.text, "Failed to start transaction: pool closed");
}

#[test]
fn missing_row_is_answered_404() {
    let plan = put_edit_verify_pm_plan();
    let acts = run(&plan, &[TxEvent::Began { ok: true }, TxEvent::StepDone { ok: true, hit: false }]);
    assert_eq!(acts[2], TxAction::Fail { at: FailPoint::Empty(0), rollback: true, discard_upload: false });
    let r = fail_reply(&plan, FailPoint::Empty(0), "").unwrap();
    assert_eq!((r.status, r.text.as_str()), (404, "Project PM record not found."));
    assert!(fail_reply(&plan, FailPoint::Empty(1), "").is_none());
}

#[test]
fn role_plans() {
    let plan = put_edit_role_plan(17);
    let acts = run(&plan, &[TxEvent::Began { ok: true }, TxEvent::StepDone { ok: true, hit: false }]);
    assert_eq!(acts[2], TxAction::Fail { at: FailPoint::Empty(0), rollback: true, discard_upload: false });
    let r = fail_reply(&plan, FailPoint::Empty(0), "").unwrap();
    assert_eq!((r.status, r.key, r.text.as_str()), (404, ReplyKey::Error, "Role with ID 17 not found."));
    let r = fail_reply(&plan, FailPoint::Step(0), "boom").unwrap();
    assert_eq!(r.text, "Failed to update role: boom");
    assert_eq!(plan.success_status, 200);
    let plan = post_create_role_plan();
    assert_eq!(plan.success_status, 201);
    assert_eq!(fail_reply(&plan, FailPoint::Step(0), "x").unwrap().text, "Failed to create role: x");
    assert_eq!(role_created_message(), "Role successfully created.");
    assert_eq!(role_updated_message(), "Role successfully updated.");
    assert_eq!(edit_role_id(&role(Some(4))).ok(), Some(4));
    let r = edit_role_id(&role(None)).err().unwrap();
    assert_eq!((r.status, r.key, r.text.as_str()), (400, ReplyKey::Error, "The role ID is required for editing a role."));
}

#[test]
fn unit_and_admin_plans() {
    for plan in [post_create_unit_plan(), put_edit_unit_plan()] {
        assert_eq!(plan.success_status, 201);
        assert_eq!(fail_reply(&plan, FailPoint::Step(0), "e").unwrap().text, "Failed to add project PM step: e");
    }
    assert_eq!(unit_saved_message(), "Unit successfully created.");
    let plan = admin::put_edit_vendor_plan();
    let r = fail_reply(&plan, FailPoint::Step(0), "e").unwrap();
    assert_eq!((r.key, r.text.as_str()), (ReplyKey::Error, "Failed to update vendor: e"));
    assert_eq!(admin::pm_verified_message(9), "Project ID '9' successfully updated.");
    assert_eq!(admin::post_create_vendor_plan().success_status, 201);
    assert_eq!(admin::vendor_not_found_reply().status, 404);
}

#[test]
fn edit_pm_plan_discards_the_upload_on_failure() {
    let plan = put_edit_project_pm_plan(5);
    let acts = run(&plan, &[TxEvent::Began { ok: true }, TxEvent::StepDone { ok: true, hit: false }]);
    assert_eq!(acts[2], TxAction::Fail { at: FailPoint::Empty(0), rollback: true, discard_upload: true });
    assert_eq!(fail_reply(&plan, FailPoint::Empty(0), "").unwrap().text, "Project PM with id 5 not found.");
    assert_eq!(fail_reply(&plan, FailPoint::Empty(1), "").unwrap().text, "Project PM not found or no changes were made.");
}

#[test]
fn states_after_each_event() {
    let plan = post_create_vendor_plan();
    let (s, _) = tx_next(&plan, TxState::AwaitBegin, TxEvent::Began { ok: true });
    assert_eq!(s, TxState::AwaitStep(0));
    let (s, a) = tx_next(&plan, TxState::AwaitStep(1), TxEvent::StepDone { ok: true, hit: true });
    assert_eq!((s, a), (TxState::AwaitCommit, TxAction::Commit));
    let (s, a) = tx_next(&plan, TxState::AwaitCommit, TxEvent::Began { ok: true });
    assert_eq!((s, a), (TxState::Closed, TxAction::Idle));
}
