use vstd::prelude::*;
use crate::features::vendor_project::upload::{after_last, download_file_name};
use crate::util::number::{i32_to_string, int_decimal};
use crate::util::reply::{Reply, ReplyKey, join, join3, message};
use crate::util::transaction::{
    FailPoint, Failure, TxPlan, TxStep, begin_failure, commit_failure, failure, failure_matches,
    plain_step, step_matches,
};

verus! {

/// A write that runs one statement and then reads the row it wrote back: the read
/// fails with a fixed text both when the query fails and when it finds nothing.
pub open spec fn write_then_read_plan(
    p: TxPlan,
    write_error: Seq<char>,
    write_empty: Option<(u16, ReplyKey, Seq<char>, bool)>,
    read_failure: Seq<char>,
    success: u16,
) -> bool {
    &&& failure_matches(p.on_begin_error, (500, ReplyKey::Message, "Failed to start transaction: "@, true))
    &&& p.steps@.len() == 2
    &&& step_matches(p.steps@[0], (500, ReplyKey::Message, write_error, true), write_empty)
    &&& step_matches(
        p.steps@[1],
        (500, ReplyKey::Message, read_failure, false),
        Some((500, ReplyKey::Message, read_failure, false)),
    )
    &&& p.success_status == success
    &&& failure_matches(p.on_commit_error, (500, ReplyKey::Message, "Failed to commit transaction: "@, true))
    &&& !p.discard_upload_on_failure
}

fn write_then_read(
    write_error: &str,
    write_empty: Option<Failure>,
    read_failure: &str,
    success: u16,
) -> (p: TxPlan)
    ensures
        p.steps@.len() == 2,
        p.steps@[0].on_empty == write_empty,
        failure_matches(p.on_begin_error, (500, ReplyKey::Message, "Failed to start transaction: "@, true)),
        failure_matches(p.steps@[0].on_error, (500, ReplyKey::Message, write_error@, true)),
        step_matches(
            p.steps@[1],
            (500, ReplyKey::Message, read_failure@, false),
            Some((500, ReplyKey::Message, read_failure@, false)),
        ),
        p.success_status == success,
        failure_matches(p.on_commit_error, (500, ReplyKey::Message, "Failed to commit transaction: "@, true)),
        !p.discard_upload_on_failure,
{
    let mut steps: Vec<TxStep> = Vec::new();
    steps.push(
        TxStep { on_error: failure(500, ReplyKey::Message, write_error, true), on_empty: write_empty },
    );
    steps.push(
        TxStep {
            on_error: failure(500, ReplyKey::Message, read_failure, false),
            on_empty: Some(failure(500, ReplyKey::Message, read_failure, false)),
        },
    );
    TxPlan {
        on_begin_error: begin_failure(ReplyKey::Message),
        steps,
        success_status: success,
        on_commit_error: commit_failure(ReplyKey::Message),
        discard_upload_on_failure: false,
    }
}

/// Vendor creation: insert, read the newest vendor of that name back, answer 201.
pub fn post_create_vendor_plan() -> (p: TxPlan)
    ensures
        write_then_read_plan(
            p,
            "Failed to create vendor: "@,
            None,
            "Failed to retrieve newly created vendor."@,
            201,
        ),
{
    write_then_read("Failed to create vendor: ", None, "Failed to retrieve newly created vendor.", 201)
}

/// Vendor edit: update (it must change a row), read the vendor back, answer 200.
pub fn put_edit_vendor_plan() -> (p: TxPlan)
    ensures
        write_then_read_plan(
            p,
            "Failed to update vendor: "@,
            Some((404, ReplyKey::Message, "Vendor not found or no changes were made."@, false)),
            "Failed to retrieve updated vendor record."@,
            200,
        ),
{
    let missing = failure(404, ReplyKey::Message, "Vendor not found or no changes were made.", false);
    write_then_read("Failed to update vendor: ", Some(missing), "Failed to retrieve updated vendor record.", 200)
}

/// Project creation: insert, read the newest project of that name and vendor back,
/// answer 201.
pub fn post_create_vendor_project_plan() -> (p: TxPlan)
    ensures
        write_then_read_plan(
            p,
            "Failed to create project: "@,
            None,
            "Failed to retrieve newly created project."@,
            201,
        ),
{
    write_then_read("Failed to create project: ", None, "Failed to retrieve newly created project.", 201)
}

/// Project edit: update (it must change a row), read the project back, answer 200.
pub fn put_edit_vendor_project_plan() -> (p: TxPlan)
    ensures
        write_then_read_plan(
            p,
            "Failed to update project: "@,
            Some((404, ReplyKey::Message, "Project not found or no changes were made."@, false)),
            "Failed to retrieve updated project record."@,
            200,
        ),
{
    let missing = failure(404, ReplyKey::Message, "Project not found or no changes were made.", false);
    write_then_read("Failed to update project: ", Some(missing), "Failed to retrieve updated project record.", 200)
}

/// Verification of a maintenance step: check that the step exists, read its note
/// history, write the new history out, update the step, answer 200.
pub fn put_edit_verify_pm_plan() -> (p: TxPlan)
    ensures
        failure_matches(p.on_begin_error, (500, ReplyKey::Message, "Failed to start transaction: "@, true)),
        p.steps@.len() == 4,
        step_matches(
            p.steps@[0],
            (500, ReplyKey::Message, "Database error during row check: "@, true),
            Some((404, ReplyKey::Message, "Project PM record not found."@, false)),
        ),
        step_matches(p.steps@[1], (500, ReplyKey::Message, "Failed to fetch notes history string: "@, true), None),
        step_matches(p.steps@[2], (500, ReplyKey::Message, "Failed to serialize notes history: "@, true), None),
        step_matches(p.steps@[3], (500, ReplyKey::Message, "Failed to update project: "@, true), None),
        p.success_status == 200,
        failure_matches(p.on_commit_error, (500, ReplyKey::Message, "Failed to commit transaction: "@, true)),
        !p.discard_upload_on_failure,
{
    let mut steps: Vec<TxStep> = Vec::new();
    steps.push(
        TxStep {
            on_error: failure(500, ReplyKey::Message, "Database error during row check: ", true),
            on_empty: Some(failure(404, ReplyKey::Message, "Project PM record not found.", false)),
        },
    );
    steps.push(plain_step(ReplyKey::Message, "Failed to fetch notes history string: "));
    steps.push(plain_step(ReplyKey::Message, "Failed to serialize notes history: "));
    steps.push(plain_step(ReplyKey::Message, "Failed to update project: "));
    TxPlan {
        on_begin_error: begin_failure(ReplyKey::Message),
        steps,
        success_status: 200,
        on_commit_error: commit_failure(ReplyKey::Message),
        discard_upload_on_failure: false,
    }
}

/// A new maintenance step: insert it, read it back, answer 201; any failure also
/// removes the uploaded file.
pub fn post_create_project_pm_plan() -> (p: TxPlan)
    ensures
        failure_matches(p.on_begin_error, (500, ReplyKey::Message, "Failed to start transaction: "@, true)),
        p.steps@.len() == 2,
        step_matches(p.steps@[0], (500, ReplyKey::Message, "Failed to add project PM step: "@, true), None),
        step_matches(
            p.steps@[1],
            (500, ReplyKey::Message, "Failed to retrieve newly created PM record."@, false),
            Some((500, ReplyKey::Message, "Failed to retrieve newly created PM record."@, false)),
        ),
        p.success_status == 201,
        failure_matches(p.on_commit_error, (500, ReplyKey::Message, "Failed to commit transaction: "@, true)),
        p.discard_upload_on_failure,
{
    let mut steps: Vec<TxStep> = Vec::new();
    steps.push(plain_step(ReplyKey::Message, "Failed to add project PM step: "));
    steps.push(
        TxStep {
            on_error: failure(500, ReplyKey::Message, "Failed to retrieve newly created PM record.", false),
            on_empty: Some(failure(500, ReplyKey::Message, "Failed to retrieve newly created PM record.", false)),
        },
    );
    TxPlan {
        on_begin_error: begin_failure(ReplyKey::Message),
        steps,
        success_status: 201,
        on_commit_error: commit_failure(ReplyKey::Message),
        discard_upload_on_failure: true,
    }
}

/// An edit of maintenance step `pm_id`: read the old row, update it (it must change a
/// row), read it back, answer 200; any failure also removes a file (see
/// `edit_pm_discard_path`).
pub fn put_edit_project_pm_plan(pm_id: i32) -> (p: TxPlan)
    ensures
        failure_matches(p.on_begin_error, (500, ReplyKey::Message, "Failed to start transaction: "@, true)),
        p.steps@.len() == 3,
        step_matches(
            p.steps@[0],
            (500, ReplyKey::Message, "Failed to fetch existing project PM: "@, true),
            Some((404, ReplyKey::Message, "Project PM with id "@ + int_decimal(pm_id as int) + " not found."@, false)),
        ),
        step_matches(
            p.steps@[1],
            (500, ReplyKey::Message, "Failed to update project PM step: "@, true),
            Some((404, ReplyKey::Message, "Project PM not found or no changes were made."@, false)),
        ),
        step_matches(p.steps@[2], (500, ReplyKey::Message, "Failed to fetch updated record: "@, true), None),
        p.success_status == 200,
        failure_matches(p.on_commit_error, (500, ReplyKey::Message, "Failed to commit transaction: "@, true)),
        p.discard_upload_on_failure,
{
    let id_text = i32_to_string(pm_id);
    let missing = join3("Project PM with id ", id_text.as_str(), " not found.");
    let mut steps: Vec<TxStep> = Vec::new();
    steps.push(
        TxStep {
            on_error: failure(500, ReplyKey::Message, "Failed to fetch existing project PM: ", true),
            on_empty: Some(failure(404, ReplyKey::Message, missing.as_str(), false)),
        },
    );
    steps.push(
        TxStep {
            on_error: failure(500, ReplyKey::Message, "Failed to update project PM step: ", true),
            on_empty: Some(failure(404, ReplyKey::Message, "Project PM not found or no changes were made.", false)),
        },
    );
    steps.push(plain_step(ReplyKey::Message, "Failed to fetch updated record: "));
    TxPlan {
        on_begin_error: begin_failure(ReplyKey::Message),
        steps,
        success_status: 200,
        on_commit_error: commit_failure(ReplyKey::Message),
        discard_upload_on_failure: true,
    }
}

/// The file a failed edit removes: before the old row is known, the new upload;
/// afterwards, the file the row was to point to (the new upload, or the old file when
/// none came).
pub fn edit_pm_discard_path(at: FailPoint, new_file: Option<String>, to_save: Option<String>) -> (r:
    Option<String>)
    ensures
        match at {
            FailPoint::Begin => r == new_file,
            FailPoint::Step(k) => if k == 0 { r == new_file } else { r == to_save },
            FailPoint::Empty(k) => if k == 0 { r == new_file } else { r == to_save },
            FailPoint::Commit => r == to_save,
        },
{
    match at {
        FailPoint::Begin => new_file,
        FailPoint::Step(k) => if k == 0 { new_file } else { to_save },
        FailPoint::Empty(k) => if k == 0 { new_file } else { to_save },
        FailPoint::Commit => to_save,
    }
}

/// `Vendor '<name>' successfully created.`
pub fn vendor_created_message(name: &str) -> (t: String)
    ensures
        t@ == "Vendor '"@ + name@ + "' successfully created."@,
{
    join3("Vendor '", name, "' successfully created.")
}

/// `Vendor '<name>' successfully updated.`
pub fn vendor_updated_message(name: &str) -> (t: String)
    ensures
        t@ == "Vendor '"@ + name@ + "' successfully updated."@,
{
    join3("Vendor '", name, "' successfully updated.")
}

/// `Project '<name>' successfully created for vendor <vendor_id>.`
pub fn project_created_message(name: &str, vendor_id: i32) -> (t: String)
    ensures
        t@ == "Project '"@ + name@ + "' successfully created for vendor "@ + int_decimal(vendor_id as int)
            + "."@,
{
    let head = join3("Project '", name, "' successfully created for vendor ");
    let id_text = i32_to_string(vendor_id);
    join3(head.as_str(), id_text.as_str(), ".")
}

/// `Project '<name>' successfully updated.`
pub fn project_updated_message(name: &str) -> (t: String)
    ensures
        t@ == "Project '"@ + name@ + "' successfully updated."@,
{
    join3("Project '", name, "' successfully updated.")
}

/// `PM ID '<id>' successfully updated.`
pub fn pm_verified_message(id: i32) -> (t: String)
    ensures
        t@ == "PM ID '"@ + int_decimal(id as int) + "' successfully updated."@,
{
    let id_text = i32_to_string(id);
    join3("PM ID '", id_text.as_str(), "' successfully updated.")
}

/// `PM added to project <project_id>.`
pub fn pm_added_message(project_id: i32) -> (t: String)
    ensures
        t@ == "PM added to project "@ + int_decimal(project_id as int) + "."@,
{
    let id_text = i32_to_string(project_id);
    join3("PM added to project ", id_text.as_str(), ".")
}

/// The success text of a maintenance step edit.
pub fn pm_updated_message() -> (t: String)
    ensures
        t@ == "Project PM updated successfully."@,
{
    "Project PM updated successfully.".to_owned()
}

/// A failed query, answered 500 with the database error as the message.
pub fn query_failure_reply(detail: &str) -> (r: Reply)
    ensures
        r.status == 500 && r.key == ReplyKey::Message && r.text@ == detail@,
{
    message(500, detail)
}

/// The listing of a vendor's projects names a vendor that does not exist.
pub fn vendor_not_found_reply() -> (r: Reply)
    ensures
        r.status == 404 && r.key == ReplyKey::Message && r.text@ == "No vendor found with specified ID."@,
{
    message(404, "No vendor found with specified ID.")
}

/// The maintenance listing names a project that does not exist.
pub fn project_not_found_reply() -> (r: Reply)
    ensures
        r.status == 404 && r.key == ReplyKey::Message && r.text@ == "No project found with specified ID."@,
{
    message(404, "No project found with specified ID.")
}

/// The detail of a maintenance step that belongs to no project.
pub fn pm_project_not_found_reply() -> (r: Reply)
    ensures
        r.status == 404 && r.key == ReplyKey::Message && r.text@ == "No project found with specified PM ID."@,
{
    message(404, "No project found with specified PM ID.")
}

/// The file of maintenance step `id` was asked for, but there is no such step.
pub fn pm_file_record_missing_reply(id: i32) -> (r: Reply)
    ensures
        r.status == 404 && r.key == ReplyKey::Message && r.text@ == "Project PM with ID "@ + int_decimal(id as int)
            + " not found."@,
{
    let id_text = i32_to_string(id);
    let text = join3("Project PM with ID ", id_text.as_str(), " not found.");
    message(404, text.as_str())
}

/// The lookup of a step's file path failed.
pub fn pm_file_lookup_failed_reply(detail: &str) -> (r: Reply)
    ensures
        r.status == 500 && r.key == ReplyKey::Message && r.text@ == "Database error fetching file path: "@
            + detail@,
{
    let text = join("Database error fetching file path: ", detail);
    message(500, text.as_str())
}

/// The step's file is not on disk.
pub fn stored_file_missing_reply(path: &str) -> (r: Reply)
    ensures
        r.status == 404 && r.key == ReplyKey::Message && r.text@ == "File not found on server at path: "@
            + path@,
{
    let text = join("File not found on server at path: ", path);
    message(404, text.as_str())
}

/// What mime_guess's `from_path(path).first_or_text_plain()` gives for a path.
pub uninterp spec fn guessed_mime(path: Seq<char>) -> Seq<char>;

/// mime_guess's `from_path(path).first_or_text_plain()`, written out as text: the
/// content type that the extension of `path` suggests, `text/plain` when it suggests
/// none.
#[verifier::external_body]
fn mime_for_path(path: &str) -> (m: String)
    ensures
        m@ == guessed_mime(path@),
{
    String::from(mime_guess::from_path(path).first_or_text_plain().as_ref())
}

/// How a stored file is sent: its content type and the name it is offered under.
pub struct FileDownload {
    pub content_type: String,
    pub file_name: String,
}

/// The content type and download name of the stored file at `url_file`.
pub fn file_download(url_file: &str) -> (d: FileDownload)
    ensures
        d.content_type@ == guessed_mime(url_file@),
        d.file_name@ == after_last(url_file@, '/'),
{
    FileDownload { content_type: mime_for_path(url_file), file_name: download_file_name(url_file) }
}

} // verus!
