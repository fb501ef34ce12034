use vstd::prelude::*;
use crate::features::vendor_project::model::{NoteEntry, ProjectPMData};
use crate::util::number::{int_decimal, lemma_parse_i32_of_decimal, parse_i32, parse_i32_spec};
use crate::util::reply::{Reply, ReplyKey, message};
use crate::util::text::{is_blank, is_blank_str, trim, trim_spec};

verus! {

/// Whether `name` is the literal `lit`.
fn text_is(name: &str, lit: &str) -> (b: bool)
    ensures
        b == (name@ == lit@),
{
    let a: String = name.to_owned();
    let b: String = lit.to_owned();
    a == b
}

/// The upload form after one more text field arrived: known fields are kept (the two
/// numeric ones when they read as an `i32`, else cleared), unknown ones are ignored.
pub open spec fn pm_field_applied(d: ProjectPMData, name: Seq<char>, value: String) -> ProjectPMData {
    if name == "project_id"@ {
        ProjectPMData { project_id: parse_i32_spec(value@), ..d }
    } else if name == "pm_description"@ {
        ProjectPMData { pm_description: Some(value), ..d }
    } else if name == "pm_solution"@ {
        ProjectPMData { pm_solution: Some(value), ..d }
    } else if name == "pm_type"@ {
        ProjectPMData { pm_type: Some(value), ..d }
    } else if name == "pm_project_date"@ {
        ProjectPMData { pm_project_date: Some(value), ..d }
    } else if name == "pic_name"@ {
        ProjectPMData { pic_name: Some(value), ..d }
    } else if name == "pic_email"@ {
        ProjectPMData { pic_email: Some(value), ..d }
    } else if name == "pic_unit_id"@ {
        ProjectPMData { pic_unit_id: parse_i32_spec(value@), ..d }
    } else {
        d
    }
}

/// An upload form with no field yet.
pub fn empty_pm_data() -> (d: ProjectPMData)
    ensures
        d.project_id is None,
        d.pm_description is None,
        d.pm_solution is None,
        d.pm_type is None,
        d.pm_project_date is None,
        d.pic_name is None,
        d.pic_email is None,
        d.pic_unit_id is None,
{
    ProjectPMData {
        project_id: None,
        pm_description: None,
        pm_solution: None,
        pm_type: None,
        pm_project_date: None,
        pic_name: None,
        pic_email: None,
        pic_unit_id: None,
    }
}

/// Records one text field of the upload form.
pub fn apply_pm_field(data: &mut ProjectPMData, name: &str, value: String)
    ensures
        *final(data) == pm_field_applied(*old(data), name@, value),
{
    if text_is(name, "project_id") {
        data.project_id = parse_i32(value.as_str());
    } else if text_is(name, "pm_description") {
        data.pm_description = Some(value);
    } else if text_is(name, "pm_solution") {
        data.pm_solution = Some(value);
    } else if text_is(name, "pm_type") {
        data.pm_type = Some(value);
    } else if text_is(name, "pm_project_date") {
        data.pm_project_date = Some(value);
    } else if text_is(name, "pic_name") {
        data.pic_name = Some(value);
    } else if text_is(name, "pic_email") {
        data.pic_email = Some(value);
    } else if text_is(name, "pic_unit_id") {
        data.pic_unit_id = parse_i32(value.as_str());
    }
}

/// A refused form: the answer, and whether the file that came with it must go.
pub struct FormRejection {
    pub reply: Reply,
    pub discard_upload: bool,
}

/// A complete form for a new maintenance step.
pub struct NewProjectPM {
    pub project_id: i32,
    pub pm_description: String,
    pub pm_solution: String,
    pub pm_type: String,
    pub pm_project_date: String,
    pub url_file: String,
    pub pic_name: Option<String>,
    pub pic_email: Option<String>,
    pub pic_unit_id: Option<i32>,
}

pub open spec fn rejects(r: FormRejection, text: Seq<char>, discard: bool) -> bool {
    r.reply.status == 400 && r.reply.key == ReplyKey::Message && r.reply.text@ == text
        && r.discard_upload == discard
}

fn reject(text: &str, discard: bool) -> (r: FormRejection)
    ensures
        rejects(r, text@, discard),
{
    FormRejection { reply: message(400, text), discard_upload: discard }
}

/// Checks an upload form for a new maintenance step. The project, the description, the
/// solution, the type and the date are mandatory and checked in that order, then the
/// file; a refusal before the file check also removes the file that came.
pub fn validate_new_pm(data: ProjectPMData, file_path: Option<String>) -> (r: Result<
    NewProjectPM,
    FormRejection,
>)
    ensures
        data.project_id is None ==> (r matches Err(e) && rejects(e, "Missing or invalid project_id."@, true)),
        data.project_id is Some && data.pm_description is None ==> (r matches Err(e) && rejects(e, "Missing pm_description."@, true)),
        data.project_id is Some && data.pm_description is Some && data.pm_solution is None ==> (r matches Err(e) && rejects(e, "Missing pm_solution."@, true)),
        data.project_id is Some && data.pm_description is Some && data.pm_solution is Some
            && data.pm_type is None ==> (r matches Err(e) && rejects(e, "Missing pm_solution."@, true)),
        data.project_id is Some && data.pm_description is Some && data.pm_solution is Some
            && data.pm_type is Some && data.pm_project_date is None ==> (r matches Err(e) && rejects(e, "Missing pm_project_date."@, true)),
        data.project_id is Some && data.pm_description is Some && data.pm_solution is Some
            && data.pm_type is Some && data.pm_project_date is Some && file_path is None ==> (r matches Err(e) && rejects(e, "Missing file upload."@, false)),
        r matches Ok(pm) ==> {
            &&& data.project_id == Some(pm.project_id)
            &&& data.pm_description == Some(pm.pm_description)
            &&& data.pm_solution == Some(pm.pm_solution)
            &&& data.pm_type == Some(pm.pm_type)
            &&& data.pm_project_date == Some(pm.pm_project_date)
            &&& file_path == Some(pm.url_file)
            &&& pm.pic_name == data.pic_name
            &&& pm.pic_email == data.pic_email
            &&& pm.pic_unit_id == data.pic_unit_id
        },
        (data.project_id is Some && data.pm_description is Some && data.pm_solution is Some
            && data.pm_type is Some && data.pm_project_date is Some && file_path is Some) ==> r is Ok,
{
    let project_id = match data.project_id {
        Some(v) => v,
        None => return Err(reject("Missing or invalid project_id.", true)),
    };
    let pm_description = match data.pm_description {
        Some(v) => v,
        None => return Err(reject("Missing pm_description.", true)),
    };
    let pm_solution = match data.pm_solution {
        Some(v) => v,
        None => return Err(reject("Missing pm_solution.", true)),
    };
    let pm_type = match data.pm_type {
        Some(v) => v,
        None => return Err(reject("Missing pm_solution.", true)),
    };
    let pm_project_date = match data.pm_project_date {
        Some(v) => v,
        None => return Err(reject("Missing pm_project_date.", true)),
    };
    let url_file = match file_path {
        Some(v) => v,
        None => return Err(reject("Missing file upload.", false)),
    };
    Ok(
        NewProjectPM {
            project_id,
            pm_description,
            pm_solution,
            pm_type,
            pm_project_date,
            url_file,
            pic_name: data.pic_name,
            pic_email: data.pic_email,
            pic_unit_id: data.pic_unit_id,
        },
    )
}

/// The value a form field got last: a field sent twice keeps its later value.
pub open spec fn field_value(fields: Seq<(String, String)>, name: Seq<char>) -> Option<String>
    decreases fields.len(),
{
    if fields.len() == 0 {
        None
    } else if fields.last().0@ == name {
        Some(fields.last().1)
    } else {
        field_value(fields.drop_last(), name)
    }
}

/// A form field read as an `i32`; `None` when absent or unreadable.
pub open spec fn field_i32(fields: Seq<(String, String)>, name: Seq<char>) -> Option<i32> {
    match field_value(fields, name) {
        Some(v) => parse_i32_spec(v@),
        None => None,
    }
}

pub fn lookup_field(fields: &Vec<(String, String)>, name: &str) -> (r: Option<String>)
    ensures
        r == field_value(fields@, name@),
{
    let mut j: usize = fields.len();
    assert(fields@.take(j as int) =~= fields@);
    while j > 0
        invariant
            j <= fields@.len(),
            field_value(fields@, name@) == field_value(fields@.take(j as int), name@),
        decreases j,
    {
        let ghost t = fields@.take(j as int);
        assert(t.drop_last() =~= fields@.take(j - 1));
        if text_is(fields[j - 1].0.as_str(), name) {
            return Some(fields[j - 1].1.clone());
        }
        j = j - 1;
    }
    None
}

fn lookup_i32(fields: &Vec<(String, String)>, name: &str) -> (r: Option<i32>)
    ensures
        r == field_i32(fields@, name@),
{
    match lookup_field(fields, name) {
        Some(v) => parse_i32(v.as_str()),
        None => None,
    }
}

/// A complete edit form of a maintenance step.
pub struct PmUpdateForm {
    pub id: i32,
    pub project_id: i32,
    pub pm_description: String,
    pub pm_solution: String,
    pub pm_type: String,
    pub pm_project_date: String,
    pub pic_name: Option<String>,
    pub pic_email: Option<String>,
    pub pic_unit_id: Option<i32>,
}

/// Checks the text fields of an edit form. The step id and the project id must read as
/// numbers; the description, solution, type and date must be there; they are checked
/// in that order, and a refusal removes the file that came.
pub fn validate_pm_update(fields: &Vec<(String, String)>) -> (r: Result<PmUpdateForm, FormRejection>)
    ensures
        ({
            let f = fields@;
            if field_i32(f, "id"@) is None {
                r matches Err(e) && rejects(e, "Missing or invalid mandatory field 'id'."@, true)
            } else if field_i32(f, "project_id"@) is None {
                r matches Err(e) && rejects(e, "Missing or invalid mandatory field 'project_id'."@, true)
            } else if field_value(f, "pm_description"@) is None {
                r matches Err(e) && rejects(e, "Missing mandatory field 'pm_description'."@, true)
            } else if field_value(f, "pm_solution"@) is None {
                r matches Err(e) && rejects(e, "Missing mandatory field 'pm_solution'."@, true)
            } else if field_value(f, "pm_type"@) is None {
                r matches Err(e) && rejects(e, "Missing mandatory field 'pm_type'."@, true)
            } else if field_value(f, "pm_project_date"@) is None {
                r matches Err(e) && rejects(e, "Missing mandatory field 'pm_project_date'."@, true)
            } else {
                r matches Ok(u) && {
                    &&& field_i32(f, "id"@) == Some(u.id)
                    &&& field_i32(f, "project_id"@) == Some(u.project_id)
                    &&& field_value(f, "pm_description"@) == Some(u.pm_description)
                    &&& field_value(f, "pm_solution"@) == Some(u.pm_solution)
                    &&& field_value(f, "pm_type"@) == Some(u.pm_type)
                    &&& field_value(f, "pm_project_date"@) == Some(u.pm_project_date)
                    &&& field_value(f, "pic_name"@) == u.pic_name
                    &&& field_value(f, "pic_email"@) == u.pic_email
                    &&& field_i32(f, "pic_unit_id"@) == u.pic_unit_id
                }
            }
        }),
{
    let id = match lookup_i32(fields, "id") {
        Some(v) => v,
        None => return Err(reject("Missing or invalid mandatory field 'id'.", true)),
    };
    let project_id = match lookup_i32(fields, "project_id") {
        Some(v) => v,
        None => return Err(reject("Missing or invalid mandatory field 'project_id'.", true)),
    };
    let pm_description = match lookup_field(fields, "pm_description") {
        Some(v) => v,
        None => return Err(reject("Missing mandatory field 'pm_description'.", true)),
    };
    let pm_solution = match lookup_field(fields, "pm_solution") {
        Some(v) => v,
        None => return Err(reject("Missing mandatory field 'pm_solution'.", true)),
    };
    let pm_type = match lookup_field(fields, "pm_type") {
        Some(v) => v,
        None => return Err(reject("Missing mandatory field 'pm_type'.", true)),
    };
    let pm_project_date = match lookup_field(fields, "pm_project_date") {
        Some(v) => v,
        None => return Err(reject("Missing mandatory field 'pm_project_date'.", true)),
    };
    Ok(
        PmUpdateForm {
            id,
            project_id,
            pm_description,
            pm_solution,
            pm_type,
            pm_project_date,
            pic_name: lookup_field(fields, "pic_name"),
            pic_email: lookup_field(fields, "pic_email"),
            pic_unit_id: lookup_i32(fields, "pic_unit_id"),
        },
    )
}

/// Which files an edit keeps and drops: the record points to the new upload when there
/// is one, else to the file it had; after the commit the old file is removed only when
/// a new one replaced it.
pub fn edit_pm_files(new_file: Option<String>, old_url: String) -> (r: (String, Option<String>))
    ensures
        match new_file {
            Some(n) => r.0 == n && r.1 == Some(old_url),
            None => r.0 == old_url && r.1 is None,
        },
{
    match new_file {
        Some(n) => (n, Some(old_url)),
        None => (old_url, None),
    }
}

/// Whether a note text counts: it must hold more than whitespace.
pub open spec fn note_counts(note: Option<String>) -> bool {
    note matches Some(n) && !is_blank(n@)
}

/// The note history after a verification: the stored history (empty when there was
/// none or it was unreadable), with the trimmed note by `user` at `timestamp` added at
/// the end when the note is not blank.
pub fn append_note(stored: Option<Vec<NoteEntry>>, note: &Option<String>, user: &str, timestamp: String) -> (out: Vec<NoteEntry>)
    ensures
        ({
            let before = match stored {
                Some(h) => h@,
                None => Seq::<NoteEntry>::empty(),
            };
            if note_counts(*note) {
                &&& out@.len() == before.len() + 1
                &&& out@.take(before.len() as int) == before
                &&& out@.last().timestamp == timestamp
                &&& out@.last().user@ == user@
                &&& out@.last().note matches Some(t) && t@ == trim_spec(note.unwrap()@)
            } else {
                out@ == before
            }
        }),
{
    let mut history = match stored {
        Some(h) => h,
        None => Vec::new(),
    };
    let ghost before = history@;
    let valid = match note {
        Some(s) => !is_blank_str(s.as_str()),
        None => false,
    };
    if valid {
        let text = match note {
            Some(s) => trim(s.as_str()),
            None => String::new(),
        };
        history.push(NoteEntry { timestamp, user: user.to_owned(), note: Some(text) });
        assert(history@.take(before.len() as int) =~= before);
    }
    history
}

/// Every field of `r` but the one at position `which` (in the order `project_id`,
/// `pm_description`, `pm_solution`, `pm_type`, `pm_project_date`, `pic_name`,
/// `pic_email`, `pic_unit_id`) is as in `d`.
pub open spec fn others_kept(r: ProjectPMData, d: ProjectPMData, which: int) -> bool {
    &&& which != 0 ==> r.project_id == d.project_id
    &&& which != 1 ==> r.pm_description == d.pm_description
    &&& which != 2 ==> r.pm_solution == d.pm_solution
    &&& which != 3 ==> r.pm_type == d.pm_type
    &&& which != 4 ==> r.pm_project_date == d.pm_project_date
    &&& which != 5 ==> r.pic_name == d.pic_name
    &&& which != 6 ==> r.pic_email == d.pic_email
    &&& which != 7 ==> r.pic_unit_id == d.pic_unit_id
}

/// Recording a text field of the upload form sets the field of that name, and only
/// it: a text field to the value sent, a numeric one to the number the value reads as
/// (so the decimal text of `n` gives `n`). A field of any other name changes nothing.
pub proof fn lemma_each_field_sets_its_own(d: ProjectPMData, v: String, other: Seq<char>, n: i32)
    requires
        other != "project_id"@,
        other != "pm_description"@,
        other != "pm_solution"@,
        other != "pm_type"@,
        other != "pm_project_date"@,
        other != "pic_name"@,
        other != "pic_email"@,
        other != "pic_unit_id"@,
    ensures
        pm_field_applied(d, "project_id"@, v).project_id == parse_i32_spec(v@),
        others_kept(pm_field_applied(d, "project_id"@, v), d, 0),
        pm_field_applied(d, "pm_description"@, v).pm_description == Some(v),
        others_kept(pm_field_applied(d, "pm_description"@, v), d, 1),
        pm_field_applied(d, "pm_solution"@, v).pm_solution == Some(v),
        others_kept(pm_field_applied(d, "pm_solution"@, v), d, 2),
        pm_field_applied(d, "pm_type"@, v).pm_type == Some(v),
        others_kept(pm_field_applied(d, "pm_type"@, v), d, 3),
        pm_field_applied(d, "pm_project_date"@, v).pm_project_date == Some(v),
        others_kept(pm_field_applied(d, "pm_project_date"@, v), d, 4),
        pm_field_applied(d, "pic_name"@, v).pic_name == Some(v),
        others_kept(pm_field_applied(d, "pic_name"@, v), d, 5),
        pm_field_applied(d, "pic_email"@, v).pic_email == Some(v),
        others_kept(pm_field_applied(d, "pic_email"@, v), d, 6),
        pm_field_applied(d, "pic_unit_id"@, v).pic_unit_id == parse_i32_spec(v@),
        others_kept(pm_field_applied(d, "pic_unit_id"@, v), d, 7),
        v@ == int_decimal(n as int) ==> pm_field_applied(d, "project_id"@, v).project_id == Some(n),
        v@ == int_decimal(n as int) ==> pm_field_applied(d, "pic_unit_id"@, v).pic_unit_id == Some(n),
        pm_field_applied(d, other, v) == d,
{
    reveal_strlit("project_id");
    reveal_strlit("pm_description");
    reveal_strlit("pm_solution");
    reveal_strlit("pm_type");
    reveal_strlit("pm_project_date");
    reveal_strlit("pic_name");
    reveal_strlit("pic_email");
    reveal_strlit("pic_unit_id");
    assert("pm_description"@.len() != "project_id"@.len());
    assert("pm_solution"@.len() != "project_id"@.len());
    assert("pm_solution"@.len() != "pm_description"@.len());
    assert("pm_type"@.len() != "project_id"@.len());
    assert("pm_type"@.len() != "pm_description"@.len());
    assert("pm_type"@.len() != "pm_solution"@.len());
    assert("pm_project_date"@.len() != "project_id"@.len());
    assert("pm_project_date"@.len() != "pm_description"@.len());
    assert("pm_project_date"@.len() != "pm_solution"@.len());
    assert("pm_project_date"@.len() != "pm_type"@.len());
    assert("pic_name"@.len() != "project_id"@.len());
    assert("pic_name"@.len() != "pm_description"@.len());
    assert("pic_name"@.len() != "pm_solution"@.len());
    assert("pic_name"@.len() != "pm_type"@.len());
    assert("pic_name"@.len() != "pm_project_date"@.len());
    assert("pic_email"@.len() != "project_id"@.len());
    assert("pic_email"@.len() != "pm_description"@.len());
    assert("pic_email"@.len() != "pm_solution"@.len());
    assert("pic_email"@.len() != "pm_type"@.len());
    assert("pic_email"@.len() != "pm_project_date"@.len());
    assert("pic_email"@.len() != "pic_name"@.len());
    assert("pic_unit_id"@.len() != "project_id"@.len());
    assert("pic_unit_id"@.len() != "pm_description"@.len());
    assert("pic_unit_id"@[1] != "pm_solution"@[1]);
    assert("pic_unit_id"@.len() != "pm_type"@.len());
    assert("pic_unit_id"@.len() != "pm_project_date"@.len());
    assert("pic_unit_id"@.len() != "pic_name"@.len());
    assert("pic_unit_id"@.len() != "pic_email"@.len());
    lemma_parse_i32_of_decimal(n);
}

proof fn lemma_field_value_at(fields: Seq<(String, String)>, name: Seq<char>, i: int)
    requires
        0 <= i < fields.len(),
        fields[i].0@ == name,
        forall|k: int| i < k < fields.len() ==> (#[trigger] fields[k]).0@ != name,
    ensures
        field_value(fields, name) == Some(fields[i].1),
    decreases fields.len(),
{
    let l = fields.len() - 1;
    if i < l {
        let rest = fields.drop_last();
        assert(fields[l].0@ != name);
        assert(rest[i] == fields[i]);
        assert forall|k: int| i < k < rest.len() implies (#[trigger] rest[k]).0@ != name by {
            assert(rest[k] == fields[k]);
        }
        lemma_field_value_at(rest, name, i);
    }
}

proof fn lemma_field_value_absent(fields: Seq<(String, String)>, name: Seq<char>)
    ensures
        (forall|i: int| 0 <= i < fields.len() ==> (#[trigger] fields[i]).0@ != name)
            <==> field_value(fields, name) is None,
    decreases fields.len(),
{
    if fields.len() > 0 {
        let rest = fields.drop_last();
        let l = fields.len() - 1;
        lemma_field_value_absent(rest, name);
        if forall|i: int| 0 <= i < fields.len() ==> (#[trigger] fields[i]).0@ != name {
            assert(fields[l].0@ != name);
            assert forall|i: int| 0 <= i < rest.len() implies (#[trigger] rest[i]).0@ != name by {
                assert(rest[i] == fields[i]);
            }
        } else if fields[l].0@ != name {
            let i = choose|i: int| 0 <= i < fields.len() && (#[trigger] fields[i]).0@ == name;
            assert(rest[i] == fields[i]);
        }
    }
}

/// The value of a form field is the value of the last field sent under that name,
/// whatever that value is (an empty text too); there is none only when no field of
/// that name was sent.
pub proof fn lemma_field_value_is_last_sent(fields: Seq<(String, String)>, name: Seq<char>)
    ensures
        (forall|i: int| 0 <= i < fields.len() ==> (#[trigger] fields[i]).0@ != name)
            <==> field_value(fields, name) is None,
        forall|i: int|
            0 <= i < fields.len() && (#[trigger] fields[i]).0@ == name && (forall|k: int|
                i < k < fields.len() ==> (#[trigger] fields[k]).0@ != name) ==> field_value(
                fields,
                name,
            ) == Some(fields[i].1),
{
    lemma_field_value_absent(fields, name);
    assert forall|i: int|
        0 <= i < fields.len() && (#[trigger] fields[i]).0@ == name && (forall|k: int|
            i < k < fields.len() ==> (#[trigger] fields[k]).0@ != name) implies field_value(
        fields,
        name,
    ) == Some(fields[i].1) by {
        lemma_field_value_at(fields, name, i);
    }
}

/// An edit form in which every mandatory field was sent, whatever the values of the
/// text ones (empty texts included), and whose last `id` and `project_id` read as
/// numbers, passes every check of `validate_pm_update`.
pub proof fn lemma_complete_edit_form_is_accepted(fields: Seq<(String, String)>)
    requires
        field_i32(fields, "id"@) is Some,
        field_i32(fields, "project_id"@) is Some,
        exists|i: int| 0 <= i < fields.len() && (#[trigger] fields[i]).0@ == "pm_description"@,
        exists|i: int| 0 <= i < fields.len() && (#[trigger] fields[i]).0@ == "pm_solution"@,
        exists|i: int| 0 <= i < fields.len() && (#[trigger] fields[i]).0@ == "pm_type"@,
        exists|i: int| 0 <= i < fields.len() && (#[trigger] fields[i]).0@ == "pm_project_date"@,
    ensures
        field_value(fields, "pm_description"@) is Some,
        field_value(fields, "pm_solution"@) is Some,
        field_value(fields, "pm_type"@) is Some,
        field_value(fields, "pm_project_date"@) is Some,
{
    lemma_field_value_is_last_sent(fields, "pm_description"@);
    lemma_field_value_is_last_sent(fields, "pm_solution"@);
    lemma_field_value_is_last_sent(fields, "pm_type"@);
    lemma_field_value_is_last_sent(fields, "pm_project_date"@);
}

} // verus!
