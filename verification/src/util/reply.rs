use vstd::prelude::*;

verus! {

/// How the text of an answer is shipped: as the `message` or `error` field of a JSON
/// object, as plain text, or not at all.
#[derive(Clone, Copy, PartialEq, Eq, Structural, Debug)]
pub enum ReplyKey {
    Message,
    Error,
    Text,
    Empty,
}

/// An HTTP answer: its status code and its text.
pub struct Reply {
    pub status: u16,
    pub key: ReplyKey,
    pub text: String,
}

/// A JSON `{"message": text}` answer.
pub fn message(status: u16, text: &str) -> (r: Reply)
    ensures
        r.status == status,
        r.key == ReplyKey::Message,
        r.text@ == text@,
{
    Reply { status, key: ReplyKey::Message, text: text.to_owned() }
}

/// A JSON `{"error": text}` answer.
pub fn error(status: u16, text: &str) -> (r: Reply)
    ensures
        r.status == status,
        r.key == ReplyKey::Error,
        r.text@ == text@,
{
    Reply { status, key: ReplyKey::Error, text: text.to_owned() }
}

/// A plain-text answer.
pub fn plain(status: u16, text: &str) -> (r: Reply)
    ensures
        r.status == status,
        r.key == ReplyKey::Text,
        r.text@ == text@,
{
    Reply { status, key: ReplyKey::Text, text: text.to_owned() }
}

/// An answer with no body.
pub fn empty(status: u16) -> (r: Reply)
    ensures
        r.status == status,
        r.key == ReplyKey::Empty,
        r.text@ == Seq::<char>::empty(),
{
    Reply { status, key: ReplyKey::Empty, text: String::new() }
}

/// `a` followed by `b`.
pub fn join(a: &str, b: &str) -> (r: String)
    ensures
        r@ == a@ + b@,
{
    let mut r = a.to_owned();
    r.append(b);
    r
}

/// `a`, `b` and `c` one after the other.
pub fn join3(a: &str, b: &str, c: &str) -> (r: String)
    ensures
        r@ == a@ + b@ + c@,
{
    let mut r = a.to_owned();
    r.append(b);
    r.append(c);
    r
}

} // verus!
