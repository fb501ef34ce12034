use vstd::prelude::*;
use crate::util::password::utf8_bytes;

verus! {

/// A byte that URL encoding leaves as it is: ASCII letters and digits, `-`, `_`, `.`
/// and `~`.
pub open spec fn url_safe_byte(b: u8) -> bool {
    (48 <= b <= 57) || (65 <= b <= 90) || (97 <= b <= 122) || b == 45 || b == 46 || b == 95
        || b == 126
}

/// An uppercase hexadecimal digit for `d < 16`.
pub open spec fn hex_upper(d: u8) -> char {
    if d < 10 {
        (d + 48) as char
    } else {
        (d + 55) as char
    }
}

/// Percent-encoding: every byte but the safe ones becomes `%` and two uppercase
/// hexadecimal digits.
pub open spec fn percent_encode(bytes: Seq<u8>) -> Seq<char>
    decreases bytes.len(),
{
    if bytes.len() == 0 {
        Seq::empty()
    } else {
        let b = bytes[0];
        let head = if url_safe_byte(b) {
            seq![b as char]
        } else {
            seq!['%', hex_upper(b / 16), hex_upper(b % 16)]
        };
        head + percent_encode(bytes.drop_first())
    }
}

/// urlencoding's `encode(s)`: percent-encodes the UTF-8 bytes of `s`, leaving ASCII
/// letters and digits and `-`, `_`, `.`, `~` as they are.
#[verifier::external_body]
fn url_encode(s: &str) -> (out: String)
    ensures
        out@ == percent_encode(utf8_bytes(s@)),
{
    urlencoding::encode(s).into_owned()
}

/// The connection URL `<scheme>://<user>:<password>@<host>:<port>/<db>`, with the
/// password percent-encoded.
pub open spec fn connection_url(
    scheme: Seq<char>,
    user: Seq<char>,
    password_bytes: Seq<u8>,
    host: Seq<char>,
    port: Seq<char>,
    db: Seq<char>,
) -> Seq<char> {
    scheme + "://"@ + user + ":"@ + percent_encode(password_bytes) + "@"@ + host + ":"@ + port + "/"@
        + db
}

pub fn database_url(scheme: &str, user: &str, password: &str, host: &str, port: &str, db: &str) -> (url:
    String)
    ensures
        url@ == connection_url(scheme@, user@, utf8_bytes(password@), host@, port@, db@),
{
    let encoded = url_encode(password);
    let mut url = scheme.to_owned();
    url.append("://");
    url.append(user);
    url.append(":");
    url.append(encoded.as_str());
    url.append("@");
    url.append(host);
    url.append(":");
    url.append(port);
    url.append("/");
    url.append(db);
    url
}

} // verus!
