//! What the library asks of the machine it runs on.

use vstd::prelude::*;

verus! {

/// The text begins with a tilde.
pub open spec fn starts_with_tilde(path: Seq<char>) -> bool {
    path.len() > 0 && path[0] == '~'
}

/// `shellexpand::tilde`: a leading `~` that stands alone or before a slash is
/// replaced by the home directory of the user, where one is known. What is
/// claimed here is only that a path without a leading tilde comes back as it is.
#[verifier::external_body]
pub fn expand_key_path(key_path: &str) -> (expanded: String)
    ensures
        !starts_with_tilde(key_path@) ==> expanded@ == key_path@,
{
    shellexpand::tilde(key_path).to_string()
}

/// `chrono::Utc::now` and `DateTime::to_rfc3339`: the time of the system
/// clock as RFC 3339 text. Nothing is claimed of the text. The call does not
/// return where the clock stands before the year 1970.
#[verifier::external_body]
pub(crate) fn current_timestamp() -> String {
    chrono::Utc::now().to_rfc3339()
}

/// `uuid::Uuid::new_v4`: a random id, as text. Nothing is claimed of the text.
/// The call does not return where the system gives no random bytes.
#[verifier::external_body]
pub(crate) fn new_batch_id() -> String {
    uuid::Uuid::new_v4().to_string()
}

/// `hostname::get`: the name of the host, where the system tells it. Nothing
/// is claimed of the name.
#[verifier::external_body]
pub(crate) fn local_hostname() -> Option<String> {
    match hostname::get() {
        Ok(name) => Some(name.to_string_lossy().into_owned()),
        Err(_) => None,
    }
}

/// `String::push` of std: the character is appended to the text.
#[verifier::external_body]
pub(crate) fn push_char(text: &mut String, c: char)
    ensures
        final(text)@ == old(text)@.push(c),
{
    text.push(c)
}

} // verus!
