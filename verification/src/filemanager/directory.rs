//! The folder in which a user's files are kept.

use crate::text::concat3;
use vstd::prelude::*;

verus! {

/// Asks `whoami::username` for the name of the user who runs the process. The
/// answer depends on the machine and the session: nothing is promised of it.
#[verifier::external_body]
fn get_username() -> String {
    whoami::username()
}

/// The folder of the user with the given name.
pub open spec fn folder_of(username: Seq<char>) -> Seq<char> {
    "/Users/"@ + username + "/Documents/Ruster Files/"@
}

/// The folder of the user with the given name.
pub fn folder_path_for(username: &str) -> (r: String)
    ensures
        r@ == folder_of(username@),
{
    concat3("/Users/", username, "/Documents/Ruster Files/")
}

/// The folder of the user who runs the process.
pub fn user_folder_path() -> (r: String)
    ensures
        exists|username: Seq<char>| r@ == #[trigger] folder_of(username),
{
    let username = get_username();
    folder_path_for(username.as_str())
}

} // verus!
