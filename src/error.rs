//! The errors that the library reports, and the reading of a server's error reply.
use vstd::prelude::*;
use crate::json::{error_list, error_list_of};

verus! {

/// The strings of `parts` with a line break between each two.
pub open spec fn joined(parts: Seq<Seq<char>>) -> Seq<char>
    decreases parts.len(),
{
    if parts.len() == 0 {
        Seq::empty()
    } else if parts.len() == 1 {
        parts[0]
    } else {
        joined(parts.drop_last()) + seq!['\n'] + parts.last()
    }
}

/// The views of a list of strings.
pub open spec fn string_views(parts: Seq<String>) -> Seq<Seq<char>> {
    parts.map_values(|s: String| s@)
}

/// Every failure that the library hands back to its caller.
#[derive(Debug)]
pub enum VaultError {
    /// The identity token could not be read when the client was set up.
    Token(String),
    /// The transport failed to send a request or to receive its reply.
    Client(String),
    /// A request could not be built from its method, address, header or body.
    Http(String),
    /// A reply body is not the JSON that was expected.
    Parse(serde_json::Error),
    /// The server answered with a status other than 200; the message is its
    /// error list, one entry per line.
    Server(u16, String),
    /// A secret was asked for under a role that has no cached token.
    NotLogged,
}

/// `errors` joined with a line break between each two.
pub fn join_lines(errors: &Vec<String>) -> (r: String)
    ensures
        r@ == joined(string_views(errors@)),
{
    let mut out = String::new();
    let mut i: usize = 0;
    while i < errors.len()
        invariant
            i <= errors.len(),
            out@ == joined(string_views(errors@.take(i as int))),
        decreases errors.len() - i,
    {
        let ghost before = string_views(errors@.take(i as int));
        let ghost after = string_views(errors@.take(i + 1));
        assert(after.drop_last() =~= before);
        assert(after.last() == errors@[i as int]@);
        if i > 0 {
            proof {
                reveal_strlit("\n");
            }
            out.append("\n");
        }
        out.append(errors[i].as_str());
        i = i + 1;
    }
    assert(errors@.take(errors.len() as int) =~= errors@);
    out
}

/// The error for a reply of status `status` whose error list is `errors`.
pub fn vault_error(status: u16, errors: &Vec<String>) -> (r: VaultError)
    ensures
        r matches VaultError::Server(s, m) && s == status && m@ == joined(string_views(errors@)),
{
    VaultError::Server(status, join_lines(errors))
}

/// Reads the body of a reply that did not have status 200. A body whose
/// `errors` member is a list of strings gives the server's error under
/// `status`, its messages one per line; any other body a parse error.
pub fn server_error(status: u16, body: &str) -> (r: VaultError)
    ensures
        error_list_of(body@) matches Some(es) ==> r matches VaultError::Server(s, m) && s == status
            && m@ == joined(es),
        error_list_of(body@) is None ==> r is Parse,
{
    match error_list(body) {
        Err(e) => VaultError::Parse(e),
        Ok(errors) => vault_error(status, &errors),
    }
}

} // verus!
