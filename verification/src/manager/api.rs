//! The HTTP API's decisions: the status of each command error, and the
//! optional bearer token.
use vstd::prelude::*;
use crate::manager::commands::CommandError;
use crate::text::{has_prefix, starts_with, str_eq, trim, trim_seq};

verus! {

/// HTTP status of a command error.
pub open spec fn command_status_spec(e: CommandError) -> u16 {
    match e {
        CommandError::KioskNotFound | CommandError::CommandNotFound => 404,
        CommandError::InvalidAction => 400,
        CommandError::IdMismatch => 409,
        CommandError::Storage(_) => 500,
    }
}

pub fn command_status(error: &CommandError) -> (r: u16)
    ensures
        r == command_status_spec(*error),
{
    match error {
        CommandError::KioskNotFound | CommandError::CommandNotFound => 404,
        CommandError::InvalidAction => 400,
        CommandError::IdMismatch => 409,
        CommandError::Storage(_) => 500,
    }
}

/// The token a request presents: the `Authorization` header without its
/// `Bearer ` prefix, trimmed; empty when absent or of another scheme.
pub open spec fn presented_token(header: Option<Seq<char>>) -> Seq<char> {
    match header {
        Some(h) => if starts_with(h, "Bearer "@) {
            trim_seq(h.subrange(7, h.len() as int))
        } else {
            Seq::empty()
        },
        None => Seq::empty(),
    }
}

pub open spec fn opt_str_view(o: Option<&str>) -> Option<Seq<char>> {
    match o {
        Some(s) => Some(s@),
        None => None,
    }
}

/// An empty configured token disables the check; otherwise the presented
/// token must equal it.
pub fn authorized(api_token: &str, header: Option<&str>) -> (r: bool)
    ensures
        r == (api_token@.len() == 0 || presented_token(opt_str_view(header)) == api_token@),
{
    if api_token.unicode_len() == 0 {
        return true;
    }
    proof {
        reveal_strlit("Bearer ");
    }
    let provided = match header {
        Some(h) => {
            if has_prefix(h, "Bearer ") {
                let rest = h.substring_char(7, h.unicode_len());
                trim(rest)
            } else {
                String::new()
            }
        },
        None => String::new(),
    };
    str_eq(provided.as_str(), api_token)
}

} // verus!
