//! User identifiers: which desired names stand for an account of this server.
//!
//! The grammar of identifiers is `ruma`'s. What `ruma` answers is named here
//! and taken on trust; which of its answers the server accepts is decided in
//! verified code.

use vstd::prelude::*;
use ruma::{ServerName, UserId};

verus! {

/// `s` in lower case, as `str::to_lowercase` of the standard library gives it.
pub uninterp spec fn lowercase(s: Seq<char>) -> Seq<char>;

/// The full user id that `ruma::UserId::parse_with_server_name` makes of `id`
/// for the server `server_name`, or `None` where it rejects `id`, or where
/// `server_name` is no server name at all.
pub uninterp spec fn completed_user_id(id: Seq<char>, server_name: Seq<char>) -> Option<Seq<char>>;

/// What `ruma::UserId::is_historical` says of the user id `user_id`, or `None`
/// where `user_id` is no user id.
pub uninterp spec fn user_id_is_historical(user_id: Seq<char>) -> Option<bool>;

/// What `ruma::UserId::server_name` says of the user id `user_id`, or `None`
/// where `user_id` is no user id.
pub uninterp spec fn user_id_server_name(user_id: Seq<char>) -> Option<Seq<char>>;

/// What `ruma::UserId::localpart` says of the user id `user_id`, or `None`
/// where `user_id` is no user id.
pub uninterp spec fn user_id_localpart(user_id: Seq<char>) -> Option<Seq<char>>;

/// Calls `str::to_lowercase`. Trusted: the result is a function of the text
/// alone, named [`lowercase`]; nothing more is claimed of it.
#[verifier::external_body]
fn to_lowercase(s: &str) -> (res: String)
    ensures
        res@ == lowercase(s@),
{
    s.to_lowercase()
}

/// Calls `ruma::UserId::parse_with_server_name` and hands back the text of the
/// user id it made. Trusted: the result is a function of the two texts alone,
/// named [`completed_user_id`]; nothing more is claimed of it.
#[verifier::external_body]
pub(crate) fn parse_with_server_name(id: &str, server_name: &str) -> (res: Option<String>)
    ensures
        res.deep_view() == completed_user_id(id@, server_name@),
{
    match <&ServerName>::try_from(server_name) {
        Ok(server) => match UserId::parse_with_server_name(id, server) {
            Ok(user) => Some(user.as_str().to_owned()),
            Err(_) => None,
        },
        Err(_) => None,
    }
}

/// Calls `ruma::UserId::is_historical` on the user id that `user_id` spells.
/// Trusted: the result is a function of the text alone, named
/// [`user_id_is_historical`]; nothing more is claimed of it.
#[verifier::external_body]
fn is_historical(user_id: &str) -> (res: Option<bool>)
    ensures
        res == user_id_is_historical(user_id@),
{
    match <&UserId>::try_from(user_id) {
        Ok(user) => Some(user.is_historical()),
        Err(_) => None,
    }
}

/// Calls `ruma::UserId::server_name` on the user id that `user_id` spells.
/// Trusted: the result is a function of the text alone, named
/// [`user_id_server_name`]; nothing more is claimed of it.
#[verifier::external_body]
fn server_name(user_id: &str) -> (res: Option<String>)
    ensures
        res.deep_view() == user_id_server_name(user_id@),
{
    match <&UserId>::try_from(user_id) {
        Ok(user) => Some(user.server_name().as_str().to_owned()),
        Err(_) => None,
    }
}

/// Calls `ruma::UserId::localpart` on the user id that `user_id` spells.
/// Trusted: the result is a function of the text alone, named
/// [`user_id_localpart`]; nothing more is claimed of it.
#[verifier::external_body]
pub(crate) fn localpart(user_id: &str) -> (res: Option<String>)
    ensures
        res.deep_view() == user_id_localpart(user_id@),
{
    match <&UserId>::try_from(user_id) {
        Ok(user) => Some(user.localpart().to_owned()),
        Err(_) => None,
    }
}

/// Which parsed user ids the server takes for accounts of its own: those that
/// are not historical and whose server name is `own_server`.
pub open spec fn accepted_user_id(
    user_id: Seq<char>,
    historical: Option<bool>,
    server: Option<Seq<char>>,
    own_server: Seq<char>,
) -> Option<Seq<char>> {
    if historical == Some(false) && server == Some(own_server) {
        Some(user_id)
    } else {
        None
    }
}

/// Decides on a parsed user id from what was found out about it: `user_id` is
/// kept exactly when it is known not to be historical and to belong to
/// `own_server`.
pub fn accept_user_id(
    user_id: String,
    historical: Option<bool>,
    server: Option<String>,
    own_server: &str,
) -> (res: Option<String>)
    ensures
        res.deep_view() == accepted_user_id(
            user_id@,
            historical,
            server.deep_view(),
            own_server@,
        ),
{
    let own = own_server.to_owned();
    match (historical, server) {
        (Some(false), Some(name)) => {
            if name == own {
                Some(user_id)
            } else {
                None
            }
        },
        _ => None,
    }
}

/// The account that the desired name `name` stands for on `server_name`: the
/// name is put in lower case and completed to a user id, which is accepted if
/// it is not historical and belongs to this server.
pub open spec fn local_user_id_spec(name: Seq<char>, server_name: Seq<char>) -> Option<Seq<char>> {
    match completed_user_id(lowercase(name), server_name) {
        Some(user_id) => accepted_user_id(
            user_id,
            user_id_is_historical(user_id),
            user_id_server_name(user_id),
            server_name,
        ),
        None => None,
    }
}

/// The user id of the account that `name` stands for on this server, or
/// `None` where the name is not acceptable.
pub fn local_user_id(name: &str, server_name: &str) -> (res: Option<String>)
    ensures
        res.deep_view() == local_user_id_spec(name@, server_name@),
{
    let lower = to_lowercase(name);
    match parse_with_server_name(lower.as_str(), server_name) {
        Some(user_id) => {
            let historical = is_historical(user_id.as_str());
            let server = self::server_name(user_id.as_str());
            accept_user_id(user_id, historical, server, server_name)
        },
        None => None,
    }
}

/// The display name that a new account starts with: its localpart, a space
/// and a lightning sign.
pub open spec fn default_displayname_spec(localpart: Seq<char>) -> Seq<char> {
    localpart + " \u{26a1}\u{fe0f}"@
}

/// The display name that a new account with this localpart starts with.
pub fn default_displayname(localpart: &str) -> (res: String)
    ensures
        res@ == default_displayname_spec(localpart@),
{
    let mut name = localpart.to_owned();
    name.append(" \u{26a1}\u{fe0f}");
    name
}

} // verus!
