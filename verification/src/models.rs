use vstd::prelude::*;

verus! {

/// An account of the proxy: a name, the key it authenticates with, and whether it is disabled.
#[derive(Debug)]
pub struct User {
    pub id: i32,
    pub name: String,
    pub key: String,
    pub disabled: bool,
}

/// The fields of a user that is about to be created.
pub struct NewUser<'a> {
    pub name: &'a str,
    pub key: &'a str,
}

/// The fields of a site (a Cloudflare zone) that is about to be created.
pub struct NewSite<'a> {
    pub name: &'a str,
    pub zone: &'a str,
}

/// A site: a named Cloudflare zone.
#[derive(Debug)]
pub struct Site {
    pub id: i32,
    pub name: String,
    pub zone: String,
    pub disabled: bool,
}

/// The fields of a privilege that is about to be granted.
pub struct NewUserSitePrivilege<'a> {
    pub user_id: i32,
    pub site_id: i32,
    pub pattern: &'a str,
    pub superuser: bool,
}

/// A privilege of a user on a site: a regular expression over record names, or superuser
/// rights on the whole zone.
#[derive(PartialEq, Debug)]
pub struct UserSitePrivilege {
    pub id: i32,
    pub user_id: i32,
    pub site_id: i32,
    pub pattern: String,
    pub superuser: bool,
}

/// What a client asks for: its credentials, the zone, the record name, its type and value.
#[derive(Debug)]
pub struct UpdateRequest {
    pub user: String,
    pub key: String,
    pub zone: String,
    pub rec: String,
    pub rectype: String,
    pub value: String,
}

/// What a client is answered: whether the change was made, and a message or error code.
#[derive(Debug)]
pub struct UpdateResult {
    pub success: bool,
    pub e: String,
}

} // verus!
