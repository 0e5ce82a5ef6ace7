use vstd::prelude::*;

verus! {

/// How the proxy authenticates itself to the Cloudflare API.
#[derive(Debug)]
pub enum ApiCredentials {
    /// The account's e-mail address and global API key.
    UserAuthKey { email: String, key: String },
    /// An API token.
    UserAuthToken { token: String },
}

/// The credentials the proxy is configured with: the API key together with the account's
/// e-mail address when a key is configured, otherwise the API token.
pub fn select_credentials(user: &Option<String>, key: &Option<String>, token: &Option<String>) -> (r:
    ApiCredentials)
    requires
        key is Some ==> user is Some,
        key is Some || token is Some,
    ensures
        match *key {
            Some(k) => r == (ApiCredentials::UserAuthKey { email: user->0, key: k }),
            None => r == (ApiCredentials::UserAuthToken { token: token->0 }),
        },
{
    match key {
        Some(k) => {
            let email = match user {
                Some(u) => u.clone(),
                None => {
                    proof {
                        assert(false);
                    }
                    String::new()
                },
            };
            ApiCredentials::UserAuthKey { email, key: k.clone() }
        },
        None => match token {
            Some(t) => ApiCredentials::UserAuthToken { token: t.clone() },
            None => {
                proof {
                    assert(false);
                }
                ApiCredentials::UserAuthToken { token: String::new() }
            },
        },
    }
}

} // verus!
