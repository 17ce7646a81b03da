//! Tenants and user tokens of the authentication service: how keys and
//! tokens look, and when a token request or a stored token is accepted.

use crate::json::{json_parse, json_text, member, members_of, JsonTree, JsonValue};
use crate::text::{owned, prefixed};
use crate::wire::{as_i64, as_text, read_i64, read_text};
use vstd::string::*;
use rand::Rng;
use vstd::prelude::*;

verus! {

/// A letter or a digit of ASCII.
pub open spec fn is_alphanumeric(c: char) -> bool {
    ('A' <= c && c <= 'Z') || ('a' <= c && c <= 'z') || ('0' <= c && c <= '9')
}

/// A character that an identifier may hold in a URL: a letter, a digit, `_`
/// or `-`.
pub open spec fn is_url_safe(c: char) -> bool {
    is_alphanumeric(c) || c == '_' || c == '-'
}

/// A text of `len` letters and digits.
pub open spec fn alphanumeric_text(text: Seq<char>, len: nat) -> bool {
    text.len() == len && forall|i: int| 0 <= i < text.len() ==> is_alphanumeric(#[trigger] text[i])
}

/// A text of `len` characters that are safe in a URL.
pub open spec fn url_safe_text(text: Seq<char>, len: nat) -> bool {
    text.len() == len && forall|i: int| 0 <= i < text.len() ==> is_url_safe(#[trigger] text[i])
}

/// The secret key and the project identifier of one tenant.
#[derive(Debug)]
pub struct TenantKeypair {
    secret_api_key: String,
    project_id: String,
}

impl TenantKeypair {
    /// The secret key as contracts see it.
    pub closed spec fn secret(&self) -> Seq<char> {
        self.secret_api_key@
    }

    /// The project identifier as contracts see it.
    pub closed spec fn project(&self) -> Seq<char> {
        self.project_id@
    }

    /// The pair made of a random segment for the key and a random
    /// identifier for the project.
    pub fn from_parts(random_segment: &str, random_id: &str) -> (r: TenantKeypair)
        ensures
            r.secret() == "peroxo_"@ + random_segment@,
            r.project() == "peroxo_pj_"@ + random_id@,
    {
        TenantKeypair {
            secret_api_key: prefixed("peroxo_", random_segment),
            project_id: prefixed("peroxo_pj_", random_id),
        }
    }

    /// A fresh pair: the key is `peroxo_` and 40 random letters and digits,
    /// the project identifier `peroxo_pj_` and 21 random URL-safe characters.
    pub fn new() -> (r: TenantKeypair)
        ensures
            exists|segment: Seq<char>|
                alphanumeric_text(segment, 40) && r.secret() == "peroxo_"@ + segment,
            exists|id: Seq<char>| url_safe_text(id, 21) && r.project() == "peroxo_pj_"@ + id,
    {
        let segment = random_alphanumeric(40);
        let id = random_url_safe_id();
        TenantKeypair::from_parts(segment.as_str(), id.as_str())
    }

    /// The secret key.
    pub fn get_secret_api_key(&self) -> (r: &String)
        ensures
            r@ == self.secret(),
    {
        &self.secret_api_key
    }

    /// The project identifier.
    pub fn get_project_id(&self) -> (r: &String)
        ensures
            r@ == self.project(),
    {
        &self.project_id
    }
}

/// What a user token stands for.
#[derive(Clone, Debug, PartialEq, Eq)]
pub struct UserToken {
    pub project_id: String,
    pub user_id: String,
    pub expires_at: u64,
}

/// How long a token lives, in seconds.
pub const TOKEN_TTL_SECS: u64 = 600;

impl UserToken {
    /// The token payload for a user, issued at `now` (seconds since the
    /// epoch): it expires `TOKEN_TTL_SECS` later. `None` where that moment
    /// does not fit 64 bits.
    pub fn issue(project_id: String, user_id: String, now: u64) -> (r: Option<UserToken>)
        ensures
            match r {
                Some(t) => now + TOKEN_TTL_SECS <= u64::MAX && t.project_id == project_id
                    && t.user_id == user_id && t.expires_at == now + TOKEN_TTL_SECS,
                None => now + TOKEN_TTL_SECS > u64::MAX,
            },
    {
        if now > u64::MAX - TOKEN_TTL_SECS {
            None
        } else {
            Some(UserToken { project_id, user_id, expires_at: now + TOKEN_TTL_SECS })
        }
    }

    /// Whether the token is still good at `now`: it is until the second
    /// after `expires_at`.
    pub fn is_live(&self, now: u64) -> (r: bool)
        ensures
            r == (now <= self.expires_at),
    {
        now <= self.expires_at
    }
}

/// The reading of a token payload.
pub struct UserTokenView {
    pub project_id: Seq<char>,
    pub user_id: Seq<char>,
    pub expires_at: u64,
}

impl View for UserToken {
    type V = UserTokenView;

    open spec fn view(&self) -> UserTokenView {
        UserTokenView {
            project_id: self.project_id@,
            user_id: self.user_id@,
            expires_at: self.expires_at,
        }
    }
}

/// The reading of an optional token payload.
pub open spec fn token_view(token: Option<UserToken>) -> Option<UserTokenView> {
    match token {
        Some(t) => Some(t@),
        None => None,
    }
}

/// The document under which a payload is stored. The moment of expiry must
/// fit 63 bits.
pub open spec fn token_tree(token: UserTokenView) -> JsonTree {
    JsonTree::Object(
        seq![
            ("project_id"@, JsonTree::Text(token.project_id)),
            ("user_id"@, JsonTree::Text(token.user_id)),
            ("expires_at"@, JsonTree::Int(token.expires_at as i64)),
        ],
    )
}

/// The payload that a stored document holds: an object with the texts
/// `project_id` and `user_id` and the whole number `expires_at`, which is
/// not negative.
pub open spec fn token_of_tree(tree: JsonTree) -> Option<UserTokenView> {
    match tree {
        JsonTree::Object(m) => match (
            as_text(member(m, "project_id"@)),
            as_text(member(m, "user_id"@)),
            as_i64(member(m, "expires_at"@)),
        ) {
            (Some(project_id), Some(user_id), Some(expires_at)) => if expires_at >= 0 {
                Some(UserTokenView { project_id, user_id, expires_at: expires_at as u64 })
            } else {
                None
            },
            _ => None,
        },
        _ => None,
    }
}

/// Whether a text looks like a token: it begins with `pxtok_`.
pub open spec fn has_token_prefix(token: Seq<char>) -> bool {
    token.len() >= 6 && token.subrange(0, 6) == "pxtok_"@
}

/// What the verification of a token finds, given the text stored under it,
/// if any, and the time in seconds since the epoch: the payload, where the
/// token looks like one, a payload is stored under it, and the payload has
/// not expired.
pub open spec fn verified(token: Seq<char>, stored: Option<Seq<char>>, now: u64) -> Option<
    UserTokenView,
> {
    if !has_token_prefix(token) {
        None
    } else {
        match stored {
            None => None,
            Some(text) => match json_parse(text) {
                None => None,
                Some(tree) => match token_of_tree(tree) {
                    Some(payload) => if now > payload.expires_at {
                        None
                    } else {
                        Some(payload)
                    },
                    None => None,
                },
            },
        }
    }
}

/// Whether a text looks like a token.
pub fn looks_like_token(token: &str) -> (r: bool)
    ensures
        r == has_token_prefix(token@),
{
    proof {
        reveal_strlit("pxtok_");
    }
    if token.unicode_len() < 6 {
        return false;
    }
    let ok = token.get_char(0) == 'p' && token.get_char(1) == 'x' && token.get_char(2) == 't'
        && token.get_char(3) == 'o' && token.get_char(4) == 'k' && token.get_char(5) == '_';
    proof {
        let head = token@.subrange(0, 6);
        if ok {
            assert(head =~= "pxtok_"@);
        } else {
            assert(head[0] == token@[0] && head[1] == token@[1] && head[2] == token@[2] && head[3]
                == token@[3] && head[4] == token@[4] && head[5] == token@[5]);
        }
    }
    ok
}

impl UserToken {
    /// The document under which the payload is stored, where its moment of
    /// expiry fits 63 bits. Reading the document gives the payload back.
    pub fn to_json(&self) -> (r: Option<JsonValue>)
        ensures
            match r {
                Some(value) => self.expires_at <= i64::MAX && value@ == token_tree(self@)
                    && token_of_tree(value@) == Some(self@),
                None => self.expires_at > i64::MAX,
            },
    {
        if self.expires_at > 9223372036854775807 {
            return None;
        }
        let mut m: Vec<(String, JsonValue)> = Vec::new();
        m.push((owned("project_id"), JsonValue::Text(self.project_id.clone())));
        m.push((owned("user_id"), JsonValue::Text(self.user_id.clone())));
        m.push((owned("expires_at"), JsonValue::Int(self.expires_at as i64)));
        proof {
            assert(members_of(m@) =~= token_tree(self@)->Object_0);
            reveal_strlit("project_id");
            reveal_strlit("user_id");
            reveal_strlit("expires_at");
            reveal_with_fuel(member, 4);
            assert("project_id"@[0] == 'p' && "expires_at"@[0] == 'e' && "user_id"@.len() == 7);
            let t = token_tree(self@)->Object_0;
            assert(as_text(member(t, "project_id"@)) == Some(self@.project_id));
            assert(as_text(member(t, "user_id"@)) == Some(self@.user_id));
            assert(as_i64(member(t, "expires_at"@)) == Some(self.expires_at as i64));
            assert(token_of_tree(token_tree(self@)) == Some(self@));
        }
        Some(JsonValue::object(m))
    }

    /// The text under which the payload is stored.
    pub fn payload(&self) -> (r: Option<String>)
        ensures
            match r {
                Some(text) => self.expires_at <= i64::MAX && text@ == json_text(token_tree(self@)),
                None => self.expires_at > i64::MAX,
            },
    {
        match self.to_json() {
            Some(value) => Some(value.to_text()),
            None => None,
        }
    }

    /// Reads a stored payload from its document.
    pub fn from_json(value: &JsonValue) -> (r: Option<UserToken>)
        ensures
            token_view(r) == token_of_tree(value@),
    {
        let m = match value.as_object() {
            Some(m) => m,
            None => {
                return None;
            },
        };
        let project_id = match read_text(m, "project_id") {
            Some(v) => v,
            None => {
                return None;
            },
        };
        let user_id = match read_text(m, "user_id") {
            Some(v) => v,
            None => {
                return None;
            },
        };
        let expires_at = match read_i64(m, "expires_at") {
            Some(v) => v,
            None => {
                return None;
            },
        };
        if expires_at < 0 {
            return None;
        }
        Some(UserToken { project_id, user_id, expires_at: expires_at as u64 })
    }
}

/// Verifies a token: `stored` is the text kept under it, if any, and `now`
/// the time in seconds since the epoch. See [`verified`].
pub fn verify_user_token(token: &str, stored: Option<String>, now: u64) -> (r: Option<UserToken>)
    ensures
        token_view(r) == verified(token@, crate::text::option_view(stored), now),
{
    if !looks_like_token(token) {
        return None;
    }
    let text = match stored {
        Some(text) => text,
        None => {
            return None;
        },
    };
    let value = match JsonValue::parse(text.as_str()) {
        Some(value) => value,
        None => {
            return None;
        },
    };
    match UserToken::from_json(&value) {
        Some(payload) => {
            if now > payload.expires_at {
                None
            } else {
                Some(payload)
            }
        },
        None => None,
    }
}

/// What is to be stored for a new token: the token as the key, the payload
/// as the value, and how long the store keeps it.
#[derive(Clone, Debug, PartialEq, Eq)]
pub struct StoredToken {
    pub token: String,
    pub payload: String,
    pub ttl_secs: u64,
}

/// Makes a token for a user at `now` (seconds since the epoch) and says
/// what is to be stored for it. Whatever token is drawn, it has the form of
/// one, and the payload names the project and the user and expires
/// `TOKEN_TTL_SECS` later. Nothing where that moment does not fit 63 bits.
pub fn store_user_token(project_id: &str, user_id: &str, now: u64) -> (r: Option<StoredToken>)
    ensures
        match r {
            Some(stored) => now + TOKEN_TTL_SECS <= i64::MAX && has_token_prefix(stored.token@)
                && stored.ttl_secs == TOKEN_TTL_SECS && stored.payload@ == json_text(
                token_tree(
                    UserTokenView {
                        project_id: project_id@,
                        user_id: user_id@,
                        expires_at: (now + TOKEN_TTL_SECS) as u64,
                    },
                ),
            ),
            None => now + TOKEN_TTL_SECS > i64::MAX,
        },
{
    let payload = match UserToken::issue(owned(project_id), owned(user_id), now) {
        Some(token) => match token.payload() {
            Some(payload) => payload,
            None => {
                return None;
            },
        },
        None => {
            return None;
        },
    };
    let token = generate_token();
    proof {
        reveal_strlit("pxtok_");
        let segment = choose|segment: Seq<char>|
            alphanumeric_text(segment, 24) && token@ == "pxtok_"@ + segment;
        assert(token@.subrange(0, 6) =~= "pxtok_"@);
    }
    Some(StoredToken { token, payload, ttl_secs: TOKEN_TTL_SECS })
}

/// A fresh token: `pxtok_` and 24 random letters and digits.
pub fn generate_token() -> (r: String)
    ensures
        exists|segment: Seq<char>| alphanumeric_text(segment, 24) && r@ == "pxtok_"@ + segment,
{
    let segment = random_alphanumeric(24);
    prefixed("pxtok_", segment.as_str())
}

/// The answer to a request for a tenant.
#[derive(Clone, Debug, PartialEq, Eq)]
pub struct GenerateTenantResponse {
    pub project_id: String,
    pub secret_api_key: String,
}

impl GenerateTenantResponse {
    /// The answer that hands a pair to its tenant.
    pub fn from_keypair(pair: &TenantKeypair) -> (r: GenerateTenantResponse)
        ensures
            r.project_id@ == pair.project(),
            r.secret_api_key@ == pair.secret(),
    {
        GenerateTenantResponse {
            project_id: pair.get_project_id().clone(),
            secret_api_key: pair.get_secret_api_key().clone(),
        }
    }
}

/// A request for a user token.
#[derive(Clone, Debug, PartialEq, Eq)]
pub struct GenerateUserTokenRequest {
    pub user_id: String,
    pub project_id: String,
    pub secret_api_key: String,
}

/// The answer to a request for a user token.
#[derive(Clone, Debug, PartialEq, Eq)]
pub struct GenerateUserTokenResponse {
    pub user_token: String,
}

/// Why a request for a user token is refused.
#[derive(Clone, Copy, Debug, PartialEq, Eq, Structural)]
pub enum TokenRequestError {
    /// No key is stored for the project.
    UnknownProject,
    /// The key in the request is not the stored one.
    WrongKey,
}

impl TokenRequestError {
    /// The message that the requester gets, with status 401.
    pub fn message(&self) -> (r: &'static str)
        ensures
            r@ == match self {
                TokenRequestError::UnknownProject => "Invalid project_id or secret_api_key"@,
                TokenRequestError::WrongKey => "Invalid secret_api_key"@,
            },
    {
        match self {
            TokenRequestError::UnknownProject => "Invalid project_id or secret_api_key",
            TokenRequestError::WrongKey => "Invalid secret_api_key",
        }
    }
}

impl GenerateUserTokenRequest {
    /// Whether the request may get a token, given the key stored for its
    /// project, if any: the keys must be the same text.
    pub fn authorize(&self, stored_key: &Option<String>) -> (r: Result<(), TokenRequestError>)
        ensures
            r == match stored_key {
                None => Err::<(), TokenRequestError>(TokenRequestError::UnknownProject),
                Some(key) => if key@ == self.secret_api_key@ {
                    Ok(())
                } else {
                    Err(TokenRequestError::WrongKey)
                },
            },
    {
        match stored_key {
            None => Err(TokenRequestError::UnknownProject),
            Some(key) => {
                if *key == self.secret_api_key {
                    Ok(())
                } else {
                    Err(TokenRequestError::WrongKey)
                }
            },
        }
    }
}

/// Draws `len` characters from `rand::distributions::Alphanumeric` with the
/// thread's generator. Whatever is drawn, the text has `len` characters, each
/// a letter or a digit of ASCII.
#[verifier::external_body]
fn random_alphanumeric(len: usize) -> (r: String)
    ensures
        alphanumeric_text(r@, len as nat),
{
    rand::thread_rng().sample_iter(&rand::distributions::Alphanumeric).take(len).map(char::from).collect()
}

/// Calls `nanoid::format` with the crate's default generator, its URL-safe
/// alphabet and its default length. Whatever is drawn, the identifier has 21
/// characters of that alphabet.
#[verifier::external_body]
fn random_url_safe_id() -> (r: String)
    ensures
        url_safe_text(r@, 21),
{
    nanoid::format(nanoid::rngs::default, &nanoid::alphabet::SAFE, 21)
}

} // verus!
