use crate::text::{find_char, has_prefix, is_first_of, text_eq, text_has_prefix};
use vstd::prelude::*;

verus! {

/// The relation tag of the discovery link that points at the server's
/// self-description.
pub const NODEINFO_SCHEMA: &'static str = "http://nodeinfo.diaspora.software/ns/schema/2.0";

/// The characters of the random part of a login state.
pub const NONCE_CHARSET: &'static str = "abcdefghijklmnopqrstuvwxyz0123456789";

/// Length of the random part of a login state.
pub const NONCE_LEN: usize = 64;

/// The two handshake families that remote servers speak.
#[derive(Debug, Clone, Copy, PartialEq, Eq, Structural)]
pub enum ProtocolFamily {
    /// Servers that hand out a one-time session and a hosted login page.
    Misskey,
    /// Servers that speak the standard authorization-code flow.
    Mastodon,
}

/// The software names that speak the session-based handshake.
pub open spec fn is_misskey_software(name: Seq<char>) -> bool {
    name == "misskey"@ || name == "cherrypick"@ || name == "castella"@
}

/// The handshake family of a server, from the software name it reports.
pub fn family_of(software: &str) -> (r: ProtocolFamily)
    ensures
        r == (if is_misskey_software(software@) {
            ProtocolFamily::Misskey
        } else {
            ProtocolFamily::Mastodon
        }),
{
    if text_eq(software, "misskey") || text_eq(software, "cherrypick") || text_eq(
        software,
        "castella",
    ) {
        ProtocolFamily::Misskey
    } else {
        ProtocolFamily::Mastodon
    }
}

/// A link of a server's discovery document.
#[derive(Debug)]
pub struct NodeInfoLink {
    pub rel: String,
    pub href: String,
}

/// The address of the first link whose relation is the self-description
/// schema, if any.
pub fn nodeinfo_href(links: &Vec<NodeInfoLink>) -> (r: Option<String>)
    ensures
        r is None <==> forall|i: int| 0 <= i < links@.len() ==> (#[trigger] links@[i]).rel@
            != NODEINFO_SCHEMA@,
        r is Some ==> exists|i: int|
            0 <= i < links@.len() && (#[trigger] links@[i]).rel@ == NODEINFO_SCHEMA@ && (forall|
                j: int,
            | 0 <= j < i ==> links@[j].rel@ != NODEINFO_SCHEMA@) && r->Some_0@ == links@[i].href@,
{
    let mut i: usize = 0;
    while i < links.len()
        invariant
            i <= links@.len(),
            forall|j: int| 0 <= j < i ==> (#[trigger] links@[j]).rel@ != NODEINFO_SCHEMA@,
        decreases links@.len() - i,
    {
        if text_eq(links[i].rel.as_str(), NODEINFO_SCHEMA) {
            let href = links[i].href.clone();
            assert(links@[i as int].rel@ == NODEINFO_SCHEMA@);
            return Some(href);
        }
        i = i + 1;
    }
    None
}

/// The text that starts every login state of the session-based handshake.
pub open spec fn misskey_prefix() -> Seq<char> {
    seq!['m', 'i', 's', 's', 'k', 'e', 'y', '_']
}

/// The login state of the session-based handshake: the prefix, then the
/// application's client id.
pub fn misskey_login_state(client_id: &str) -> (r: String)
    ensures
        r@ == misskey_prefix() + client_id@,
{
    proof {
        reveal_strlit("misskey_");
    }
    let mut s = String::from_str("misskey_");
    s.append(client_id);
    s
}

/// The login state of the authorization-code flow: a random nonce, `_`,
/// then the application's client id.
pub open spec fn mastodon_state_text(nonce: Seq<char>, client_id: Seq<char>) -> Seq<char> {
    nonce + seq!['_'] + client_id
}

/// A nonce drawn from the nonce characters, of the nonce length.
pub open spec fn is_nonce(nonce: Seq<char>) -> bool {
    nonce.len() == NONCE_LEN && forall|i: int| 0 <= i < nonce.len() ==> NONCE_CHARSET@.contains(
        #[trigger] nonce[i],
    )
}

/// Relies on `random_string::generate`: a text of `length` characters, each
/// drawn from `charset`; it panics on an empty charset.
#[verifier::external_body]
fn random_text(length: usize, charset: &str) -> (r: String)
    requires
        charset@.len() > 0,
    ensures
        r@.len() == length,
        forall|i: int| 0 <= i < r@.len() ==> charset@.contains(#[trigger] r@[i]),
{
    random_string::generate(length, charset)
}

/// Builds the login state of the authorization-code flow from a nonce.
pub fn mastodon_login_state(nonce: &str, client_id: &str) -> (r: String)
    ensures
        r@ == mastodon_state_text(nonce@, client_id@),
{
    proof {
        reveal_strlit("_");
    }
    let mut s = nonce.to_string();
    s.append("_");
    s.append(client_id);
    s
}

proof fn lemma_charset_has_no_separator()
    ensures
        !NONCE_CHARSET@.contains('_'),
{
    reveal_strlit("abcdefghijklmnopqrstuvwxyz0123456789");
    assert(NONCE_CHARSET@ == "abcdefghijklmnopqrstuvwxyz0123456789"@);
    if NONCE_CHARSET@.contains('_') {
        let i = choose|i: int| 0 <= i < NONCE_CHARSET@.len() && NONCE_CHARSET@[i] == '_';
        assert(false);
    }
}

/// A fresh login state of the authorization-code flow: a random nonce, `_`,
/// then the client id. It never starts like a state of the session-based
/// handshake, and its first `_` is the one just before the client id.
pub fn new_mastodon_login_state(client_id: &str) -> (r: String)
    ensures
        exists|nonce: Seq<char>| is_nonce(nonce) && r@ == mastodon_state_text(nonce, client_id@),
        !has_prefix(r@, misskey_prefix()),
        is_first_of(r@, '_', NONCE_LEN as int),
{
    proof {
        reveal_strlit("abcdefghijklmnopqrstuvwxyz0123456789");
    }
    let nonce = random_text(NONCE_LEN, NONCE_CHARSET);
    let r = mastodon_login_state(nonce.as_str(), client_id);
    proof {
        lemma_charset_has_no_separator();
        assert(is_nonce(nonce@));
        assert forall|j: int| 0 <= j < NONCE_LEN implies r@[j] != '_' by {
            assert(r@[j] == nonce@[j]);
            assert(NONCE_CHARSET@.contains(nonce@[j]));
        }
        assert(r@[NONCE_LEN as int] == '_');
        if has_prefix(r@, misskey_prefix()) {
            assert(r@.subrange(0, 8)[7] == '_');
            assert(r@[7] == '_');
        }
    }
    r
}

/// What the remote server handed back through the browser.
#[derive(Debug)]
pub enum RedirectQuery {
    /// The session-based handshake: the one-time session token.
    Misskey { token: String },
    /// The authorization-code flow: the echoed state and the code.
    Mastodon { state: String, code: String },
}

/// What is left to do after the callback has been checked.
#[derive(Debug)]
pub enum CallbackPlan {
    /// Exchange the token for a user, with the application found by client id.
    Misskey { client_id: String, token: String },
    /// Exchange the code for an access token, with the application found by
    /// client id, then ask who the token belongs to.
    Mastodon { client_id: String, state: String, code: String },
}

/// Why a login cannot go on.
#[derive(Debug, Clone, Copy, PartialEq, Eq, Structural)]
pub enum AuthError {
    /// A session-based login came back without its token.
    MissingToken,
    /// An authorization-code login came back without state and code.
    MissingState,
    /// The echoed state differs from the stored one, or is malformed.
    InvalidState,
    /// A session credential is expired or otherwise not valid.
    Unauthenticated,
}

/// Checks a callback against the login state stored with the browser. A
/// login state that starts with the session-based prefix expects a token; any
/// other expects a state equal to it, and names the application after its
/// first `_`. A callback whose state differs from the stored login state
/// never gets through.
pub fn plan_callback(session: &str, query: RedirectQuery) -> (r: Result<CallbackPlan, AuthError>)
    ensures
        query is Mastodon && query->state@ != session@ ==> r is Err,
        has_prefix(session@, misskey_prefix()) ==> match query {
            RedirectQuery::Misskey { token } => r matches Ok(
                CallbackPlan::Misskey { client_id: c, token: t },
            ) && c@ == session@.subrange(8, session@.len() as int) && t@ == token@,
            RedirectQuery::Mastodon { .. } => r == Err::<CallbackPlan, AuthError>(
                AuthError::MissingToken,
            ),
        },
        !has_prefix(session@, misskey_prefix()) ==> match query {
            RedirectQuery::Mastodon { state, code } => if state@ != session@ || !session@.contains(
                '_',
            ) {
                r == Err::<CallbackPlan, AuthError>(AuthError::InvalidState)
            } else {
                r matches Ok(CallbackPlan::Mastodon { client_id: c, state: s, code: k }) && (exists|
                    i: int,
                |
                    is_first_of(session@, '_', i) && c@ == session@.subrange(
                        i + 1,
                        session@.len() as int,
                    )) && s@ == state@ && k@ == code@
            },
            RedirectQuery::Misskey { .. } => r == Err::<CallbackPlan, AuthError>(
                AuthError::MissingState,
            ),
        },
{
    proof {
        reveal_strlit("misskey_");
        assert("misskey_"@ =~= misskey_prefix());
    }
    let n = session.unicode_len();
    if text_has_prefix(session, "misskey_") {
        match query {
            RedirectQuery::Misskey { token } => {
                let client_id = session.substring_char(8, n).to_string();
                Ok(CallbackPlan::Misskey { client_id, token })
            },
            RedirectQuery::Mastodon { .. } => Err(AuthError::MissingToken),
        }
    } else {
        match query {
            RedirectQuery::Mastodon { state, code } => {
                if !text_eq(state.as_str(), session) {
                    return Err(AuthError::InvalidState);
                }
                match find_char(session, '_') {
                    None => {
                        proof {
                            if session@.contains('_') {
                                let j = choose|j: int|
                                    0 <= j < session@.len() && session@[j] == '_';
                                assert(session@[j] != '_');
                            }
                        }
                        Err(AuthError::InvalidState)
                    },
                    Some(i) => {
                        let client_id = session.substring_char(i + 1, n).to_string();
                        proof {
                            assert(session@.contains('_')) by {
                                assert(session@[i as int] == '_');
                            }
                        }
                        Ok(CallbackPlan::Mastodon { client_id, state, code })
                    },
                }
            },
            RedirectQuery::Misskey { .. } => Err(AuthError::MissingState),
        }
    }
}


/// The `application/x-www-form-urlencoded` form of a text.
pub uninterp spec fn form_encoded(s: Seq<char>) -> Seq<char>;

/// Relies on `url::form_urlencoded::byte_serialize`, collected into a
/// `String`: the form-urlencoded text of the UTF-8 bytes of `s`, which
/// depends on `s` alone.
#[verifier::external_body]
fn form_encode(s: &str) -> (r: String)
    ensures
        r@ == form_encoded(s@),
{
    url::form_urlencoded::byte_serialize(s.as_bytes()).collect()
}

/// The authorization page of the code flow on `host`, from query values that
/// are already form-encoded.
pub open spec fn authorize_url_text(
    host: Seq<char>,
    client_id: Seq<char>,
    redirect_uri: Seq<char>,
    state: Seq<char>,
) -> Seq<char> {
    "https://"@ + host + "/oauth/authorize?client_id="@ + client_id + "&scope=&redirect_uri="@
        + redirect_uri + "&response_type=code&state="@ + state
}

/// Writes the address of the authorization page from form-encoded values:
/// the client id, an empty scope, the redirect address, the code response
/// type, and the login state.
pub fn compose_authorize_url(
    host: &str,
    encoded_client_id: &str,
    encoded_redirect_uri: &str,
    encoded_state: &str,
) -> (r: String)
    ensures
        r@ == authorize_url_text(host@, encoded_client_id@, encoded_redirect_uri@, encoded_state@),
{
    let mut s = String::from_str("https://");
    s.append(host);
    s.append("/oauth/authorize?client_id=");
    s.append(encoded_client_id);
    s.append("&scope=&redirect_uri=");
    s.append(encoded_redirect_uri);
    s.append("&response_type=code&state=");
    s.append(encoded_state);
    s
}

/// The address to which a user of the code flow is sent to sign in on
/// `host`, each query value form-encoded.
pub fn authorize_url(host: &str, client_id: &str, redirect_uri: &str, state: &str) -> (r: String)
    ensures
        r@ == authorize_url_text(
            host@,
            form_encoded(client_id@),
            form_encoded(redirect_uri@),
            form_encoded(state@),
        ),
{
    let client_id = form_encode(client_id);
    let redirect_uri = form_encode(redirect_uri);
    let state = form_encode(state);
    compose_authorize_url(host, client_id.as_str(), redirect_uri.as_str(), state.as_str())
}

} // verus!
