//! What signing in computes: the hash that stands for a password, the line
//! under which credentials are kept, and what the server's answers hold.

use crate::error::{FetchError, RepositoryError};
use crate::html::{self, dom_nodes, parsed_nodes, HtmlNode};
use crate::text;
use sha1::{Digest, Sha1};
use tl::VDom;
use vstd::prelude::*;
use vstd::string::{StringExecFns, StringSliceAdditionalSpecFns};

verus! {

/// The SHA-1 digest of a run of bytes.
pub uninterp spec fn sha1_of(bytes: Seq<u8>) -> Seq<u8>;

/// Calls `Sha1::digest`: the digest of the bytes.
#[verifier::external_body]
pub(crate) fn sha1_digest(bytes: &[u8]) -> (digest: Vec<u8>)
    ensures
        digest@ == sha1_of(bytes@),
{
    Sha1::digest(bytes).to_vec()
}

/// The hexadecimal digit for a number below sixteen, in lowercase.
pub open spec fn hex_digit(n: int) -> char {
    seq!['0', '1', '2', '3', '4', '5', '6', '7', '8', '9', 'a', 'b', 'c', 'd', 'e', 'f'][n]
}

/// Bytes in hexadecimal: two lowercase digits for each byte, the high half first.
pub open spec fn hex_of(bytes: Seq<u8>) -> Seq<char>
    decreases bytes.len(),
{
    if bytes.len() == 0 {
        Seq::empty()
    } else {
        hex_of(bytes.drop_last()) + seq![
            hex_digit(bytes.last() as int / 16),
            hex_digit(bytes.last() as int % 16),
        ]
    }
}

/// Calls `hex::encode`: two lowercase hexadecimal digits for each byte.
#[verifier::external_body]
pub(crate) fn hex_encode(bytes: &Vec<u8>) -> (digits: String)
    ensures
        digits@ == hex_of(bytes@),
{
    hex::encode(bytes)
}

/// The hash that stands for a password: the SHA-1 digest of its bytes in
/// hexadecimal digits.
pub open spec fn password_hash_of(password: Seq<char>) -> Seq<char> {
    hex_of(sha1_of(vstd::utf8::encode_utf8(password)))
}

/// The name of the field that carries the server's token against forged requests.
pub const TOKEN_FIELD: &'static str = "__RequestVerificationToken";

/// The name of the cookie that carries the session.
pub const SESSION_COOKIE: &'static str = "ASP.NET_SessionId";

/// The variable under which the session is kept.
pub const SESSION_VARIABLE: &'static str = "ENTAB_SESSION_ID";

/// The variable under which the proof of the sign-in is kept.
pub const AUTH_VARIABLE: &'static str = "ENTAB_ASPXAUTH";

/// The variable that a cookie of the given name is kept under.
pub open spec fn variable_of(name: Seq<char>) -> Seq<char> {
    if name == SESSION_COOKIE@ {
        SESSION_VARIABLE@
    } else {
        AUTH_VARIABLE@
    }
}

/// What a cookie sets: the variable for its name, and its value, which ends
/// at the first semicolon. A cookie without `=` sets nothing.
pub open spec fn cookie_of(cookie: Seq<char>) -> Option<(Seq<char>, Seq<char>)> {
    let parts = text::pieces(cookie, '=');
    if parts.len() < 2 {
        None
    } else {
        Some((variable_of(parts[0]), text::pieces(parts[1], ';')[0]))
    }
}

/// The credentials on a line: the user's name before the first colon, the
/// password's hash after it, up to the next colon. A line without a colon
/// holds none.
pub open spec fn credentials_of(line: Seq<char>) -> Option<(Seq<char>, Seq<char>)> {
    let parts = text::pieces(line, ':');
    if parts.len() < 2 {
        None
    } else {
        Some((parts[0], parts[1]))
    }
}

/// A node is the field of a form that carries the token.
pub open spec fn is_token_field(node: HtmlNode) -> bool {
    node.tag == Some("input"@) && node.attributes.contains_key("name"@) && node.attributes["name"@]
        == TOKEN_FIELD@
}

/// The token among the first `upto` nodes: the value of the last field that
/// carries it, empty where there is no such field. A field without a value
/// is an error.
pub open spec fn token_upto(nodes: Seq<HtmlNode>, upto: int) -> Option<Seq<char>>
    decreases upto,
{
    if upto <= 0 {
        Some(Seq::empty())
    } else {
        match token_upto(nodes, upto - 1) {
            None => None,
            Some(before) => if is_token_field(nodes[upto - 1]) {
                if nodes[upto - 1].attributes.contains_key("value"@) {
                    Some(nodes[upto - 1].attributes["value"@])
                } else {
                    None
                }
            } else {
                Some(before)
            },
        }
    }
}

/// A field without a value leaves the page without token, however long it is.
pub proof fn lemma_no_token_stays(nodes: Seq<HtmlNode>, at: int, upto: int)
    requires
        at <= upto,
        token_upto(nodes, at) is None,
    ensures
        token_upto(nodes, upto) is None,
    decreases upto - at,
{
    if at < upto {
        lemma_no_token_stays(nodes, at, upto - 1);
    }
}

/// The token on the sign-in page.
pub open spec fn token_of(page: Seq<char>) -> Option<Seq<char>> {
    match parsed_nodes(page) {
        Some(nodes) => token_upto(nodes, nodes.len() as int),
        None => None,
    }
}

/// Where the credentials of a sign-in come from.
#[derive(Debug, PartialEq, Eq)]
pub enum Credentials {
    /// The credentials that were kept are sent as they are.
    Stored { username: String, hash: String },
    /// The user is asked; what is typed is kept only if `store` says so.
    Ask { store: bool },
}

/// Where the credentials come from, as plain values.
pub enum CredentialsView {
    Stored { username: Seq<char>, hash: Seq<char> },
    Ask { store: bool },
}

impl View for Credentials {
    type V = CredentialsView;

    open spec fn view(&self) -> CredentialsView {
        match *self {
            Credentials::Stored { username, hash } => CredentialsView::Stored {
                username: username@,
                hash: hash@,
            },
            Credentials::Ask { store } => CredentialsView::Ask { store },
        }
    }
}

/// Where the credentials come from: kept credentials are used only if they
/// are asked for, were found, and hold a name and a hash; otherwise the user
/// is asked.
pub open spec fn credentials_from(store: bool, fetch: bool, kept: Option<Seq<char>>)
    -> CredentialsView {
    match kept {
        Some(line) => match credentials_of(line) {
            Some((username, hash)) => if fetch {
                CredentialsView::Stored { username, hash }
            } else {
                CredentialsView::Ask { store }
            },
            None => CredentialsView::Ask { store },
        },
        None => CredentialsView::Ask { store },
    }
}

/// What is sent for credentials that the user typed, and the line to keep
/// them under if they are to be kept.
#[derive(Debug, PartialEq, Eq)]
pub struct Typed {
    pub username: String,
    /// The hash of the password; the password itself is not sent.
    pub hash: String,
    /// The line for the credentials file, if the credentials are to be kept.
    pub keep: Option<String>,
}

/// Signing in.
pub struct Login;

impl Login {
    /// The hash that is sent and kept in place of a password.
    pub fn password_hash(password: &str) -> (digest: String)
        ensures
            digest@ == password_hash_of(password@),
    {
        let digest = sha1_digest(password.as_bytes());
        hex_encode(&digest)
    }

    /// Decides where the credentials of a sign-in come from. `kept` is what
    /// the credentials file holds, if it could be read.
    pub fn login(store_credentials: bool, fetch_credentials: bool, kept: Option<&str>) -> (plan:
        Credentials)
        ensures
            plan@ == credentials_from(
                store_credentials,
                fetch_credentials,
                match kept {
                    Some(line) => Some(line@),
                    None => None,
                },
            ),
    {
        if fetch_credentials {
            match kept {
                Some(line) => match Login::fetch_credentials(line) {
                    Some((username, hash)) => {
                        return Credentials::Stored { username, hash };
                    },
                    None => {},
                },
                None => {},
            }
        }
        Credentials::Ask { store: store_credentials }
    }

    /// Prepares credentials that the user typed: the password is hashed once,
    /// and the line for the credentials file is made if they are to be kept.
    pub fn typed(username: &str, password: &str, store: bool) -> (typed: Typed)
        ensures
            typed.username@ == username@,
            typed.hash@ == password_hash_of(password@),
            match typed.keep {
                Some(line) => store && line@ == username@ + seq![':'] + password_hash_of(password@),
                None => !store,
            },
    {
        let hash = Login::password_hash(password);
        let keep = if store {
            Some(Login::store_credentials(username, hash.as_str()))
        } else {
            None
        };
        Typed { username: String::from_str(username), hash, keep }
    }

    /// The line under which credentials are kept: the user's name, a colon,
    /// the password's hash.
    pub fn store_credentials(username: &str, password: &str) -> (line: String)
        ensures
            line@ == username@ + seq![':'] + password@,
    {
        proof {
            reveal_strlit(":");
        }
        assert(":"@ =~= seq![':']);
        let mut line = String::from_str(username);
        line.append(":");
        line.append(password);
        line
    }

    /// Reads the credentials from the line under which they are kept.
    pub fn fetch_credentials(contents: &str) -> (out: Option<(String, String)>)
        ensures
            match out {
                Some((username, password)) => credentials_of(contents@) == Some(
                    (username@, password@),
                ),
                None => credentials_of(contents@) is None,
            },
    {
        let parts = text::split(contents, ':');
        assert(text::string_views(parts@).len() == parts@.len());
        if parts.len() < 2 {
            None
        } else {
            Some((parts[0].clone(), parts[1].clone()))
        }
    }

    /// Reads what one `Set-Cookie` header of the server's answer sets.
    pub fn session_cookie(cookie: &str) -> (out: Option<(String, String)>)
        ensures
            match out {
                Some((variable, value)) => cookie_of(cookie@) == Some((variable@, value@)),
                None => cookie_of(cookie@) is None,
            },
    {
        let parts = text::split(cookie, '=');
        assert(text::string_views(parts@).len() == parts@.len());
        if parts.len() < 2 {
            return None;
        }
        let values = text::split(parts[1].as_str(), ';');
        assert(text::string_views(values@).len() == values@.len());
        proof {
            lemma_pieces_nonempty(parts@[1]@, ';');
        }
        let variable = if parts[0] == String::from_str(SESSION_COOKIE) {
            String::from_str(SESSION_VARIABLE)
        } else {
            String::from_str(AUTH_VARIABLE)
        };
        Some((variable, values[0].clone()))
    }

    /// Reads the token from the sign-in page: the value of the last field
    /// named for it, or nothing where the page has no such field. A page that
    /// cannot be parsed, or whose field has no value, is malformed.
    pub fn get_request_verification_token(page: &str) -> (out: Result<String, RepositoryError>)
        ensures
            match out {
                Ok(token) => token_of(page@) == Some(token@),
                Err(error) => token_of(page@) is None && error == RepositoryError::Fetch(
                    FetchError::Malformed,
                ),
            },
    {
        let dom = match html::parse(page) {
            Ok(dom) => dom,
            Err(_) => {
                return Err(RepositoryError::Fetch(FetchError::Malformed));
            },
        };
        let ghost nodes = dom_nodes(dom);
        let count = html::node_count(&dom);
        let mut token = String::new();
        let mut at: usize = 0;
        while at < count
            invariant
                at <= count == nodes.len(),
                nodes == dom_nodes(dom),
                token_of(page@) == token_upto(nodes, nodes.len() as int),
                token_upto(nodes, at as int) == Some(token@),
            decreases count - at,
        {
            let is_input = match html::node_tag(&dom, at) {
                Some(name) => name == String::from_str("input"),
                None => false,
            };
            let named = match html::node_attribute(&dom, at, "name") {
                Some(name) => name == String::from_str(TOKEN_FIELD),
                None => false,
            };
            if is_input && named {
                match html::node_attribute(&dom, at, "value") {
                    Some(value) => {
                        token = value;
                    },
                    None => {
                        proof {
                            lemma_no_token_stays(nodes, at + 1, count as int);
                        }
                        return Err(RepositoryError::Fetch(FetchError::Malformed));
                    },
                }
            }
            at += 1;
        }
        Ok(token)
    }
}

/// A text has one piece at least.
pub proof fn lemma_pieces_nonempty(s: Seq<char>, sep: char)
    ensures
        text::pieces(s, sep).len() >= 1,
    decreases s.len(),
{
    if s.len() > 0 {
        lemma_pieces_nonempty(s.drop_first(), sep);
    }
}

} // verus!
