//! The credential gate: the one comparison that stands between a request and
//! the protocol handler when a user and password are configured.

use vstd::prelude::*;
use axum::headers::authorization::Basic;
use axum::headers::{Authorization, Header};
use axum::http::HeaderValue;

verus! {

/// The status code of the answer to a request that is turned away.
pub const UNAUTHORIZED: u16 = 401;

/// A user name and a password, as sequences of characters.
pub struct Credential {
    pub user: Seq<char>,
    pub password: Seq<char>,
}

/// The user name and password that `Authorization::<Basic>::decode` of the
/// `headers` crate reads out of one `Authorization` header value made of the
/// bytes `value`; none where the bytes are no header value or the value is
/// no Basic authorization.
pub uninterp spec fn basic_credentials(value: Seq<u8>) -> Option<(Seq<char>, Seq<char>)>;

/// A decoded pair as a credential.
pub open spec fn credential_of(pair: Option<(Seq<char>, Seq<char>)>) -> Option<Credential> {
    match pair {
        Some((user, password)) => Some(Credential { user, password }),
        None => None,
    }
}

/// The characters of a decoded pair of strings.
pub open spec fn pair_text(pair: Option<(String, String)>) -> Option<(Seq<char>, Seq<char>)> {
    match pair {
        Some((user, password)) => Some((user@, password@)),
        None => None,
    }
}

/// The credential that a request presents: what its `Authorization` header
/// decodes to, none where it carries no such header.
pub open spec fn presented_by(authorization: Option<Seq<u8>>) -> Option<Credential> {
    match authorization {
        Some(value) => credential_of(basic_credentials(value)),
        None => None,
    }
}

/// Decodes one `Authorization` header value with the `headers` crate's
/// `Authorization::<Basic>::decode`. The contract claims only that the
/// outcome is a function of the bytes, named [`basic_credentials`]: what
/// that function is on given bytes is nowhere stated.
#[verifier::external_body]
fn decode_basic(value: &[u8]) -> (r: Option<(String, String)>)
    ensures
        pair_text(r) == basic_credentials(value@),
{
    let header = HeaderValue::from_bytes(value).ok()?;
    let auth = Authorization::<Basic>::decode(&mut std::iter::once(&header)).ok()?;
    Some((auth.username().to_owned(), auth.password().to_owned()))
}

/// The configured user and password.
#[derive(Debug, Clone, PartialEq, Eq)]
pub struct Account {
    user: String,
    password: String,
}

impl View for Account {
    type V = Credential;

    closed spec fn view(&self) -> Credential {
        Credential { user: self.user@, password: self.password@ }
    }
}

impl Account {
    pub fn new(user: String, password: String) -> (r: Account)
        ensures
            r@ == (Credential { user: user@, password: password@ }),
    {
        Account { user, password }
    }

    pub fn user(&self) -> (r: &str)
        ensures
            r@ == self@.user,
    {
        self.user.as_str()
    }

    pub fn password(&self) -> (r: &str)
        ensures
            r@ == self@.password,
    {
        self.password.as_str()
    }

    /// Whether the presented pair is this account's pair exactly.
    pub fn accepts(&self, user: &String, password: &String) -> (r: bool)
        ensures
            r == (self@ == (Credential { user: user@, password: password@ })),
    {
        self.user == *user && self.password == *password
    }
}

/// What becomes of a request at the credential gate.
#[derive(Debug, Clone, Copy, PartialEq, Eq, Structural)]
pub enum GateDecision {
    /// The request goes on to the protocol handler, unchanged.
    Forward,
    /// The request is answered at once with status 401; the handler is not
    /// called.
    Unauthorized,
}

impl GateDecision {
    /// The status code of its own answer; none where the request is
    /// forwarded and the handler answers.
    pub open spec fn spec_status(self) -> Option<u16> {
        match self {
            GateDecision::Forward => None,
            GateDecision::Unauthorized => Some(UNAUTHORIZED),
        }
    }

    /// The body of its own answer.
    pub open spec fn spec_body(self) -> Option<Seq<char>> {
        match self {
            GateDecision::Forward => None,
            GateDecision::Unauthorized => Some("Unauthorized"@),
        }
    }

    #[verifier::when_used_as_spec(spec_status)]
    pub fn status(self) -> (r: Option<u16>)
        ensures
            r == self.spec_status(),
    {
        match self {
            GateDecision::Forward => None,
            GateDecision::Unauthorized => Some(UNAUTHORIZED),
        }
    }

    pub fn body(self) -> (r: Option<String>)
        ensures
            crate::config::text_of(r) == self.spec_body(),
    {
        match self {
            GateDecision::Forward => None,
            GateDecision::Unauthorized => Some("Unauthorized".to_owned()),
        }
    }
}

/// The decision on a request that presents `presented`, where
/// `configured` is the credential the server was set up with: with none
/// configured every request passes; with one configured a request passes
/// only if it presents that very credential.
pub open spec fn gate_decision(configured: Option<Credential>, presented: Option<Credential>) -> GateDecision {
    match configured {
        None => GateDecision::Forward,
        Some(credential) => if presented == Some(credential) {
            GateDecision::Forward
        } else {
            GateDecision::Unauthorized
        },
    }
}

/// The credential gate in front of the protocol handler.
#[derive(Debug, Clone, PartialEq, Eq)]
pub enum Gate {
    /// No credential is configured.
    Disabled,
    /// A credential is configured.
    Enabled(Account),
}

impl View for Gate {
    type V = Option<Credential>;

    open spec fn view(&self) -> Option<Credential> {
        match self {
            Gate::Disabled => None,
            Gate::Enabled(account) => Some(account@),
        }
    }
}

impl Gate {
    /// The credential gate for an optional account.
    pub fn new(account: Option<Account>) -> (r: Gate)
        ensures
            r@ == (match account {
                Some(a) => Some(a@),
                None => None,
            }),
    {
        match account {
            Some(account) => Gate::Enabled(account),
            None => Gate::Disabled,
        }
    }

    /// Decides on a request whose `Authorization` header was decoded to
    /// `presented`; none stands for a missing or malformed header.
    pub fn check(&self, presented: &Option<(String, String)>) -> (r: GateDecision)
        ensures
            r == gate_decision(self@, credential_of(pair_text(*presented))),
    {
        match self {
            Gate::Disabled => GateDecision::Forward,
            Gate::Enabled(account) => match presented {
                Some((user, password)) => if account.accepts(user, password) {
                    GateDecision::Forward
                } else {
                    GateDecision::Unauthorized
                },
                None => GateDecision::Unauthorized,
            },
        }
    }

    /// Decides on a request by the bytes of its first `Authorization` header
    /// value; none where the request has no such header. The header is not
    /// decoded where the credential gate is disabled.
    pub fn screen(&self, authorization: Option<&[u8]>) -> (r: GateDecision)
        ensures
            r == gate_decision(
                self@,
                presented_by(
                    match authorization {
                        Some(value) => Some(value@),
                        None => None,
                    },
                ),
            ),
    {
        match self {
            Gate::Disabled => GateDecision::Forward,
            Gate::Enabled(_) => match authorization {
                Some(value) => {
                    let presented = decode_basic(value);
                    self.check(&presented)
                },
                None => self.check(&None),
            },
        }
    }
}

/// With a credential configured, a request passes exactly when it presents
/// that credential: another user, another password, or no credential at all
/// are all turned away with status 401.
pub proof fn lemma_gate_is_exact(configured: Credential, presented: Option<Credential>)
    ensures
        gate_decision(Some(configured), presented) == GateDecision::Forward <==> presented == Some(configured),
        gate_decision(Some(configured), presented) == GateDecision::Unauthorized <==> presented != Some(
            configured,
        ),
        gate_decision(Some(configured), None) == GateDecision::Unauthorized,
        gate_decision(Some(configured), presented).spec_status() is Some ==> gate_decision(
            Some(configured),
            presented,
        ).spec_status() == Some(401u16),
{
}

/// With no credential configured every request passes, whatever it
/// presents.
pub proof fn lemma_disabled_gate_passes_all(presented: Option<Credential>)
    ensures
        gate_decision(None, presented) == GateDecision::Forward,
{
}

/// With no credential configured a request passes whatever its
/// `Authorization` header holds, and without one too.
pub proof fn lemma_disabled_gate_ignores_header(authorization: Option<Seq<u8>>)
    ensures
        gate_decision(None, presented_by(authorization)) == GateDecision::Forward,
{
}

/// A request without an `Authorization` header presents nothing, so an
/// enabled gate turns it away.
pub proof fn lemma_missing_header_is_refused(configured: Credential)
    ensures
        gate_decision(Some(configured), presented_by(None)) == GateDecision::Unauthorized,
{
}

} // verus!
