//! The failures of the authority: a class that decides the status shown to the
//! caller, and the exact predicate that failed.
use vstd::prelude::*;
use vstd::string::*;

verus! {

/// The class of a failure.
#[derive(Clone, Copy, Debug, PartialEq, Eq, Structural)]
pub enum ErrorKind {
    /// Malformed input or an unsupported value.
    BadFormat,
    /// The request targets a branch that the server does not speak.
    NotImplemented,
    /// A cryptographic, audience, nonce or subject mismatch.
    Security,
    /// A proof-of-possession or credential-request predicate failed.
    Forbidden,
    /// The bearer or GNAP header is missing.
    Unauthorized,
    /// A lookup returned nothing.
    MissingResource,
    /// The store refused an operation.
    Database,
    /// An outbound call to a client or wallet failed.
    Consumer,
    /// A local file could not be read.
    Read,
}

/// The predicate that failed.
#[derive(Clone, Copy, Debug, PartialEq, Eq, Structural)]
pub enum Reason {
    /// The grant request has no `interact` block.
    MissingInteract,
    /// Neither `oidc4vp` nor `cross-user` is among the start modes.
    UnsupportedStart,
    /// The finish block has no callback uri.
    MissingFinishUri,
    /// The credential type is not one the authority issues.
    UnknownVcType,
    /// The request holds no certificate.
    MissingCert,
    /// The certificate is not base64 of a DER X.509 certificate.
    InvalidCert,
    /// The interaction reference differs from the stored one.
    InteractRefMismatch,
    /// The continuation token differs from the stored one.
    ContinueTokenMismatch,
    /// The finish method is neither `redirect` nor `push`.
    UnsupportedFinishMethod,
    /// The client answered the callback with a status other than 200.
    CallbackRefused,
    /// The ceremony is closed to further change.
    Sealed,
    /// The token is not a JWT with a readable header.
    MalformedToken,
    /// The token header has no `kid`.
    MissingKid,
    /// The key material of the DID is not URL-safe base64.
    InvalidKeyEncoding,
    /// The key material of the DID is not a JWK.
    InvalidJwk,
    /// No verification key can be made of the JWK.
    UnsupportedKey,
    /// The signature or the registered claims of the token were refused.
    InvalidSignature,
    /// A claim is absent.
    MissingField,
    /// A claim is not a string.
    NotAString,
    /// A claim is not a list of strings.
    NotAList,
    /// A claim is not an unsigned integer.
    NotANumber,
    /// The nonce of the presentation differs from the one sent.
    NonceMismatch,
    /// `sub` differs from the key id.
    SubjectMismatch,
    /// `iss` differs from the key id.
    IssuerMismatch,
    /// The id of the presentation differs from the ceremony id.
    PresentationIdMismatch,
    /// The holder named in the presentation differs from the verified one.
    HolderMismatch,
    /// The id of the credential differs from `jti`.
    CredentialIdMismatch,
    /// The subject of the credential differs from the holder.
    CredentialSubjectMismatch,
    /// A validity bound is not an RFC 3339 date and time.
    InvalidDate,
    /// The validity period has not begun.
    NotYetValid,
    /// The validity period is over.
    Expired,
    /// The transaction code differs from the stored one.
    TxCodeMismatch,
    /// The pre-authorized code differs from the stored one.
    PreAuthCodeMismatch,
    /// The bearer token differs from the stored one.
    BearerMismatch,
    /// The credential format asked for is not `jwt_vc_json`.
    UnsupportedCredentialFormat,
    /// The proof type is not `jwt`.
    UnsupportedProofType,
    /// Issuer, subject and key id of the proof are not one DID.
    PossessionMismatch,
    /// The credential could not be signed.
    SigningFailed,
    /// No row has the key asked for.
    NotFound,
    /// A row with the same key exists already.
    Conflict,
    /// No request exists for the ceremony id of the row.
    Orphan,
    /// A secret that later lookups rely on is empty.
    EmptyKey,
    /// A configuration value cannot be read.
    InvalidSetting,
    /// The authorization header is absent or of another scheme.
    MissingToken,
}

/// A failure: its class, the predicate that failed, a free text for the log
/// and, for a refused callback, the status that the client reported.
#[derive(Clone, Debug, PartialEq, Eq)]
pub struct Errors {
    pub kind: ErrorKind,
    pub reason: Reason,
    pub detail: String,
    pub http_code: Option<u16>,
}

impl Errors {
    /// A failure of the given class and reason.
    pub fn new(kind: ErrorKind, reason: Reason, detail: &str) -> (e: Errors)
        ensures
            e.kind == kind,
            e.reason == reason,
            e.detail@ == detail@,
            e.http_code.is_none(),
    {
        Errors { kind, reason, detail: String::from_str(detail), http_code: None }
    }

    /// A failure of the class `BadFormat`.
    pub fn format_new(reason: Reason, detail: &str) -> (e: Errors)
        ensures
            e.kind == ErrorKind::BadFormat,
            e.reason == reason,
            e.detail@ == detail@,
            e.http_code.is_none(),
    {
        Errors::new(ErrorKind::BadFormat, reason, detail)
    }

    /// A failure of the class `NotImplemented`.
    pub fn not_impl_new(reason: Reason, detail: &str) -> (e: Errors)
        ensures
            e.kind == ErrorKind::NotImplemented,
            e.reason == reason,
            e.detail@ == detail@,
            e.http_code.is_none(),
    {
        Errors::new(ErrorKind::NotImplemented, reason, detail)
    }

    /// A failure of the class `Security`.
    pub fn security_new(reason: Reason, detail: &str) -> (e: Errors)
        ensures
            e.kind == ErrorKind::Security,
            e.reason == reason,
            e.detail@ == detail@,
            e.http_code.is_none(),
    {
        Errors::new(ErrorKind::Security, reason, detail)
    }

    /// A failure of the class `Forbidden`.
    pub fn forbidden_new(reason: Reason, detail: &str) -> (e: Errors)
        ensures
            e.kind == ErrorKind::Forbidden,
            e.reason == reason,
            e.detail@ == detail@,
            e.http_code.is_none(),
    {
        Errors::new(ErrorKind::Forbidden, reason, detail)
    }

    /// The failure of a request that lacks its authorization header.
    pub fn unauthorized_new(detail: &str) -> (e: Errors)
        ensures
            e.kind == ErrorKind::Unauthorized,
            e.reason == Reason::MissingToken,
            e.detail@ == detail@,
            e.http_code.is_none(),
    {
        Errors::new(ErrorKind::Unauthorized, Reason::MissingToken, detail)
    }

    /// The failure of a lookup by `key` that found nothing.
    pub fn missing_resource_new(key: &str) -> (e: Errors)
        ensures
            e.kind == ErrorKind::MissingResource,
            e.reason == Reason::NotFound,
            e.detail@ == key@,
            e.http_code.is_none(),
    {
        Errors::new(ErrorKind::MissingResource, Reason::NotFound, key)
    }

    /// A failure of the store.
    pub fn database_new(reason: Reason, detail: &str) -> (e: Errors)
        ensures
            e.kind == ErrorKind::Database,
            e.reason == reason,
            e.detail@ == detail@,
            e.http_code.is_none(),
    {
        Errors::new(ErrorKind::Database, reason, detail)
    }

    /// The failure of an outbound call to `url`, with the status that came back.
    pub fn consumer_new(url: &str, http_code: Option<u16>) -> (e: Errors)
        ensures
            e.kind == ErrorKind::Consumer,
            e.reason == Reason::CallbackRefused,
            e.detail@ == url@,
            e.http_code == http_code,
    {
        Errors {
            kind: ErrorKind::Consumer,
            reason: Reason::CallbackRefused,
            detail: String::from_str(url),
            http_code,
        }
    }

    /// The same failure in the `Security` class.
    pub fn into_security(self) -> (e: Errors)
        ensures
            e.kind == ErrorKind::Security,
            e.reason == self.reason,
            e.detail == self.detail,
            e.http_code == self.http_code,
    {
        Errors {
            kind: ErrorKind::Security,
            reason: self.reason,
            detail: self.detail,
            http_code: self.http_code,
        }
    }

    /// The HTTP status that stands for this failure.
    pub open spec fn spec_status(&self) -> u16 {
        match self.kind {
            ErrorKind::BadFormat => 400,
            ErrorKind::NotImplemented => 501,
            ErrorKind::Security => if self.reason == Reason::ContinueTokenMismatch || self.reason
                == Reason::InteractRefMismatch {
                401
            } else {
                403
            },
            ErrorKind::Forbidden => 403,
            ErrorKind::Unauthorized => 401,
            ErrorKind::MissingResource => 404,
            ErrorKind::Database => 500,
            ErrorKind::Consumer => match self.http_code {
                Some(code) => code,
                None => 502,
            },
            ErrorKind::Read => 500,
        }
    }

    /// The HTTP status that stands for this failure: 400 for malformed input,
    /// 501 for an unsupported branch, 401 where a continuation fails to
    /// authenticate and 403 for every other security failure, 403 for a refused
    /// credential request, 401 for a missing header, 404 for a missing row, 500
    /// for the store and for unreadable files, and for a refused callback the
    /// status that the client reported, or 502 where it reported none.
    pub fn status(&self) -> (code: u16)
        ensures
            code == self.spec_status(),
    {
        match self.kind {
            ErrorKind::BadFormat => 400,
            ErrorKind::NotImplemented => 501,
            ErrorKind::Security => if self.reason == Reason::ContinueTokenMismatch || self.reason
                == Reason::InteractRefMismatch {
                401
            } else {
                403
            },
            ErrorKind::Forbidden => 403,
            ErrorKind::Unauthorized => 401,
            ErrorKind::MissingResource => 404,
            ErrorKind::Database => 500,
            ErrorKind::Consumer => match self.http_code {
                Some(code) => code,
                None => 502,
            },
            ErrorKind::Read => 500,
        }
    }

    /// The name of the class, as it is logged.
    pub open spec fn kind_name_spec(&self) -> Seq<char> {
        match self.kind {
            ErrorKind::BadFormat => "BadFormat"@,
            ErrorKind::NotImplemented => "NotImplemented"@,
            ErrorKind::Security => "Security"@,
            ErrorKind::Forbidden => "Forbidden"@,
            ErrorKind::Unauthorized => "Unauthorized"@,
            ErrorKind::MissingResource => "MissingResource"@,
            ErrorKind::Database => "Database"@,
            ErrorKind::Consumer => "Consumer"@,
            ErrorKind::Read => "Read"@,
        }
    }

    /// The name of the class, as it is logged.
    pub fn kind_name(&self) -> (name: &'static str)
        ensures
            name@ == self.kind_name_spec(),
    {
        match self.kind {
            ErrorKind::BadFormat => "BadFormat",
            ErrorKind::NotImplemented => "NotImplemented",
            ErrorKind::Security => "Security",
            ErrorKind::Forbidden => "Forbidden",
            ErrorKind::Unauthorized => "Unauthorized",
            ErrorKind::MissingResource => "MissingResource",
            ErrorKind::Database => "Database",
            ErrorKind::Consumer => "Consumer",
            ErrorKind::Read => "Read",
        }
    }

    /// The line written to the log: the class, a colon and the free text.
    pub fn log(&self) -> (line: String)
        ensures
            line@ == self.kind_name_spec() + ": "@ + self.detail@,
    {
        let mut line = String::from_str(self.kind_name());
        line.append(": ");
        line.append(self.detail.as_str());
        line
    }
}

} // verus!
