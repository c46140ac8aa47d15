//! Authentication of requests to an emulator.

use std::path::PathBuf;
use vstd::prelude::*;

use crate::encoding;
use crate::cache::{self, TokenCache, Tokens};
use crate::jwt::{self, JwtTokenProvider, KeyRegistration};
use crate::keys;
use crate::text;
use crate::time::{self, Duration, SystemTime};

verus! {

/// `std::path::PathBuf`, which the library only carries.
#[verifier::external_type_specification]
#[verifier::external_body]
pub struct ExPathBuf(PathBuf);

/// Authentication error type
#[derive(Debug)]
pub enum AuthError {
    Unsupported(String),
    FailedToGenerateKey,
    FailedToLoadKey,
    FailedToCreateJwksDir(String),
    FailedToSerializeJwks,
    FailedToWriteJwksFile(String),
    JwksRegistrationTimeout,
    Unspecified,
}

impl AuthError {
    /// What the error says.
    pub open spec fn spec_message(self) -> Seq<char> {
        match self {
            AuthError::Unsupported(what) => "Unsupported operation: "@ + what@,
            AuthError::FailedToGenerateKey => "Failed to generate key"@,
            AuthError::FailedToLoadKey => "Failed to load key"@,
            AuthError::FailedToCreateJwksDir(_) => "Failed to create JWKS directory"@,
            AuthError::FailedToSerializeJwks => "Failed to serialize JWKS"@,
            AuthError::FailedToWriteJwksFile(_) => "Failed to write JWKS file"@,
            AuthError::JwksRegistrationTimeout => "Timeout waiting for JWK registration"@,
            AuthError::Unspecified => "Unspecified signing error"@,
        }
    }

    /// What the error says.
    pub fn message(&self) -> (res: String)
        ensures
            res@ == self.spec_message(),
    {
        match self {
            AuthError::Unsupported(what) => {
                let mut res = "Unsupported operation: ".to_owned();
                res.append(what.as_str());
                res
            },
            AuthError::FailedToGenerateKey => "Failed to generate key".to_owned(),
            AuthError::FailedToLoadKey => "Failed to load key".to_owned(),
            AuthError::FailedToCreateJwksDir(_) => "Failed to create JWKS directory".to_owned(),
            AuthError::FailedToSerializeJwks => "Failed to serialize JWKS".to_owned(),
            AuthError::FailedToWriteJwksFile(_) => "Failed to write JWKS file".to_owned(),
            AuthError::JwksRegistrationTimeout => "Timeout waiting for JWK registration".to_owned(),
            AuthError::Unspecified => "Unspecified signing error".to_owned(),
        }
    }
}

/// Authentication scheme for gRPC connections
#[derive(Debug)]
pub enum AuthScheme {
    /// No authentication
    NoAuth,
    /// A static bearer token is attached to each request
    Bearer,
    /// JWT tokens are attached to each request (these have an `iss` field that
    /// matches the issuer, an `aud` field that matches the method being
    /// requested, and are signed with an ES256 key that has been registered
    /// with the emulator)
    Jwt { issuer: String, jwks_dir: PathBuf },
}

/// `PathBuf::clone`, which gives the same path.
#[verifier::external_body]
fn path_clone(path: &PathBuf) -> (res: PathBuf)
    ensures
        res == *path,
{
    path.clone()
}

impl Clone for AuthScheme {
    fn clone(&self) -> (res: Self)
        ensures
            res == *self,
    {
        match self {
            AuthScheme::NoAuth => AuthScheme::NoAuth,
            AuthScheme::Bearer => AuthScheme::Bearer,
            AuthScheme::Jwt { issuer, jwks_dir } => AuthScheme::Jwt {
                issuer: issuer.clone(),
                jwks_dir: path_clone(jwks_dir),
            },
        }
    }
}

/// Bearer token with expiration
pub struct BearerToken {
    pub token: String,
    pub expires_at: SystemTime,
}

/// A source of tokens.
pub trait TokenProvider {
    /// The scheme under which the tokens are used.
    spec fn scheme(&self) -> AuthScheme;

    fn auth_scheme(&self) -> (res: &AuthScheme)
        ensures
            *res == self.scheme(),
    ;

    /// A token that is good for requests to `aud`. One that is to be used again
    /// is kept in `tokens`, and looked for there.
    fn token_for_aud(&self, tokens: &mut TokenCache, aud: &str) -> Result<String, AuthError>;

    /// A token for `auds` that can be handed on, which most providers cannot
    /// make.
    fn export_token(&self, _auds: &[&str], _ttl: Duration) -> (res: Result<BearerToken, AuthError>)
        default_ensures
            res matches Err(AuthError::Unsupported(what)) && what@ == "export_token"@,
    {
        Err(AuthError::Unsupported("export_token".to_owned()))
    }
}

/// No-op token provider for unauthenticated connections
pub struct NoOpTokenProvider;

impl Clone for NoOpTokenProvider {
    fn clone(&self) -> (res: Self)
        ensures
            res == *self,
    {
        NoOpTokenProvider
    }
}

impl TokenProvider for NoOpTokenProvider {
    open spec fn scheme(&self) -> AuthScheme {
        AuthScheme::NoAuth
    }

    fn auth_scheme(&self) -> (res: &AuthScheme) {
        &AuthScheme::NoAuth
    }

    fn token_for_aud(&self, _tokens: &mut TokenCache, _aud: &str) -> (res: Result<
        String,
        AuthError,
    >)
        ensures
            *final(_tokens) == *old(_tokens),
            res matches Ok(token) && token@ == Seq::<char>::empty(),
    {
        Ok(String::new())
    }
}

/// Static bearer token provider for emulators with grpc.token, or for clients
/// that have been given a static JWT token to use.
pub struct BearerTokenProvider {
    token: String,
}

impl View for BearerTokenProvider {
    type V = Seq<char>;

    /// The token.
    closed spec fn view(&self) -> Seq<char> {
        self.token@
    }
}

impl Clone for BearerTokenProvider {
    fn clone(&self) -> (res: Self)
        ensures
            res@ == self@,
    {
        BearerTokenProvider { token: self.token.clone() }
    }
}

impl BearerTokenProvider {
    pub fn new(token: String) -> (res: Self)
        ensures
            res@ == token@,
    {
        BearerTokenProvider { token }
    }
}

impl TokenProvider for BearerTokenProvider {
    open spec fn scheme(&self) -> AuthScheme {
        AuthScheme::Bearer
    }

    fn auth_scheme(&self) -> (res: &AuthScheme) {
        &AuthScheme::Bearer
    }

    fn token_for_aud(&self, _tokens: &mut TokenCache, _aud: &str) -> (res: Result<
        String,
        AuthError,
    >)
        ensures
            *final(_tokens) == *old(_tokens),
            res matches Ok(token) && token@ == self@,
    {
        Ok(self.token.clone())
    }
}

/// Allowlist entry for JWT authentication
#[derive(Debug, Clone)]
pub struct AllowlistEntry {
    pub iss: String,
    pub allowed: Vec<String>,
    pub protected: Vec<String>,
}

/// gRPC allowlist configuration
#[derive(Debug, Clone)]
pub struct GrpcAllowlist {
    pub unprotected: Vec<String>,
    pub allowlist: Vec<AllowlistEntry>,
}

/// The method patterns that an issuer is allowed by default.
pub open spec fn default_allowed() -> Seq<Seq<char>> {
    seq![
        "/android.emulation.control.EmulatorController/.*"@,
        "/android.emulation.control.UiController/.*"@,
        "/android.emulation.control.SnapshotService/.*"@,
        "/android.emulation.control.incubating.*"@,
    ]
}

impl AllowlistEntry {
    /// Whether the entry allows the issuer the default patterns and protects
    /// nothing.
    pub open spec fn is_default_for(self, iss: Seq<char>) -> bool {
        &&& self.iss@ == iss
        &&& text::views(self.allowed@) == default_allowed()
        &&& self.protected@.len() == 0
    }

    fn default_for(iss: &str) -> (res: AllowlistEntry)
        ensures
            res.is_default_for(iss@),
    {
        let mut allowed: Vec<String> = Vec::new();
        allowed.push("/android.emulation.control.EmulatorController/.*".to_owned());
        allowed.push("/android.emulation.control.UiController/.*".to_owned());
        allowed.push("/android.emulation.control.SnapshotService/.*".to_owned());
        allowed.push("/android.emulation.control.incubating.*".to_owned());
        assert(text::views(allowed@) =~= default_allowed());
        AllowlistEntry { iss: iss.to_owned(), allowed, protected: Vec::new() }
    }
}

impl GrpcAllowlist {
    /// Whether this is the default allowlist for the issuer.
    pub open spec fn is_default_for(self, issuer: Seq<char>) -> bool {
        &&& self.unprotected@.len() == 0
        &&& self.allowlist@.len() == 2
        &&& self.allowlist@[0].is_default_for("android-studio"@)
        &&& self.allowlist@[1].is_default_for(issuer)
    }

    /// Create a default allowlist for the given issuer. It also has an entry
    /// for `android-studio`, so that an embedded emulator keeps working.
    pub fn default_for_issuer(issuer: &str) -> (res: GrpcAllowlist)
        ensures
            res.is_default_for(issuer@),
    {
        let mut allowlist: Vec<AllowlistEntry> = Vec::new();
        allowlist.push(AllowlistEntry::default_for("android-studio"));
        allowlist.push(AllowlistEntry::default_for(issuer));
        GrpcAllowlist { unprotected: Vec::new(), allowlist }
    }
}

/// The sources of tokens that a connection can have.
pub enum Provider {
    NoOp(NoOpTokenProvider),
    Bearer(BearerTokenProvider),
    Jwt(JwtTokenProvider),
}

/// A request that cannot be sent: the status that stands for its reply.
#[derive(Debug)]
pub enum CallError {
    Unauthenticated(String),
    Internal(String),
}

/// Whether `bytes` can stand in a header: no control characters but the tab.
pub open spec fn header_safe(bytes: Seq<u8>) -> bool {
    forall|i: int| 0 <= i < bytes.len() ==> (#[trigger] bytes[i]) == 9 || bytes[i] >= 32 && bytes[i]
        != 127
}

/// The audience of a request: the path of its method.
pub open spec fn audience(service: Seq<char>, method: Seq<char>) -> Seq<char> {
    "/"@ + service + "/"@ + method
}

/// Whether `res` is the authorization header that goes with the token.
pub open spec fn is_authorization(
    token: Result<String, AuthError>,
    res: Result<Option<Vec<u8>>, CallError>,
) -> bool {
    match token {
        Err(e) => res matches Err(CallError::Unauthenticated(m)) && m@ == "Token error: "@
            + e.spec_message(),
        Ok(t) => if t@.len() == 0 {
            res matches Ok(None)
        } else {
            let value = vstd::utf8::encode_utf8("Bearer "@ + t@);
            if header_safe(value) {
                res matches Ok(Some(bytes)) && bytes@ == value
            } else {
                res matches Err(CallError::Internal(m)) && m@ == "Invalid auth metadata"@
            }
        },
    }
}

/// `tonic::metadata::MetadataValue::try_from` of a text, and the bytes of the
/// value. A value holds the text's UTF-8 bytes; a text with a byte below 32
/// that is no tab, or with the byte 127, is refused.
#[verifier::external_body]
fn metadata_value_of(text: &str) -> (res: Option<Vec<u8>>)
    ensures
        match res {
            Some(bytes) => header_safe(vstd::utf8::encode_utf8(text@)) && bytes@
                == vstd::utf8::encode_utf8(text@),
            None => !header_safe(vstd::utf8::encode_utf8(text@)),
        },
{
    match tonic::metadata::MetadataValue::<tonic::metadata::Ascii>::try_from(text.to_owned()) {
        Ok(value) => Some(value.as_encoded_bytes().to_vec()),
        Err(_) => None,
    }
}

/// The value of the `authorization` header that goes with the token, where
/// there is to be one.
pub fn authorization(token: Result<String, AuthError>) -> (res: Result<Option<Vec<u8>>, CallError>)
    ensures
        is_authorization(token, res),
{
    match token {
        Err(e) => {
            let mut message = "Token error: ".to_owned();
            message.append(e.message().as_str());
            Err(CallError::Unauthenticated(message))
        },
        Ok(token) => {
            if token.as_str().unicode_len() == 0 {
                return Ok(None);
            }
            let mut value = "Bearer ".to_owned();
            value.append(token.as_str());
            match metadata_value_of(value.as_str()) {
                Some(bytes) => Ok(Some(bytes)),
                None => Err(CallError::Internal("Invalid auth metadata".to_owned())),
            }
        },
    }
}

/// An authentication interceptor for gRPC requests, responsible for adding
/// an appropriate authorization header to each request. It holds what never
/// changes; the tokens that are kept are handed to it with each request, so
/// that all its clones can be asked with the same ones.
pub struct AuthProvider {
    provider: Provider,
}

/// Whether the two are the same source of tokens: the same token, or the same
/// key and issuer.
pub open spec fn same_source(a: Provider, b: Provider) -> bool {
    match (a, b) {
        (Provider::NoOp(_), Provider::NoOp(_)) => true,
        (Provider::Bearer(p), Provider::Bearer(q)) => p@ == q@,
        (Provider::Jwt(p), Provider::Jwt(q)) => p.same_issuer(q),
        _ => false,
    }
}

impl Clone for AuthProvider {
    /// The same source of tokens once more.
    fn clone(&self) -> (res: Self)
        ensures
            same_source(self.source(), res.source()),
            res.scheme() == self.scheme(),
    {
        let provider = match &self.provider {
            Provider::NoOp(p) => Provider::NoOp(p.clone()),
            Provider::Bearer(p) => Provider::Bearer(p.clone()),
            Provider::Jwt(p) => Provider::Jwt(p.clone()),
        };
        AuthProvider { provider }
    }
}

impl AuthProvider {
    /// Where the tokens come from.
    pub closed spec fn source(self) -> Provider {
        self.provider
    }

    /// The scheme under which the tokens are used.
    pub open spec fn scheme(self) -> AuthScheme {
        match self.source() {
            Provider::NoOp(p) => p.scheme(),
            Provider::Bearer(p) => p.scheme(),
            Provider::Jwt(p) => p.scheme(),
        }
    }

    /// What a request for a token does to the tokens that are kept.
    pub open spec fn token_step(
        self,
        pre: Tokens,
        post: Tokens,
        aud: Seq<char>,
        res: Result<String, AuthError>,
    ) -> bool {
        match self.source() {
            Provider::NoOp(_) => post == pre && (res matches Ok(t) && t@ == Seq::<char>::empty()),
            Provider::Bearer(p) => post == pre && (res matches Ok(t) && t@ == p@),
            Provider::Jwt(p) => exists|now: int, minted_at: int| #[trigger]
                p.token_step(pre, post, aud, now, minted_at, res) && time::was_now(now)
                    && time::was_now(minted_at),
        }
    }

    /// What an export of a token comes to.
    pub open spec fn exports(
        self,
        auds: Seq<Seq<char>>,
        ttl: Duration,
        res: Result<BearerToken, AuthError>,
    ) -> bool {
        match self.source() {
            Provider::Jwt(p) => exists|minted_at: int, now: int| #[trigger]
                p.export_step(auds, ttl, minted_at, now, res) && time::was_now(minted_at)
                    && time::was_now(now),
            _ => res matches Err(AuthError::Unsupported(what)) && what@ == "export_token"@,
        }
    }

    pub fn new_with_token_provider(provider: Provider) -> (res: Self)
        ensures
            res.source() == provider,
    {
        AuthProvider { provider }
    }

    pub fn new_no_auth() -> (res: Self)
        ensures
            res.source() is NoOp,
    {
        AuthProvider { provider: Provider::NoOp(NoOpTokenProvider) }
    }

    pub fn new_bearer(token: String) -> (res: Self)
        ensures
            res.source() matches Provider::Bearer(p) && p@ == token@,
    {
        AuthProvider { provider: Provider::Bearer(BearerTokenProvider::new(token)) }
    }

    /// A provider with a fresh key for `issuer`, and the key file that
    /// registers the key once it stands in `jwks_dir`.
    pub fn new_jwt(jwks_dir: PathBuf, issuer: String) -> (res: Result<
        (AuthProvider, KeyRegistration),
        AuthError,
    >)
        ensures
            res matches Ok((auth, registration)) && {
                &&& auth.source() matches Provider::Jwt(p) && jwt::is_new_for(
                    p,
                    registration,
                    jwks_dir,
                    issuer@,
                )
            },
    {
        match JwtTokenProvider::new_and_register(jwks_dir, issuer) {
            Ok((provider, registration)) => Ok(
                (AuthProvider { provider: Provider::Jwt(provider) }, registration),
            ),
            Err(e) => Err(e),
        }
    }

    pub fn auth_scheme(&self) -> (res: &AuthScheme)
        ensures
            *res == self.scheme(),
    {
        match &self.provider {
            Provider::NoOp(p) => p.auth_scheme(),
            Provider::Bearer(p) => p.auth_scheme(),
            Provider::Jwt(p) => p.auth_scheme(),
        }
    }

    /// A token for requests to `aud`. One that is to be used again is kept in
    /// `tokens`, and looked for there.
    pub fn token_for_aud(&self, tokens: &mut TokenCache, aud: &str) -> (res: Result<
        String,
        AuthError,
    >)
        ensures
            self.token_step(old(tokens)@, final(tokens)@, aud@, res),
    {
        match &self.provider {
            Provider::NoOp(p) => p.token_for_aud(tokens, aud),
            Provider::Bearer(p) => p.token_for_aud(tokens, aud),
            Provider::Jwt(p) => p.token_for_aud(tokens, aud),
        }
    }

    /// A token for `auds` that can be handed on. Only a provider that mints
    /// tokens can make one.
    pub fn export_token(&self, auds: &[&str], ttl: Duration) -> (res: Result<BearerToken, AuthError>)
        ensures
            self.exports(jwt::texts(auds@), ttl, res),
    {
        match &self.provider {
            Provider::NoOp(p) => p.export_token(auds, ttl),
            Provider::Bearer(p) => p.export_token(auds, ttl),
            Provider::Jwt(p) => p.export_token(auds, ttl),
        }
    }

    /// The value of the `authorization` header of a request, where it is to
    /// have one. The audience of the token is the path of the method.
    pub fn call(&self, tokens: &mut TokenCache, service: &str, method: &str) -> (res: Result<
        Option<Vec<u8>>,
        CallError,
    >)
        ensures
            exists|token: Result<String, AuthError>|
                #![trigger is_authorization(token, res)]
                self.token_step(old(tokens)@, final(tokens)@, audience(service@, method@), token)
                    && is_authorization(token, res),
    {
        let mut aud = "/".to_owned();
        aud.append(service);
        aud.append("/");
        aud.append(method);
        let token = self.token_for_aud(tokens, aud.as_str());
        let ghost t = token;
        let res = authorization(token);
        assert(is_authorization(t, res));
        res
    }
}

/// A token that was minted always fits into a header.
pub proof fn law_minted_token_can_be_sent(
    secret: Seq<u8>,
    header: Seq<char>,
    claims: Seq<char>,
    token: Seq<char>,
)
    requires
        jwt::token_text(secret, header, claims) == Some(token),
    ensures
        token.len() > 0,
        header_safe(vstd::utf8::encode_utf8("Bearer "@ + token)),
{
    let h = vstd::utf8::encode_utf8(header);
    let c = vstd::utf8::encode_utf8(claims);
    let sig = keys::es256_signature(
        secret,
        vstd::utf8::encode_utf8(jwt::signing_input(header, claims)),
    )->0;
    encoding::lemma_base64url_printable(h);
    encoding::lemma_base64url_printable(c);
    encoding::lemma_base64url_printable(sig);
    reveal_strlit(".");
    reveal_strlit("Bearer ");
    assert(token =~= encoding::base64url(h) + "."@ + encoding::base64url(c) + "."@
        + encoding::base64url(sig));
    let value = "Bearer "@ + token;
    assert forall|i: int| 0 <= i < token.len() implies '-' <= #[trigger] token[i] <= 'z' by {}
    assert forall|i: int| 0 <= i < value.len() implies ' ' <= #[trigger] value[i] <= 'z' by {
        if i >= 7 {
            assert(value[i] == token[i - 7]);
        }
    }
    vstd::utf8::is_ascii_chars_encode_utf8(value);
    let bytes = vstd::utf8::encode_utf8(value);
    assert forall|i: int| 0 <= i < bytes.len() implies (#[trigger] bytes[i]) >= 32 && bytes[i]
        != 127 by {
        assert(' ' <= value[i] <= 'z');
    }
}

/// A clone gives out, asked with the same tokens, the token that the provider
/// was last given for an audience, and mints none until that token is given
/// up.
pub proof fn law_clones_share_tokens(
    provider: AuthProvider,
    clone: AuthProvider,
    first: Tokens,
    second: Tokens,
    third: Tokens,
    aud: Seq<char>,
    now: int,
    minted_at: int,
    token: String,
    later: int,
    minted_later: int,
    res: Result<String, AuthError>,
)
    requires
        same_source(provider.source(), clone.source()),
        provider.source() matches Provider::Jwt(p) && p.token_step(
            first,
            second,
            aud,
            now,
            minted_at,
            Ok(token),
        ),
        later < second[aud].1,
        clone.source() matches Provider::Jwt(q) && q.token_step(
            second,
            third,
            aud,
            later,
            minted_later,
            res,
        ),
    ensures
        res matches Ok(again) && again@ == token@,
        third == second,
{
}

/// A token that was exported can be handed on: a provider that was given it
/// sends it, unchanged, with every request.
pub proof fn law_exported_token_is_sent(
    provider: JwtTokenProvider,
    auds: Seq<Seq<char>>,
    ttl: Duration,
    minted_at: int,
    now: int,
    bearer: BearerToken,
    sender: AuthProvider,
    pre: Tokens,
    post: Tokens,
    aud: Seq<char>,
    token: Result<String, AuthError>,
    header: Result<Option<Vec<u8>>, CallError>,
)
    requires
        provider.export_step(auds, ttl, minted_at, now, Ok(bearer)),
        sender.source() matches Provider::Bearer(p) && p@ == bearer.token@,
        sender.token_step(pre, post, aud, token),
        is_authorization(token, header),
    ensures
        header matches Ok(Some(bytes)) && bytes@ == vstd::utf8::encode_utf8(
            "Bearer "@ + bearer.token@,
        ),
        post == pre,
{
    let iat = minted_at / crate::time::NANOS_PER_SEC as int;
    law_minted_token_can_be_sent(
        provider.secret(),
        jwt::header_text("ES256"@, provider.spec_key_id()),
        jwt::claims_text(
            provider.spec_issuer(),
            auds,
            (iat + ttl.spec_secs()) as nat,
            iat as nat,
        ),
        bearer.token@,
    );
}

/// A request for which a token is minted carries one that names the issuer,
/// the key and, as its only audience, the method.
pub proof fn law_request_names_its_method(
    provider: JwtTokenProvider,
    pre: Tokens,
    post: Tokens,
    service: Seq<char>,
    method: Seq<char>,
    now: int,
    minted_at: int,
    token: String,
    header: Result<Option<Vec<u8>>, CallError>,
)
    requires
        !cache::has_cached(pre, audience(service, method), now),
        provider.token_step(
            pre,
            post,
            audience(service, method),
            now,
            minted_at,
            Ok(token),
        ),
        is_authorization(Ok(token), header),
    ensures
        header matches Ok(Some(bytes)) && bytes@ == vstd::utf8::encode_utf8("Bearer "@ + token@),
        ({
            let iat = minted_at / crate::time::NANOS_PER_SEC as int;
            jwt::token_text(
                provider.secret(),
                jwt::header_text("ES256"@, provider.spec_key_id()),
                jwt::claims_text(
                    provider.spec_issuer(),
                    seq!["/"@ + service + "/"@ + method],
                    (iat + 600) as nat,
                    iat as nat,
                ),
            ) == Some(token@)
        }),
{
    let iat = minted_at / crate::time::NANOS_PER_SEC as int;
    law_minted_token_can_be_sent(
        provider.secret(),
        jwt::header_text("ES256"@, provider.spec_key_id()),
        jwt::claims_text(
            provider.spec_issuer(),
            seq![audience(service, method)],
            (iat + 600) as nat,
            iat as nat,
        ),
        token@,
    );
}

/// A request carries the token behind the word `Bearer`, unless the token is
/// empty, in which case it carries none. A token that cannot stand in a header,
/// because of a control character, fails the request, as does a token that
/// cannot be had.
pub proof fn law_header_carries_the_token(
    token: Result<String, AuthError>,
    res: Result<Option<Vec<u8>>, CallError>,
)
    requires
        call_ensures(authorization, (token,), res),
    ensures
        token matches Err(e) ==> (res matches Err(CallError::Unauthenticated(m)) && m@
            == "Token error: "@ + e.spec_message()),
        token matches Ok(t) ==> {
            let value = vstd::utf8::encode_utf8("Bearer "@ + t@);
            &&& t@.len() == 0 ==> res == Ok::<Option<Vec<u8>>, CallError>(None)
            &&& res matches Ok(Some(bytes)) ==> t@.len() > 0 && bytes@ == value
            &&& res matches Ok(None) ==> t@.len() == 0
            &&& res matches Ok(Some(_)) ==> forall|k: int|
                0 <= k < value.len() ==> (#[trigger] value[k]) != 127 && (value[k] >= 32 || value[k]
                    == 9)
            &&& res matches Err(e) ==> {
                &&& e matches CallError::Internal(m) && m@ == "Invalid auth metadata"@
                &&& exists|k: int|
                    0 <= k < value.len() && ((#[trigger] value[k]) == 127 || value[k] < 32
                        && value[k] != 9)
            }
        },
{
}

/// The audience of a request is the path of its method: the service and the
/// method, each behind a slash.
pub proof fn law_audience_is_the_path(service: Seq<char>, method: Seq<char>)
    ensures
        audience(service, method).len() == service.len() + method.len() + 2,
        audience(service, method)[0] == '/',
        audience(service, method).subrange(1, service.len() as int + 1) == service,
        audience(service, method)[service.len() as int + 1] == '/',
        audience(service, method).skip(service.len() as int + 2) == method,
{
    reveal_strlit("/");
    let path = audience(service, method);
    assert(path.subrange(1, service.len() as int + 1) =~= service);
    assert(path.skip(service.len() as int + 2) =~= method);
}

/// A request for a token is answered by the source of the tokens: with nothing
/// where there is no authentication, always with the token that was given, or
/// with one of the key for the audience.
pub proof fn law_source_answers(
    auth: AuthProvider,
    pre: Tokens,
    post: Tokens,
    aud: Seq<char>,
    res: Result<String, AuthError>,
)
    requires
        auth.token_step(pre, post, aud, res),
    ensures
        auth.source() is NoOp ==> post == pre && (res matches Ok(t) && t@.len() == 0),
        auth.source() matches Provider::Bearer(p) ==> post == pre && (res matches Ok(t) && t@
            == p@),
        auth.source() matches Provider::Jwt(p) ==> exists|now: int, minted_at: int| #[trigger]
            p.token_step(pre, post, aud, now, minted_at, res) && time::was_now(now)
                && time::was_now(minted_at),
{
}

/// Only a key exports tokens, and then for exactly the audiences and the
/// lifetime that were asked for, at the time that the clock shows; every other
/// source says that it cannot. What comes back is when the token was minted and
/// when its expiry was counted.
pub proof fn law_only_keys_export(
    auth: AuthProvider,
    auds: &[&str],
    ttl: Duration,
    res: Result<BearerToken, AuthError>,
) -> (at: (int, int))
    requires
        call_ensures(AuthProvider::export_token, (&auth, auds, ttl), res),
    ensures
        auth.source() !is Jwt ==> (res matches Err(AuthError::Unsupported(what)) && what@
            == "export_token"@),
        auth.source() matches Provider::Jwt(p) ==> {
            let iat = at.0 / 1_000_000_000;
            let exp = iat + ttl@ / 1_000_000_000;
            let token = jwt::token_text(
                p.secret(),
                jwt::header_text("ES256"@, p.spec_key_id()),
                jwt::claims_text(
                    p.spec_issuer(),
                    Seq::new(auds@.len(), |i: int| auds@[i]@),
                    exp as nat,
                    iat as nat,
                ),
            );
            &&& time::was_now(at.0) && time::was_now(at.1)
            &&& res is Ok <==> {
                &&& at.0 >= 0
                &&& exp <= u64::MAX
                &&& at.1 + ttl@ <= time::MAX_NANOS
                &&& token is Some
            }
            &&& res matches Ok(bearer) ==> token == Some(bearer.token@) && bearer.expires_at@
                == at.1 + ttl@
            &&& res matches Err(e) ==> e is Unspecified
        },
{
    if auth.source() is Jwt {
        let p = auth.source()->Jwt_0;
        let asked = jwt::texts(auds@);
        assert(asked =~= Seq::new(auds@.len(), |i: int| auds@[i]@));
        let (minted_at, now) = choose|minted_at: int, now: int| #[trigger]
            p.export_step(asked, ttl, minted_at, now, res) && time::was_now(minted_at)
                && time::was_now(now);
        jwt::law_export_names_all_audiences(p, asked, ttl, minted_at, now, res);
        (minted_at, now)
    } else {
        (0, 0)
    }
}

/// Each way to make a provider makes the source that it is named after, and the
/// scheme tells which that is.
pub proof fn law_schemes(
    token: String,
    given: Provider,
    jwks_dir: PathBuf,
    issuer: String,
    auth: AuthProvider,
    registration: KeyRegistration,
    scheme: &AuthScheme,
)
    requires
        call_ensures(AuthProvider::auth_scheme, (&auth,), scheme),
    ensures
        *scheme is NoAuth <==> auth.source() is NoOp || (auth.source() matches Provider::Jwt(p)
            && p.scheme() is NoAuth),
        auth.source() is Bearer ==> *scheme is Bearer,
        auth.source() matches Provider::Jwt(p) ==> *scheme == p.scheme(),
        call_ensures(AuthProvider::new_no_auth, (), auth) ==> auth.source() is NoOp,
        call_ensures(AuthProvider::new_bearer, (token,), auth) ==> (
        auth.source() matches Provider::Bearer(p) && p@ == token@),
        call_ensures(AuthProvider::new_with_token_provider, (given,), auth) ==> auth.source()
            == given,
        call_ensures(AuthProvider::new_jwt, (jwks_dir, issuer), Ok((auth, registration))) ==> {
            &&& auth.source() matches Provider::Jwt(p) && p.spec_issuer() == issuer@
                && registration.jwks.keys@.len() == 1 && registration.jwks.keys@[0].kid@
                == p.spec_key_id() && registration.file_name@ == p.spec_key_id() + ".jwk"@
            &&& *scheme matches AuthScheme::Jwt { issuer: named, jwks_dir: dir } && named@
                == issuer@ && dir == jwks_dir
        },
{
}

/// Whether the entry allows `iss` the four patterns of the emulator's services
/// and protects nothing.
pub open spec fn allows_services(entry: AllowlistEntry, iss: Seq<char>) -> bool {
    &&& entry.iss@ == iss
    &&& entry.protected@.len() == 0
    &&& entry.allowed@.len() == 4
    &&& entry.allowed@[0]@ == "/android.emulation.control.EmulatorController/.*"@
    &&& entry.allowed@[1]@ == "/android.emulation.control.UiController/.*"@
    &&& entry.allowed@[2]@ == "/android.emulation.control.SnapshotService/.*"@
    &&& entry.allowed@[3]@ == "/android.emulation.control.incubating.*"@
}

/// Whether the list leaves nothing unprotected and allows the services to two
/// issuers, `android-studio` and the given one.
pub open spec fn allows_two(list: GrpcAllowlist, issuer: Seq<char>) -> bool {
    &&& list.unprotected@.len() == 0
    &&& list.allowlist@.len() == 2
    &&& allows_services(list.allowlist@[0], "android-studio"@)
    &&& allows_services(list.allowlist@[1], issuer)
}

proof fn lemma_allows_services(entry: AllowlistEntry, iss: Seq<char>)
    requires
        entry.is_default_for(iss),
    ensures
        allows_services(entry, iss),
{
    let allowed = entry.allowed@;
    assert(text::views(allowed).len() == allowed.len());
    assert(text::views(allowed)[0] == allowed[0]@);
    assert(text::views(allowed)[1] == allowed[1]@);
    assert(text::views(allowed)[2] == allowed[2]@);
    assert(text::views(allowed)[3] == allowed[3]@);
}

/// A default list allows two issuers.
pub proof fn lemma_allows_two(list: GrpcAllowlist, issuer: Seq<char>)
    requires
        list.is_default_for(issuer),
    ensures
        allows_two(list, issuer),
{
    lemma_allows_services(list.allowlist@[0], "android-studio"@);
    lemma_allows_services(list.allowlist@[1], issuer);
}

/// The default allowlist leaves nothing unprotected and allows two issuers,
/// `android-studio` and the given one, the same four patterns.
pub proof fn law_default_allowlist(issuer: &str, list: GrpcAllowlist)
    requires
        call_ensures(GrpcAllowlist::default_for_issuer, (issuer,), list),
    ensures
        allows_two(list, issuer@),
{
    lemma_allows_two(list, issuer@);
}

/// What an error says names what was not supported, or what failed.
pub proof fn law_auth_messages(e: AuthError, message: String)
    requires
        call_ensures(AuthError::message, (&e,), message),
    ensures
        message@ == e.spec_message(),
        e matches AuthError::Unsupported(what) ==> message@ == "Unsupported operation: "@ + what@,
        e is FailedToGenerateKey ==> message@ == "Failed to generate key"@,
        e is FailedToLoadKey ==> message@ == "Failed to load key"@,
        e is FailedToCreateJwksDir ==> message@ == "Failed to create JWKS directory"@,
        e is FailedToSerializeJwks ==> message@ == "Failed to serialize JWKS"@,
        e is FailedToWriteJwksFile ==> message@ == "Failed to write JWKS file"@,
        e is JwksRegistrationTimeout ==> message@ == "Timeout waiting for JWK registration"@,
        e is Unspecified ==> message@ == "Unspecified signing error"@,
{
}

} // verus!
