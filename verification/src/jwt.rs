//! JSON Web Tokens signed with ES256: their text, and the provider that mints
//! them.

use std::path::PathBuf;
use vstd::prelude::*;

use crate::auth::{AuthError, AuthScheme, BearerToken, TokenProvider};
use crate::cache::{self, CachedToken, TokenCache, Tokens};
use crate::encoding::{self, base64url_of, json_string_of};
use crate::keys::{self, fresh_key_id, SigningKey};
use crate::text::{self, decimal_of};
use crate::time::{self, Duration, SystemTime, MAX_NANOS, NANOS_PER_SEC};

verus! {

/// How long a token for one audience is valid.
pub const TOKEN_TTL_SECS: u64 = 600;

/// How long before its expiry a cached token is given up.
pub const TOKEN_MARGIN_SECS: u64 = 30;

/// The characters of each text.
pub open spec fn texts(v: Seq<&str>) -> Seq<Seq<char>> {
    v.map_values(|s: &str| s@)
}

/// Header of a token.
pub struct JwtHeader {
    pub alg: String,
    pub kid: String,
}

/// The header as JSON.
pub open spec fn header_text(alg: Seq<char>, kid: Seq<char>) -> Seq<char> {
    "{\"alg\":"@ + encoding::json_string(alg) + ",\"kid\":"@ + encoding::json_string(kid) + "}"@
}

/// Claims of a token.
pub struct JwtClaims {
    pub iss: String,
    pub aud: Vec<String>,
    pub exp: u64,
    pub iat: u64,
}

/// The audiences as a member of the claims, which is left out where there are
/// none.
pub open spec fn aud_member(aud: Seq<Seq<char>>) -> Seq<char> {
    if aud.len() > 0 {
        ",\"aud\":"@ + encoding::json_array(aud)
    } else {
        seq![]
    }
}

/// The claims as JSON.
pub open spec fn claims_text(iss: Seq<char>, aud: Seq<Seq<char>>, exp: nat, iat: nat) -> Seq<
    char,
> {
    "{\"iss\":"@ + encoding::json_string(iss) + aud_member(aud) + ",\"exp\":"@ + text::decimal(exp)
        + ",\"iat\":"@ + text::decimal(iat) + "}"@
}

/// The part of a token that is signed: header and claims, each in Base64.
pub open spec fn signing_input(header: Seq<char>, claims: Seq<char>) -> Seq<char> {
    encoding::base64url(vstd::utf8::encode_utf8(header)) + "."@ + encoding::base64url(
        vstd::utf8::encode_utf8(claims),
    )
}

/// The token with the given header and claims, if the key signs it.
pub open spec fn token_text(secret: Seq<u8>, header: Seq<char>, claims: Seq<char>) -> Option<
    Seq<char>,
> {
    let input = signing_input(header, claims);
    match keys::es256_signature(secret, vstd::utf8::encode_utf8(input)) {
        Some(sig) => Some(input + "."@ + encoding::base64url(sig)),
        None => None,
    }
}

/// `items` as a JSON array.
fn json_array_of(items: &Vec<String>) -> (res: Result<String, AuthError>)
    ensures
        res is Ok,
        res->Ok_0@ == encoding::json_array(text::views(items@)),
{
    let mut res = "[".to_owned();
    let mut i: usize = 0;
    let ghost all = text::views(items@);
    proof {
        reveal_strlit("[");
        assert(res@ =~= seq!['[']);
        assert(all.skip(0) =~= all);
    }
    while i < items.len()
        invariant
            i <= items@.len(),
            all == text::views(items@),
            res@ + encoding::json_items(all.skip(i as int)) == seq!['['] + encoding::json_items(
                all,
            ),
        decreases items@.len() - i,
    {
        let ghost before = res@;
        let ghost rest = all.skip(i as int);
        let item = match json_string_of(items[i].as_str()) {
            Ok(text) => text,
            Err(_) => return Err(AuthError::Unspecified),
        };
        res.append(item.as_str());
        assert(rest.first() == items@[i as int]@);
        assert(rest.drop_first() =~= all.skip(i + 1));
        if i + 1 < items.len() {
            res.append(",");
            proof {
                reveal_strlit(",");
                assert(","@ =~= seq![',']);
            }
            assert(res@ + encoding::json_items(all.skip(i + 1)) =~= before + encoding::json_items(
                rest,
            ));
        } else {
            assert(all.skip(i + 1) =~= seq![]);
            assert(res@ + encoding::json_items(all.skip(i + 1)) =~= before + encoding::json_items(
                rest,
            ));
        }
        i += 1;
    }
    assert(all.skip(i as int) =~= seq![]);
    assert(res@ =~= seq!['['] + encoding::json_items(all));
    res.append("]");
    proof {
        reveal_strlit("]");
        assert("]"@ =~= seq![']']);
    }
    Ok(res)
}

impl JwtHeader {
    /// The header as JSON.
    pub fn to_json(&self) -> (res: Result<String, AuthError>)
        ensures
            res is Ok,
            res->Ok_0@ == header_text(self.alg@, self.kid@),
    {
        let alg = match json_string_of(self.alg.as_str()) {
            Ok(text) => text,
            Err(_) => return Err(AuthError::Unspecified),
        };
        let kid = match json_string_of(self.kid.as_str()) {
            Ok(text) => text,
            Err(_) => return Err(AuthError::Unspecified),
        };
        let mut res = "{\"alg\":".to_owned();
        res.append(alg.as_str());
        res.append(",\"kid\":");
        res.append(kid.as_str());
        res.append("}");
        Ok(res)
    }
}

impl JwtClaims {
    /// The claims as JSON.
    pub fn to_json(&self) -> (res: Result<String, AuthError>)
        ensures
            res is Ok,
            res->Ok_0@ == claims_text(
                self.iss@,
                text::views(self.aud@),
                self.exp as nat,
                self.iat as nat,
            ),
    {
        let iss = match json_string_of(self.iss.as_str()) {
            Ok(text) => text,
            Err(_) => return Err(AuthError::Unspecified),
        };
        let mut res = "{\"iss\":".to_owned();
        res.append(iss.as_str());
        let ghost start = res@;
        if self.aud.len() > 0 {
            let aud = match json_array_of(&self.aud) {
                Ok(text) => text,
                Err(_) => return Err(AuthError::Unspecified),
            };
            res.append(",\"aud\":");
            res.append(aud.as_str());
        }
        assert(res@ =~= start + aud_member(text::views(self.aud@)));
        res.append(",\"exp\":");
        res.append(decimal_of(self.exp).as_str());
        res.append(",\"iat\":");
        res.append(decimal_of(self.iat).as_str());
        res.append("}");
        Ok(res)
    }
}

/// A public key, in the form in which the emulator reads it.
pub struct Jwk {
    pub kty: String,
    pub crv: String,
    pub x: String,
    pub y: String,
    pub kid: String,
    pub use_: String,
    pub alg: String,
    pub key_ops: Vec<String>,
}

/// A set of public keys: what a key file holds.
pub struct Jwks {
    pub keys: Vec<Jwk>,
}

/// Whether the set holds a key with the identifier `kid`.
pub open spec fn lists_key(keys: Seq<Jwk>, kid: Seq<char>) -> bool {
    exists|i: int| 0 <= i < keys.len() && (#[trigger] keys[i]).kid@ == kid
}

/// Whether `point` is an uncompressed point of P-256.
pub open spec fn uncompressed(point: Seq<u8>) -> bool {
    point.len() == 65 && point[0] == 4
}

/// Whether `jwk` publishes the point for signatures under the identifier
/// `kid`.
pub open spec fn publishes(jwk: Jwk, point: Seq<u8>, kid: Seq<char>) -> bool {
    &&& jwk.kty@ == "EC"@
    &&& jwk.crv@ == "P-256"@
    &&& jwk.x@ == encoding::base64url(point.subrange(1, 33))
    &&& jwk.y@ == encoding::base64url(point.subrange(33, 65))
    &&& jwk.kid@ == kid
    &&& jwk.use_@ == "sig"@
    &&& jwk.alg@ == "ES256"@
    &&& text::views(jwk.key_ops@) == seq!["verify"@]
}

/// A key file to be written for the emulator to find.
pub struct KeyRegistration {
    pub file_name: String,
    pub jwks: Jwks,
}

/// What became of writing a key file.
pub enum RegistrationEvent {
    /// The directory could not be made.
    NoDirectory(String),
    /// The keys could not be written as JSON.
    NotSerialized,
    /// The file could not be written.
    NotWritten(String),
    Written,
}

impl KeyRegistration {
    /// Whether the key file stands where the emulator finds it.
    pub fn registered(event: RegistrationEvent) -> (res: Result<(), AuthError>)
        ensures
            match event {
                RegistrationEvent::NoDirectory(e) => res == Err::<(), AuthError>(
                    AuthError::FailedToCreateJwksDir(e),
                ),
                RegistrationEvent::NotSerialized => res matches Err(
                    AuthError::FailedToSerializeJwks,
                ),
                RegistrationEvent::NotWritten(e) => res == Err::<(), AuthError>(
                    AuthError::FailedToWriteJwksFile(e),
                ),
                RegistrationEvent::Written => res is Ok,
            },
    {
        match event {
            RegistrationEvent::NoDirectory(e) => Err(AuthError::FailedToCreateJwksDir(e)),
            RegistrationEvent::NotSerialized => Err(AuthError::FailedToSerializeJwks),
            RegistrationEvent::NotWritten(e) => Err(AuthError::FailedToWriteJwksFile(e)),
            RegistrationEvent::Written => Ok(()),
        }
    }
}

/// The file in which the emulator lists the keys that it has activated.
pub const ACTIVE_KEYS_FILE: &'static str = "active.jwk";

/// How long the wait for a key sleeps between two looks.
pub const ACTIVATION_POLL_MILLIS: u64 = 100;

/// What the wait for a key is told.
pub enum ActivationEvent {
    /// The time since the wait began.
    Elapsed(Duration),
    /// What the file of active keys holds, if it could be read and parsed.
    ActiveKeys(Option<Jwks>),
}

/// What the wait for a key does next.
pub enum ActivationAction {
    /// Read the file of active keys.
    ReadActiveKeys,
    /// Sleep for the poll interval, then take the time.
    Sleep,
    /// The wait is over.
    Done(Result<(), AuthError>),
}

/// Mints tokens for one issuer with one key.
pub struct JwtTokenProvider {
    auth_scheme: AuthScheme,
    signing_key: SigningKey,
    key_id: String,
    issuer: String,
}

/// Whether `res` is the token, or the error where there is none.
pub open spec fn is_token(res: Result<String, AuthError>, token: Option<Seq<char>>) -> bool {
    match res {
        Ok(t) => token == Some(t@),
        Err(e) => token is None && e is Unspecified,
    }
}

/// The token that a signature makes of what was signed.
pub fn signed_token(input: String, signature: Option<Vec<u8>>) -> (res: Result<String, AuthError>)
    ensures
        match signature {
            Some(sig) => res matches Ok(t) && t@ == input@ + "."@ + encoding::base64url(sig@),
            None => res matches Err(AuthError::Unspecified),
        },
{
    match signature {
        Some(sig) => {
            let mut token = input;
            token.append(".");
            token.append(base64url_of(sig.as_slice()).as_str());
            Ok(token)
        },
        None => Err(AuthError::Unspecified),
    }
}

/// The nanoseconds of `secs` seconds.
pub open spec fn nanos(secs: u64) -> int {
    secs * NANOS_PER_SEC
}

/// Whether the provider is new, for `issuer`, with an identifier and a key
/// that `registration` publishes.
pub open spec fn is_new_for(
    provider: JwtTokenProvider,
    registration: KeyRegistration,
    jwks_dir: PathBuf,
    issuer: Seq<char>,
) -> bool {
    &&& keys::valid_secret(provider.secret())
    &&& keys::is_uuid_v4(provider.spec_key_id())
    &&& provider.spec_issuer() == issuer
    &&& provider.scheme() matches AuthScheme::Jwt { issuer: i, jwks_dir: d } && i@ == issuer && d
        == jwks_dir
    &&& registration.file_name@ == provider.spec_key_id() + ".jwk"@
    &&& registration.jwks.keys@.len() == 1
    &&& uncompressed(keys::public_point(provider.secret()))
    &&& publishes(
        registration.jwks.keys@[0],
        keys::public_point(provider.secret()),
        provider.spec_key_id(),
    )
}

impl JwtTokenProvider {
    /// The secret of the signing key.
    pub closed spec fn secret(self) -> Seq<u8> {
        self.signing_key@
    }

    /// The identifier under which the public key is registered.
    pub closed spec fn spec_key_id(self) -> Seq<char> {
        self.key_id@
    }

    /// The issuer that the tokens name.
    pub closed spec fn spec_issuer(self) -> Seq<char> {
        self.issuer@
    }

    /// Whether the two mint with the same key, for the same issuer, under the
    /// same scheme.
    pub open spec fn same_issuer(self, other: Self) -> bool {
        &&& self.secret() == other.secret()
        &&& self.spec_key_id() == other.spec_key_id()
        &&& self.spec_issuer() == other.spec_issuer()
        &&& self.scheme() == other.scheme()
    }

    /// The part that is signed of the token for `auds` that is minted at `now`
    /// to be valid for `ttl` seconds. There is none before the epoch, or with an
    /// expiry that a claim cannot hold.
    pub open spec fn to_sign(self, auds: Seq<Seq<char>>, ttl: int, now: int) -> Option<Seq<char>> {
        let iat = now / NANOS_PER_SEC as int;
        if now >= 0 && iat + ttl <= u64::MAX {
            Some(
                signing_input(
                    header_text("ES256"@, self.spec_key_id()),
                    claims_text(self.spec_issuer(), auds, (iat + ttl) as nat, iat as nat),
                ),
            )
        } else {
            None
        }
    }

    /// The token for `auds` that is minted at `now` to be valid for `ttl`
    /// seconds. There is none before the epoch, with an expiry that a claim
    /// cannot hold, or where the key finds no signature.
    pub open spec fn minted(self, auds: Seq<Seq<char>>, ttl: int, now: int) -> Option<Seq<char>> {
        let iat = now / NANOS_PER_SEC as int;
        if now >= 0 && iat + ttl <= u64::MAX {
            token_text(
                self.secret(),
                header_text("ES256"@, self.spec_key_id()),
                claims_text(self.spec_issuer(), auds, (iat + ttl) as nat, iat as nat),
            )
        } else {
            None
        }
    }

    /// What a request for a token does to the tokens that are kept: `now` is
    /// when they are asked and `minted_at` when a new one is minted.
    pub open spec fn token_step(
        self,
        pre: Tokens,
        post: Tokens,
        aud: Seq<char>,
        now: int,
        minted_at: int,
        res: Result<String, AuthError>,
    ) -> bool {
        let token = if now + nanos(TOKEN_TTL_SECS) <= MAX_NANOS {
            self.minted(seq![aud], TOKEN_TTL_SECS as int, minted_at)
        } else {
            None
        };
        if cache::has_cached(pre, aud, now) {
            is_token(res, Some(pre[aud].0)) && post == pre
        } else {
            &&& is_token(res, token)
            &&& match token {
                Some(t) => post == pre.insert(
                    aud,
                    (t, now + nanos((TOKEN_TTL_SECS - TOKEN_MARGIN_SECS) as u64)),
                ),
                None => post == pre,
            }
        }
    }

    /// What the wait for the key does after `event`: it fails once the time
    /// elapsed exceeds `timeout`, and is over once the key is listed.
    pub open spec fn activation_step(
        self,
        event: ActivationEvent,
        timeout: Duration,
    ) -> ActivationAction {
        match event {
            ActivationEvent::Elapsed(elapsed) => if elapsed@ > timeout@ {
                ActivationAction::Done(Err(AuthError::JwksRegistrationTimeout))
            } else {
                ActivationAction::ReadActiveKeys
            },
            ActivationEvent::ActiveKeys(Some(jwks)) => if lists_key(
                jwks.keys@,
                self.spec_key_id(),
            ) {
                ActivationAction::Done(Ok(()))
            } else {
                ActivationAction::Sleep
            },
            ActivationEvent::ActiveKeys(None) => ActivationAction::Sleep,
        }
    }

    /// What an export of a token does: the token is minted at `minted_at` and
    /// its expiry counted from `now`.
    pub open spec fn export_step(
        self,
        auds: Seq<Seq<char>>,
        ttl: Duration,
        minted_at: int,
        now: int,
        res: Result<BearerToken, AuthError>,
    ) -> bool {
        let token = if now + ttl@ <= MAX_NANOS {
            self.minted(auds, ttl.spec_secs(), minted_at)
        } else {
            None
        };
        match res {
            Ok(bearer) => token == Some(bearer.token@) && bearer.expires_at@ == now + ttl@,
            Err(e) => token is None && e is Unspecified,
        }
    }

    /// A provider for the key with the given public point and identifier, and
    /// the key file that makes the key known.
    pub fn for_key(
        jwks_dir: PathBuf,
        issuer: String,
        signing_key: SigningKey,
        point: &Vec<u8>,
        key_id: String,
    ) -> (res: Result<(JwtTokenProvider, KeyRegistration), AuthError>)
        ensures
            match res {
                Ok((provider, registration)) => {
                    &&& uncompressed(point@)
                    &&& provider.secret() == signing_key@
                    &&& provider.spec_key_id() == key_id@
                    &&& provider.spec_issuer() == issuer@
                    &&& provider.scheme() matches AuthScheme::Jwt { issuer: i, jwks_dir: d }
                        && i@ == issuer@ && d == jwks_dir
                    &&& registration.file_name@ == key_id@ + ".jwk"@
                    &&& registration.jwks.keys@.len() == 1
                    &&& publishes(registration.jwks.keys@[0], point@, key_id@)
                },
                Err(e) => !uncompressed(point@) && e is FailedToGenerateKey,
            },
    {
        if point.len() != 65 || point[0] != 4 {
            return Err(AuthError::FailedToGenerateKey);
        }
        let x = base64url_of(vstd::slice::slice_subrange(point.as_slice(), 1, 33));
        let y = base64url_of(vstd::slice::slice_subrange(point.as_slice(), 33, 65));
        let mut key_ops: Vec<String> = Vec::new();
        key_ops.push("verify".to_owned());
        assert(text::views(key_ops@) =~= seq!["verify"@]);
        let mut keys: Vec<Jwk> = Vec::new();
        keys.push(
            Jwk {
                kty: "EC".to_owned(),
                crv: "P-256".to_owned(),
                x,
                y,
                kid: key_id.clone(),
                use_: "sig".to_owned(),
                alg: "ES256".to_owned(),
                key_ops,
            },
        );
        let mut file_name = key_id.clone();
        file_name.append(".jwk");
        let registration = KeyRegistration { file_name, jwks: Jwks { keys } };
        let provider = JwtTokenProvider {
            auth_scheme: AuthScheme::Jwt { issuer: issuer.clone(), jwks_dir },
            signing_key,
            key_id,
            issuer,
        };
        Ok((provider, registration))
    }

    /// A provider with a fresh key under a fresh identifier, and the key file
    /// that makes the key known to the emulator. The key is registered once
    /// that file stands in `jwks_dir`.
    pub fn new_and_register(jwks_dir: PathBuf, issuer: String) -> (res: Result<
        (JwtTokenProvider, KeyRegistration),
        AuthError,
    >)
        ensures
            res matches Ok((provider, registration)) && is_new_for(
                provider,
                registration,
                jwks_dir,
                issuer@,
            ) && keys::was_drawn(provider.secret()) && keys::id_was_drawn(provider.spec_key_id()),
    {
        let signing_key = SigningKey::random();
        let point = signing_key.encoded_point();
        let key_id = fresh_key_id();
        JwtTokenProvider::for_key(jwks_dir, issuer, signing_key, &point, key_id)
    }

    /// The part that is signed of the token for `auds` that is minted at `now`
    /// to be valid for `ttl`.
    pub fn signing_input_at(&self, auds: &[&str], ttl: Duration, now: SystemTime) -> (res: Result<
        String,
        AuthError,
    >)
        ensures
            match res {
                Ok(input) => self.to_sign(texts(auds@), ttl.spec_secs(), now@) == Some(input@),
                Err(e) => self.to_sign(texts(auds@), ttl.spec_secs(), now@) is None && e
                    is Unspecified,
            },
    {
        let iat: u64 = match now.since_epoch() {
            Some(since) => since.as_secs(),
            None => return Err(AuthError::Unspecified),
        };
        let exp: u64 = match iat.checked_add(ttl.as_secs()) {
            Some(exp) => exp,
            None => return Err(AuthError::Unspecified),
        };
        let header = JwtHeader { alg: "ES256".to_owned(), kid: self.key_id.clone() };
        let mut aud: Vec<String> = Vec::new();
        for i in 0..auds.len()
            invariant
                aud@.len() == i,
                forall|j: int| 0 <= j < i ==> (#[trigger] aud@[j])@ == auds@[j]@,
        {
            aud.push(auds[i].to_owned());
        }
        assert(text::views(aud@) =~= texts(auds@));
        let claims = JwtClaims { iss: self.issuer.clone(), aud, exp, iat };
        let header_json = match header.to_json() {
            Ok(json) => json,
            Err(e) => return Err(e),
        };
        let claims_json = match claims.to_json() {
            Ok(json) => json,
            Err(e) => return Err(e),
        };
        let mut input = base64url_of(header_json.as_str().as_bytes());
        input.append(".");
        input.append(base64url_of(claims_json.as_str().as_bytes()).as_str());
        Ok(input)
    }

    /// The token for `auds` that is minted at `now` to be valid for `ttl`.
    pub fn create_token_at(&self, auds: &[&str], ttl: Duration, now: SystemTime) -> (res: Result<
        String,
        AuthError,
    >)
        ensures
            is_token(res, self.minted(texts(auds@), ttl.spec_secs(), now@)),
    {
        match self.signing_input_at(auds, ttl, now) {
            Ok(input) => {
                let signature = self.signing_key.sign(input.as_str().as_bytes());
                signed_token(input, signature)
            },
            Err(e) => Err(e),
        }
    }

    /// A token for `auds` that is valid for `ttl` from now. A clock that reads
    /// before the epoch, or so late that a claim cannot hold the expiry, is an
    /// error, as is a key that finds no signature.
    pub fn create_token(&self, auds: &[&str], ttl: Duration) -> (res: Result<String, AuthError>)
        ensures
            exists|now: int|
                time::was_now(now) && is_token(
                    res,
                    #[trigger] self.minted(texts(auds@), ttl.spec_secs(), now),
                ),
    {
        self.create_token_at(auds, ttl, SystemTime::now())
    }

    /// A token for requests to `aud`: the one that is kept where it is still
    /// used at `now`, else one that is minted at `minted_at` and then kept.
    pub fn token_for_aud_at(
        &self,
        tokens: &mut TokenCache,
        aud: &str,
        now: SystemTime,
        minted_at: SystemTime,
    ) -> (res: Result<String, AuthError>)
        ensures
            self.token_step(old(tokens)@, final(tokens)@, aud@, now@, minted_at@, res),
    {
        match tokens.get(aud) {
            Some(cached) => {
                if cached.expires_at.later_than(&now) {
                    return Ok(cached.token.clone());
                }
            },
            None => {},
        }
        let margin = Duration::from_secs(TOKEN_TTL_SECS - TOKEN_MARGIN_SECS);
        let ttl = Duration::from_secs(TOKEN_TTL_SECS);
        let expires_at = match (now.checked_add(ttl), now.checked_add(margin)) {
            (Some(_), Some(t)) => t,
            _ => return Err(AuthError::Unspecified),
        };
        let auds: [&str; 1] = [aud];
        assert(texts(auds@) =~= seq![aud@]);
        let token = match self.create_token_at(auds.as_slice(), ttl, minted_at) {
            Ok(token) => token,
            Err(e) => return Err(e),
        };
        tokens.insert(CachedToken { aud: aud.to_owned(), token: token.clone(), expires_at });
        Ok(token)
    }

    /// A token for `auds` that is minted at `minted_at` and, with its expiry
    /// counted from `now`, handed on.
    pub fn export_token_at(
        &self,
        auds: &[&str],
        ttl: Duration,
        minted_at: SystemTime,
        now: SystemTime,
    ) -> (res: Result<BearerToken, AuthError>)
        ensures
            self.export_step(texts(auds@), ttl, minted_at@, now@, res),
    {
        let token = match self.create_token_at(auds, ttl, minted_at) {
            Ok(token) => token,
            Err(e) => return Err(e),
        };
        match now.checked_add(ttl) {
            Some(expires_at) => Ok(BearerToken { token, expires_at }),
            None => Err(AuthError::Unspecified),
        }
    }

    /// One step of the wait until the emulator has activated the key: what to
    /// do after `event`. The wait starts with the time elapsed, and every
    /// sleep is followed by it.
    pub fn wait_for_activation(&self, event: &ActivationEvent, timeout: Duration) -> (res:
        ActivationAction)
        ensures
            res == self.activation_step(*event, timeout),
    {
        match event {
            ActivationEvent::Elapsed(elapsed) => {
                if elapsed.exceeds(&timeout) {
                    ActivationAction::Done(Err(AuthError::JwksRegistrationTimeout))
                } else {
                    ActivationAction::ReadActiveKeys
                }
            },
            ActivationEvent::ActiveKeys(Some(jwks)) => {
                let mut i: usize = 0;
                while i < jwks.keys.len()
                    invariant
                        i <= jwks.keys@.len(),
                        *event == ActivationEvent::ActiveKeys(Some(*jwks)),
                        forall|j: int|
                            0 <= j < i ==> (#[trigger] jwks.keys@[j]).kid@ != self.key_id@,
                    decreases jwks.keys@.len() - i,
                {
                    if jwks.keys[i].kid == self.key_id {
                        assert(lists_key(jwks.keys@, self.key_id@));
                        return ActivationAction::Done(Ok(()));
                    }
                    i += 1;
                }
                ActivationAction::Sleep
            },
            ActivationEvent::ActiveKeys(None) => ActivationAction::Sleep,
        }
    }
}

impl Clone for JwtTokenProvider {
    /// A provider that mints with the same key, for the same issuer.
    fn clone(&self) -> (res: Self)
        ensures
            self.same_issuer(res),
    {
        JwtTokenProvider {
            auth_scheme: self.auth_scheme.clone(),
            signing_key: self.signing_key.clone(),
            key_id: self.key_id.clone(),
            issuer: self.issuer.clone(),
        }
    }
}

impl TokenProvider for JwtTokenProvider {
    closed spec fn scheme(&self) -> AuthScheme {
        self.auth_scheme
    }

    fn auth_scheme(&self) -> (res: &AuthScheme) {
        &self.auth_scheme
    }

    fn token_for_aud(&self, tokens: &mut TokenCache, aud: &str) -> (res: Result<String, AuthError>)
        ensures
            exists|now: int, minted_at: int| #[trigger]
                self.token_step(old(tokens)@, final(tokens)@, aud@, now, minted_at, res)
                    && time::was_now(now) && time::was_now(minted_at),
    {
        let now = SystemTime::now();
        self.token_for_aud_at(tokens, aud, now, SystemTime::now())
    }

    fn export_token(&self, auds: &[&str], ttl: Duration) -> (res: Result<BearerToken, AuthError>)
        ensures
            exists|minted_at: int, now: int| #[trigger]
                self.export_step(texts(auds@), ttl, minted_at, now, res) && time::was_now(minted_at)
                    && time::was_now(now),
    {
        let minted_at = SystemTime::now();
        self.export_token_at(auds, ttl, minted_at, SystemTime::now())
    }
}

/// A token has three parts between full stops: the header, the claims and the
/// signature of what stands before the last stop, each in Base64.
pub proof fn law_token_parts(
    secret: Seq<u8>,
    header: Seq<char>,
    claims: Seq<char>,
    token: Seq<char>,
)
    requires
        token_text(secret, header, claims) == Some(token),
    ensures
        ({
            let h = encoding::base64url(vstd::utf8::encode_utf8(header));
            let c = encoding::base64url(vstd::utf8::encode_utf8(claims));
            let input = signing_input(header, claims);
            let sig = keys::es256_signature(secret, vstd::utf8::encode_utf8(input));
            &&& sig is Some
            &&& text::split_once(token, '.') == Some(
                (h, c + seq!['.'] + encoding::base64url(sig->0)),
            )
            &&& text::split_once(c + seq!['.'] + encoding::base64url(sig->0), '.') == Some(
                (c, encoding::base64url(sig->0)),
            )
            &&& text::split_once(encoding::base64url(sig->0), '.') is None
        }),
{
    let hb = vstd::utf8::encode_utf8(header);
    let cb = vstd::utf8::encode_utf8(claims);
    let sig = keys::es256_signature(
        secret,
        vstd::utf8::encode_utf8(signing_input(header, claims)),
    )->0;
    let rest = encoding::base64url(cb) + seq!['.'] + encoding::base64url(sig);
    reveal_strlit(".");
    assert("."@ =~= seq!['.']);
    assert(token =~= encoding::base64url(hb) + seq!['.'] + rest);
    encoding::lemma_base64url_no_stop(hb);
    encoding::lemma_base64url_no_stop(cb);
    encoding::lemma_base64url_no_stop(sig);
    text::lemma_split_once(encoding::base64url(hb), '.', rest);
    text::lemma_split_once(encoding::base64url(cb), '.', encoding::base64url(sig));
    text::lemma_split_none(encoding::base64url(sig), '.');
}

/// A token tells its header and its claims: tokens with different ones differ,
/// whoever signed them.
pub proof fn law_token_decides(
    secret1: Seq<u8>,
    header1: Seq<char>,
    claims1: Seq<char>,
    secret2: Seq<u8>,
    header2: Seq<char>,
    claims2: Seq<char>,
    token: Seq<char>,
)
    requires
        token_text(secret1, header1, claims1) == Some(token),
        token_text(secret2, header2, claims2) == Some(token),
    ensures
        header1 == header2,
        claims1 == claims2,
{
    law_token_parts(secret1, header1, claims1, token);
    law_token_parts(secret2, header2, claims2, token);
    encoding::lemma_base64url_injective(
        vstd::utf8::encode_utf8(header1),
        vstd::utf8::encode_utf8(header2),
    );
    encoding::lemma_base64url_injective(
        vstd::utf8::encode_utf8(claims1),
        vstd::utf8::encode_utf8(claims2),
    );
    vstd::utf8::encode_utf8_decode_utf8(header1);
    vstd::utf8::encode_utf8_decode_utf8(header2);
    vstd::utf8::encode_utf8_decode_utf8(claims1);
    vstd::utf8::encode_utf8_decode_utf8(claims2);
}

/// The header's JSON tells the algorithm and the key identifier.
pub proof fn law_header_decides(
    alg1: Seq<char>,
    kid1: Seq<char>,
    alg2: Seq<char>,
    kid2: Seq<char>,
)
    requires
        header_text(alg1, kid1) == header_text(alg2, kid2),
    ensures
        alg1 == alg2,
        kid1 == kid2,
{
    let open = "{\"alg\":"@;
    let kid = ",\"kid\":"@;
    let close = "}"@;
    let tail1 = encoding::json_string(kid1) + close;
    let tail2 = encoding::json_string(kid2) + close;
    assert(encoding::json_string(alg1) + (kid + tail1) =~= header_text(alg1, kid1).skip(
        open.len() as int,
    ));
    assert(encoding::json_string(alg2) + (kid + tail2) =~= header_text(alg2, kid2).skip(
        open.len() as int,
    ));
    encoding::lemma_json_string_decides(alg1, alg2, kid + tail1, kid + tail2);
    assert(tail1 =~= (kid + tail1).skip(kid.len() as int));
    assert(tail2 =~= (kid + tail2).skip(kid.len() as int));
    encoding::lemma_json_string_decides(kid1, kid2, close, close);
}

proof fn lemma_concat_assoc(a: Seq<char>, b: Seq<char>, c: Seq<char>)
    ensures
        (a + b) + c == a + (b + c),
{
    assert((a + b) + c =~= a + (b + c));
}

proof fn lemma_concat_decides(a: Seq<char>, x: Seq<char>, y: Seq<char>)
    requires
        a + x == a + y,
    ensures
        x == y,
{
    assert(x =~= (a + x).skip(a.len() as int));
    assert(y =~= (a + y).skip(a.len() as int));
}

/// The times of the claims, and what ends them.
spec fn claims_times(exp: nat, iat: nat) -> Seq<char> {
    ",\"exp\":"@ + (text::decimal(exp) + (",\"iat\":"@ + (text::decimal(iat) + "}"@)))
}

proof fn lemma_claims_shape(iss: Seq<char>, aud: Seq<Seq<char>>, exp: nat, iat: nat)
    ensures
        claims_text(iss, aud, exp, iat) == "{\"iss\":"@ + (encoding::json_string(iss) + (
        aud_member(aud) + claims_times(exp, iat))),
{
    let a = "{\"iss\":"@;
    let b = encoding::json_string(iss);
    let c = aud_member(aud);
    let d = ",\"exp\":"@;
    let e = text::decimal(exp);
    let f = ",\"iat\":"@;
    let g = text::decimal(iat);
    let h = "}"@;
    lemma_concat_assoc(a + b + c + d + e + f, g, h);
    lemma_concat_assoc(a + b + c + d + e, f, g + h);
    lemma_concat_assoc(a + b + c + d, e, f + (g + h));
    lemma_concat_assoc(a + b + c, d, e + (f + (g + h)));
    lemma_concat_assoc(a + b, c, d + (e + (f + (g + h))));
    lemma_concat_assoc(a, b, c + (d + (e + (f + (g + h)))));
}

proof fn lemma_claims_times_decide(exp1: nat, iat1: nat, exp2: nat, iat2: nat)
    requires
        claims_times(exp1, iat1) == claims_times(exp2, iat2),
    ensures
        exp1 == exp2,
        iat1 == iat2,
{
    let iat = ",\"iat\":"@;
    let close = "}"@;
    reveal_strlit(",\"iat\":");
    reveal_strlit("}");
    let end1 = text::decimal(iat1) + close;
    let end2 = text::decimal(iat2) + close;
    lemma_concat_decides(
        ",\"exp\":"@,
        text::decimal(exp1) + (iat + end1),
        text::decimal(exp2) + (iat + end2),
    );
    assert((iat + end1)[0] == ',' && (iat + end2)[0] == ',');
    text::lemma_decimal_decides(exp1, exp2, iat + end1, iat + end2);
    lemma_concat_decides(iat, end1, end2);
    text::lemma_decimal_decides(iat1, iat2, close, close);
}

proof fn lemma_aud_decides(aud1: Seq<Seq<char>>, x: Seq<char>, aud2: Seq<Seq<char>>, y: Seq<char>)
    requires
        aud_member(aud1) + x == aud_member(aud2) + y,
        x.len() > 2 && x[2] == 'e',
        y.len() > 2 && y[2] == 'e',
    ensures
        aud1 == aud2,
        x == y,
{
    let aud = ",\"aud\":"@;
    reveal_strlit(",\"aud\":");
    if aud1.len() > 0 {
        assert((aud_member(aud1) + x)[2] == 'a');
        if aud2.len() == 0 {
            assert(aud_member(aud2) + y =~= y);
        }
        lemma_concat_assoc(aud, encoding::json_array(aud1), x);
        lemma_concat_assoc(aud, encoding::json_array(aud2), y);
        lemma_concat_decides(aud, encoding::json_array(aud1) + x, encoding::json_array(aud2) + y);
        encoding::lemma_json_array_decides(aud1, aud2, x, y);
    } else {
        assert(aud_member(aud1) + x =~= x);
        if aud2.len() > 0 {
            assert((aud_member(aud2) + y)[2] == 'a');
        }
        assert(aud_member(aud2) + y =~= y);
        assert(aud1 =~= aud2);
    }
}

/// The claims' JSON tells the issuer, the audiences and both times.
pub proof fn law_claims_decide(
    iss1: Seq<char>,
    aud1: Seq<Seq<char>>,
    exp1: nat,
    iat1: nat,
    iss2: Seq<char>,
    aud2: Seq<Seq<char>>,
    exp2: nat,
    iat2: nat,
)
    requires
        claims_text(iss1, aud1, exp1, iat1) == claims_text(iss2, aud2, exp2, iat2),
    ensures
        iss1 == iss2,
        aud1 == aud2,
        exp1 == exp2,
        iat1 == iat2,
{
    let times1 = claims_times(exp1, iat1);
    let times2 = claims_times(exp2, iat2);
    let rest1 = aud_member(aud1) + times1;
    let rest2 = aud_member(aud2) + times2;
    lemma_claims_shape(iss1, aud1, exp1, iat1);
    lemma_claims_shape(iss2, aud2, exp2, iat2);
    lemma_concat_decides(
        "{\"iss\":"@,
        encoding::json_string(iss1) + rest1,
        encoding::json_string(iss2) + rest2,
    );
    encoding::lemma_json_string_decides(iss1, iss2, rest1, rest2);
    reveal_strlit(",\"exp\":");
    assert(times1[2] == 'e' && times2[2] == 'e');
    lemma_aud_decides(aud1, times1, aud2, times2);
    lemma_claims_times_decide(exp1, iat1, exp2, iat2);
}

/// Tokens of two providers that agree were minted under the same key
/// identifier, for the same issuer, for the same audiences, in the same second
/// and for the same time.
pub proof fn law_minted_decides(
    p1: JwtTokenProvider,
    auds1: Seq<Seq<char>>,
    ttl1: int,
    now1: int,
    p2: JwtTokenProvider,
    auds2: Seq<Seq<char>>,
    ttl2: int,
    now2: int,
)
    requires
        ttl1 >= 0,
        ttl2 >= 0,
        p1.minted(auds1, ttl1, now1) is Some,
        p1.minted(auds1, ttl1, now1) == p2.minted(auds2, ttl2, now2),
    ensures
        p1.spec_key_id() == p2.spec_key_id(),
        p1.spec_issuer() == p2.spec_issuer(),
        auds1 == auds2,
        now1 / NANOS_PER_SEC as int == now2 / NANOS_PER_SEC as int,
        ttl1 == ttl2,
{
    let iat1 = now1 / NANOS_PER_SEC as int;
    let iat2 = now2 / NANOS_PER_SEC as int;
    let h1 = header_text("ES256"@, p1.spec_key_id());
    let h2 = header_text("ES256"@, p2.spec_key_id());
    let c1 = claims_text(p1.spec_issuer(), auds1, (iat1 + ttl1) as nat, iat1 as nat);
    let c2 = claims_text(p2.spec_issuer(), auds2, (iat2 + ttl2) as nat, iat2 as nat);
    law_token_decides(p1.secret(), h1, c1, p2.secret(), h2, c2, p1.minted(auds1, ttl1, now1)->0);
    law_header_decides("ES256"@, p1.spec_key_id(), "ES256"@, p2.spec_key_id());
    law_claims_decide(
        p1.spec_issuer(),
        auds1,
        (iat1 + ttl1) as nat,
        iat1 as nat,
        p2.spec_issuer(),
        auds2,
        (iat2 + ttl2) as nat,
        iat2 as nat,
    );
}

/// A token that was minted for an audience is handed out again, and nothing is
/// minted, until thirty seconds before it has lasted its ten minutes: by the
/// provider, and by every other that is asked with the same tokens.
pub proof fn law_cached_token_is_reused(
    provider: JwtTokenProvider,
    other: JwtTokenProvider,
    first: Tokens,
    second: Tokens,
    third: Tokens,
    aud: Seq<char>,
    now: int,
    minted_at: int,
    token: String,
    later: int,
    minted_later: int,
    res: Result<String, AuthError>,
)
    requires
        !cache::has_cached(first, aud, now),
        provider.token_step(first, second, aud, now, minted_at, Ok(token)),
        later < now + nanos(570),
        other.token_step(second, third, aud, later, minted_later, res),
    ensures
        res matches Ok(again) && again@ == token@,
        third == second,
{
}

/// A clone, asked with the tokens of the provider, does what the provider does
/// with them: it finds each that the provider minted, and mints the same.
pub proof fn law_clone_shares_tokens(
    provider: JwtTokenProvider,
    clone: JwtTokenProvider,
    pre: Tokens,
    post: Tokens,
    aud: Seq<char>,
    now: int,
    minted_at: int,
    res: Result<String, AuthError>,
)
    requires
        provider.same_issuer(clone),
    ensures
        clone.token_step(pre, post, aud, now, minted_at, res) == provider.token_step(
            pre,
            post,
            aud,
            now,
            minted_at,
            res,
        ),
{
}

/// Whether every token that is kept was minted by the provider for its
/// audience.
pub open spec fn caches_own_tokens(provider: JwtTokenProvider, tokens: Tokens) -> bool {
    forall|aud: Seq<char>| #[trigger]
        tokens.contains_key(aud) ==> minted_for(provider, aud, tokens[aud].0)
}

/// Whether the provider mints the token for requests to `aud` at some time.
pub open spec fn minted_for(provider: JwtTokenProvider, aud: Seq<char>, token: Seq<char>) -> bool {
    exists|at: int| #[trigger]
        provider.minted(seq![aud], TOKEN_TTL_SECS as int, at) == Some(token)
}

/// Every token that a provider gives out, minted or kept, is its own and for
/// the audience that was asked for. Where nothing is kept that is so, and
/// every request keeps it so.
pub proof fn law_tokens_are_for_their_audience(
    provider: JwtTokenProvider,
    pre: Tokens,
    post: Tokens,
    aud: Seq<char>,
    now: int,
    minted_at: int,
    res: Result<String, AuthError>,
)
    requires
        caches_own_tokens(provider, pre),
        provider.token_step(pre, post, aud, now, minted_at, res),
    ensures
        res matches Ok(token) ==> minted_for(provider, aud, token@),
        caches_own_tokens(provider, post),
        caches_own_tokens(provider, Tokens::empty()),
{
    if !cache::has_cached(pre, aud, now) && res is Ok {
        let token = res->Ok_0@;
        assert(provider.minted(seq![aud], TOKEN_TTL_SECS as int, minted_at) == Some(token));
        assert forall|a: Seq<char>| #[trigger] post.contains_key(a) implies minted_for(
            provider,
            a,
            post[a].0,
        ) by {
            if a != aud {
                assert(pre.contains_key(a));
            }
        }
    }
}

/// The scheme of a new provider names the issuer that its tokens name.
pub proof fn law_scheme_names_issuer(
    provider: JwtTokenProvider,
    registration: KeyRegistration,
    jwks_dir: PathBuf,
    issuer: Seq<char>,
)
    requires
        is_new_for(provider, registration, jwks_dir, issuer),
    ensures
        provider.scheme() matches AuthScheme::Jwt { issuer: named, .. } && named@
            == provider.spec_issuer(),
{
}

/// A request for one audience leaves what is kept for every other.
pub proof fn law_other_audiences_are_kept(
    provider: JwtTokenProvider,
    pre: Tokens,
    post: Tokens,
    aud: Seq<char>,
    now: int,
    minted_at: int,
    res: Result<String, AuthError>,
    other: Seq<char>,
    at: int,
)
    requires
        provider.token_step(pre, post, aud, now, minted_at, res),
        other != aud,
    ensures
        cache::has_cached(post, other, at) == cache::has_cached(pre, other, at),
        cache::has_cached(pre, other, at) ==> post[other] == pre[other],
{
}

/// Whether the claims of the token for `aud` state the expiry `exp`, in
/// seconds since the epoch.
pub open spec fn states_expiry(
    provider: JwtTokenProvider,
    aud: Seq<char>,
    token: Seq<char>,
    exp: nat,
) -> bool {
    exists|iat: nat|
        token_text(
            provider.secret(),
            header_text("ES256"@, provider.spec_key_id()),
            #[trigger] claims_text(provider.spec_issuer(), seq![aud], exp, iat),
        ) == Some(token)
}

/// Whether the token for `aud` was minted at `at`, and is used until at most
/// thirty seconds before it has lasted its ten minutes.
pub open spec fn fresh_from(
    provider: JwtTokenProvider,
    aud: Seq<char>,
    cached: (Seq<char>, int),
    at: int,
) -> bool {
    &&& provider.minted(seq![aud], TOKEN_TTL_SECS as int, at) == Some(cached.0)
    &&& cached.1 <= at + nanos((TOKEN_TTL_SECS - TOKEN_MARGIN_SECS) as u64)
}

/// Whether every token that is kept is given up thirty seconds before it
/// expires.
pub open spec fn caches_fresh_tokens(provider: JwtTokenProvider, tokens: Tokens) -> bool {
    forall|aud: Seq<char>| #[trigger]
        tokens.contains_key(aud) ==> exists|at: int| #[trigger]
            fresh_from(provider, aud, tokens[aud], at)
}

/// The expiry that the claims of a minted token state is ten minutes after the
/// second in which it was minted.
proof fn lemma_expiry(provider: JwtTokenProvider, aud: Seq<char>, at: int, token: Seq<char>, exp: nat)
    requires
        provider.minted(seq![aud], TOKEN_TTL_SECS as int, at) == Some(token),
        states_expiry(provider, aud, token, exp),
    ensures
        exp == at / NANOS_PER_SEC as int + 600,
{
    let header = header_text("ES256"@, provider.spec_key_id());
    let at_secs = (at / NANOS_PER_SEC as int) as nat;
    let iat = choose|iat: nat|
        token_text(
            provider.secret(),
            header,
            #[trigger] claims_text(provider.spec_issuer(), seq![aud], exp, iat),
        ) == Some(token);
    let stated = claims_text(provider.spec_issuer(), seq![aud], exp, iat);
    let minted = claims_text(provider.spec_issuer(), seq![aud], at_secs + 600, at_secs);
    law_token_decides(provider.secret(), header, stated, provider.secret(), header, minted, token);
    law_claims_decide(
        provider.spec_issuer(),
        seq![aud],
        exp,
        iat,
        provider.spec_issuer(),
        seq![aud],
        at_secs + 600,
        at_secs,
    );
}

/// Every token that is given out, minted or kept, has at least thirty whole
/// seconds left until the expiry that its claims state, counted from the
/// second in which it was asked for; one that is minted has ten minutes left
/// from the second in which it was. That holds where the tokens are given up
/// in time, and every request keeps it so, as long as the clock does not go
/// back within one.
pub proof fn law_token_is_fresh(
    provider: JwtTokenProvider,
    pre: Tokens,
    post: Tokens,
    aud: Seq<char>,
    now: int,
    minted_at: int,
    res: Result<String, AuthError>,
    exp: nat,
)
    requires
        caches_fresh_tokens(provider, pre),
        now <= minted_at,
        provider.token_step(pre, post, aud, now, minted_at, res),
    ensures
        caches_fresh_tokens(provider, post),
        res matches Ok(token) && states_expiry(provider, aud, token@, exp) ==> now
            / NANOS_PER_SEC as int + 30 <= exp,
        res matches Ok(token) && states_expiry(provider, aud, token@, exp) && !cache::has_cached(
            pre,
            aud,
            now,
        ) ==> exp == minted_at / NANOS_PER_SEC as int + 600,
{
    if res is Ok {
        let token = res->Ok_0@;
        if cache::has_cached(pre, aud, now) {
            assert(pre.contains_key(aud));
            let at = choose|at: int| #[trigger] fresh_from(provider, aud, pre[aud], at);
            assert(fresh_from(provider, aud, pre[aud], at));
            if states_expiry(provider, aud, token, exp) {
                lemma_expiry(provider, aud, at, token, exp);
            }
        } else {
            if states_expiry(provider, aud, token, exp) {
                lemma_expiry(provider, aud, minted_at, token, exp);
            }
            assert forall|a: Seq<char>| #[trigger] post.contains_key(a) implies exists|
                at: int,
            | #[trigger] fresh_from(provider, a, post[a], at) by {
                if a == aud {
                    assert(fresh_from(provider, a, post[a], minted_at));
                } else {
                    assert(pre.contains_key(a));
                }
            }
        }
    }
}

/// After any requests to a provider or its clones, with nothing kept at first
/// and a clock that did not go back within one, a token that is given out has
/// at least thirty whole seconds left.
pub proof fn law_every_token_is_fresh(
    provider: JwtTokenProvider,
    asked: Seq<JwtTokenProvider>,
    states: Seq<Tokens>,
    auds: Seq<Seq<char>>,
    times: Seq<(int, int)>,
    results: Seq<Result<String, AuthError>>,
    exp: nat,
)
    requires
        auds.len() > 0,
        asked.len() == auds.len(),
        states.len() == auds.len() + 1,
        times.len() == auds.len(),
        results.len() == auds.len(),
        states[0] == Tokens::empty(),
        forall|i: int| 0 <= i < auds.len() ==> provider.same_issuer(#[trigger] asked[i]),
        forall|i: int|
            0 <= i < auds.len() ==> asked[i].token_step(
                states[i],
                states[i + 1],
                #[trigger] auds[i],
                times[i].0,
                times[i].1,
                results[i],
            ),
        forall|i: int| 0 <= i < auds.len() ==> (#[trigger] times[i]).0 <= times[i].1,
    ensures
        caches_fresh_tokens(provider, states.last()),
        results.last() matches Ok(token) && states_expiry(provider, auds.last(), token@, exp)
            ==> times.last().0 / NANOS_PER_SEC as int + 30 <= exp,
    decreases auds.len(),
{
    let n = auds.len() - 1;
    let pre = states[n];
    if n > 0 {
        law_every_token_is_fresh(
            provider,
            asked.drop_last(),
            states.drop_last(),
            auds.drop_last(),
            times.drop_last(),
            results.drop_last(),
            exp,
        );
        assert(states.drop_last().last() == pre);
    }
    assert(times[n].0 <= times[n].1);
    assert(provider.same_issuer(asked[n]));
    let (aud, at, res) = (auds[n], times[n], results[n]);
    assert(asked[n].token_step(pre, states[n + 1], aud, at.0, at.1, res));
    law_clone_shares_tokens(provider, asked[n], pre, states[n + 1], aud, at.0, at.1, res);
    law_token_is_fresh(provider, pre, states[n + 1], aud, at.0, at.1, res, exp);
}

/// A key that is registered is published whole: each coordinate is 32 bytes,
/// which 43 characters encode.
pub proof fn law_registered_key_is_whole(
    provider: JwtTokenProvider,
    registration: KeyRegistration,
    jwks_dir: PathBuf,
    issuer: Seq<char>,
)
    requires
        is_new_for(provider, registration, jwks_dir, issuer),
    ensures
        ({
            let point = keys::public_point(provider.secret());
            let jwk = registration.jwks.keys@[0];
            &&& point.len() == 65
            &&& jwk.x@ == encoding::base64url(point.subrange(1, 33))
            &&& jwk.y@ == encoding::base64url(point.subrange(33, 65))
            &&& jwk.x@.len() == 43
            &&& jwk.y@.len() == 43
        }),
{
}

/// An exported token carries the audiences and the lifetime that it was
/// exported for, and no others; and it does not outlive the expiry that is
/// handed out with it, where the expiry was counted no earlier than the token
/// was minted.
pub proof fn law_exported_token_is_limited(
    provider: JwtTokenProvider,
    auds: Seq<Seq<char>>,
    ttl: Duration,
    minted_at: int,
    now: int,
    bearer: BearerToken,
    other: JwtTokenProvider,
    other_auds: Seq<Seq<char>>,
    other_ttl: int,
    other_at: int,
)
    requires
        ttl@ >= 0,
        provider.export_step(auds, ttl, minted_at, now, Ok(bearer)),
        other_ttl >= 0,
        other.minted(other_auds, other_ttl, other_at) == Some(bearer.token@),
    ensures
        other_auds == auds,
        other_ttl == ttl.spec_secs(),
        other.spec_issuer() == provider.spec_issuer(),
        other.spec_key_id() == provider.spec_key_id(),
        minted_at <= now ==> (minted_at / NANOS_PER_SEC as int + ttl.spec_secs()) * NANOS_PER_SEC
            <= bearer.expires_at@,
{
    law_minted_decides(
        provider,
        auds,
        ttl.spec_secs(),
        minted_at,
        other,
        other_auds,
        other_ttl,
        other_at,
    );
}

/// The key of a new provider is the one that its registration lists, so the
/// wait for it is over once the emulator lists what was registered.
pub proof fn law_registered_key_activates(
    provider: JwtTokenProvider,
    registration: KeyRegistration,
    point: Seq<u8>,
    active: Jwks,
    timeout: Duration,
)
    requires
        registration.jwks.keys@.len() == 1,
        publishes(registration.jwks.keys@[0], point, provider.spec_key_id()),
        lists_key(active.keys@, registration.jwks.keys@[0].kid@),
    ensures
        provider.activation_step(ActivationEvent::ActiveKeys(Some(active)), timeout)
            == ActivationAction::Done(Ok(())),
{
}

/// The end of a wait that is told `events`, if it has come to one.
pub open spec fn activation_end(
    provider: JwtTokenProvider,
    events: Seq<ActivationEvent>,
    timeout: Duration,
) -> Option<Result<(), AuthError>>
    decreases events.len(),
{
    if events.len() == 0 {
        None
    } else {
        match provider.activation_step(events.first(), timeout) {
            ActivationAction::Done(res) => Some(res),
            _ => activation_end(provider, events.drop_first(), timeout),
        }
    }
}

/// A wait succeeds only on a look that lists the key, and fails only on a time
/// beyond the timeout; what came before neither listed the key nor was late.
pub proof fn law_activation_ends(
    provider: JwtTokenProvider,
    events: Seq<ActivationEvent>,
    timeout: Duration,
)
    ensures
        match activation_end(provider, events, timeout) {
            Some(res) => exists|k: int|
                0 <= k < events.len() && #[trigger] provider.activation_step(events[k], timeout)
                    == ActivationAction::Done(res) && (forall|j: int|
                    0 <= j < k ==> !(#[trigger] provider.activation_step(events[j], timeout)
                        is Done)),
            None => forall|j: int|
                0 <= j < events.len() ==> !(#[trigger] provider.activation_step(events[j], timeout)
                    is Done),
        },
    decreases events.len(),
{
    if events.len() > 0 {
        let rest = events.drop_first();
        if provider.activation_step(events[0], timeout) is Done {
            let res = activation_end(provider, events, timeout)->0;
            assert(provider.activation_step(events[0], timeout) == ActivationAction::Done(res));
        } else {
            law_activation_ends(provider, rest, timeout);
            match activation_end(provider, rest, timeout) {
                Some(res) => {
                    let k = choose|k: int|
                        0 <= k < rest.len() && #[trigger] provider.activation_step(rest[k], timeout)
                            == ActivationAction::Done(res) && (forall|j: int|
                            0 <= j < k ==> !(#[trigger] provider.activation_step(rest[j], timeout)
                                is Done));
                    assert(provider.activation_step(events[k + 1], timeout)
                        == ActivationAction::Done(res));
                    assert forall|j: int| 0 <= j < k + 1 implies !(
                    #[trigger] provider.activation_step(events[j], timeout) is Done) by {
                        if j > 0 {
                            assert(events[j] == rest[j - 1]);
                        }
                    }
                },
                None => {
                    assert forall|j: int| 0 <= j < events.len() implies !(
                    #[trigger] provider.activation_step(events[j], timeout) is Done) by {
                        if j > 0 {
                            assert(events[j] == rest[j - 1]);
                        }
                    }
                },
            }
        }
    }
}

/// The claims of a token are a JSON object that names the issuer, then each of
/// the audiences as one string of an array, where there are any, then the two
/// times.
pub proof fn law_claims_are_what_was_asked(claims: JwtClaims, res: Result<String, AuthError>)
    requires
        call_ensures(JwtClaims::to_json, (&claims,), res),
    ensures
        res is Ok,
        res->Ok_0@ == "{\"iss\":"@ + encoding::json_string(claims.iss@) + (if claims.aud@.len()
            == 0 {
            Seq::<char>::empty()
        } else {
            ",\"aud\":"@ + encoding::json_array(
                Seq::new(claims.aud@.len(), |i: int| claims.aud@[i]@),
            )
        }) + ",\"exp\":"@ + text::decimal(claims.exp as nat) + ",\"iat\":"@ + text::decimal(
            claims.iat as nat,
        ) + "}"@,
{
    assert(text::views(claims.aud@) =~= Seq::new(claims.aud@.len(), |i: int| claims.aud@[i]@));
}

/// The header of a token is a JSON object that names the algorithm and the key.
pub proof fn law_header_names_the_key(header: JwtHeader, res: Result<String, AuthError>)
    requires
        call_ensures(JwtHeader::to_json, (&header,), res),
    ensures
        res is Ok,
        res->Ok_0@ == "{\"alg\":"@ + encoding::json_string(header.alg@) + ",\"kid\":"@
            + encoding::json_string(header.kid@) + "}"@,
{
}

/// A token is minted for exactly the audiences that were asked for, each as it
/// was given and however many there are, and to be valid for exactly the time
/// that was asked for: its claims name the issuer, those audiences, the second
/// in which it was minted and that second plus the lifetime. Its header names
/// the key, and its signature is that of the key under header and claims. There
/// is a token if and only if the clock is not before the epoch, the expiry is a
/// number of 64 bits and the key signs.
pub proof fn law_token_is_for_those_audiences(
    provider: JwtTokenProvider,
    auds: &[&str],
    ttl: Duration,
    now: SystemTime,
    iat: int,
    exp: int,
    res: Result<String, AuthError>,
)
    requires
        call_ensures(JwtTokenProvider::create_token_at, (&provider, auds, ttl, now), res),
        iat == now@ / 1_000_000_000,
        exp == iat + ttl@ / 1_000_000_000,
    ensures
        ({
            let named = Seq::new(auds@.len(), |i: int| auds@[i]@);
            let header = header_text("ES256"@, provider.spec_key_id());
            let claims = claims_text(provider.spec_issuer(), named, exp as nat, iat as nat);
            let token = token_text(provider.secret(), header, claims);
            &&& res is Ok <==> now@ >= 0 && exp <= u64::MAX && token is Some
            &&& res matches Ok(t) ==> token == Some(t@)
            &&& res matches Err(e) ==> e is Unspecified
        }),
{
    assert(texts(auds@) =~= Seq::new(auds@.len(), |i: int| auds@[i]@));
}

/// What is signed for a token is its header and its claims, each in Base64, with
/// a full stop between them: the header names ES256 and the key; the claims
/// name the issuer, exactly the audiences that were asked for, the expiry and
/// the second in which the token was minted.
pub proof fn law_signed_part_is_what_was_asked(
    provider: JwtTokenProvider,
    auds: &[&str],
    ttl: Duration,
    now: SystemTime,
    iat: int,
    exp: int,
    res: Result<String, AuthError>,
)
    requires
        call_ensures(JwtTokenProvider::signing_input_at, (&provider, auds, ttl, now), res),
        iat == now@ / 1_000_000_000,
        exp == iat + ttl@ / 1_000_000_000,
    ensures
        res is Ok <==> now@ >= 0 && exp <= u64::MAX,
        res matches Err(e) ==> e is Unspecified,
        res matches Ok(input) ==> input@ == encoding::base64url(
            vstd::utf8::encode_utf8(
                "{\"alg\":"@ + encoding::json_string("ES256"@) + ",\"kid\":"@
                    + encoding::json_string(provider.spec_key_id()) + "}"@,
            ),
        ) + "."@ + encoding::base64url(
            vstd::utf8::encode_utf8(
                "{\"iss\":"@ + encoding::json_string(provider.spec_issuer()) + (if auds@.len()
                    == 0 {
                    Seq::<char>::empty()
                } else {
                    ",\"aud\":"@ + encoding::json_array(
                        Seq::new(auds@.len(), |i: int| auds@[i]@),
                    )
                }) + ",\"exp\":"@ + text::decimal(exp as nat) + ",\"iat\":"@ + text::decimal(
                    iat as nat,
                ) + "}"@,
            ),
        ),
{
    assert(texts(auds@) =~= Seq::new(auds@.len(), |i: int| auds@[i]@));
}

/// The token is what was signed, a full stop, and the signature of it in
/// Base64.
pub proof fn law_token_is_signed(
    provider: JwtTokenProvider,
    auds: &[&str],
    ttl: Duration,
    now: SystemTime,
    input: Result<String, AuthError>,
    token: Result<String, AuthError>,
)
    requires
        call_ensures(JwtTokenProvider::signing_input_at, (&provider, auds, ttl, now), input),
        call_ensures(JwtTokenProvider::create_token_at, (&provider, auds, ttl, now), token),
    ensures
        token matches Ok(t) ==> (input matches Ok(signed) && {
            let signature = keys::es256_signature(
                provider.secret(),
                vstd::utf8::encode_utf8(signed@),
            );
            signature matches Some(sig) && t@ == signed@ + "."@ + encoding::base64url(sig)
        }),
        input matches Ok(signed) ==> (token is Ok <==> keys::es256_signature(
            provider.secret(),
            vstd::utf8::encode_utf8(signed@),
        ) is Some),
        input is Err ==> token is Err,
{
}

/// An exported token is for exactly the audiences and the time that were asked
/// for, and is handed out with the point in time that lies so long after now.
pub proof fn law_exported_token_is_for_those_audiences(
    provider: JwtTokenProvider,
    auds: &[&str],
    ttl: Duration,
    minted_at: SystemTime,
    now: SystemTime,
    token: Result<String, AuthError>,
    res: Result<BearerToken, AuthError>,
    iat: int,
    exp: int,
)
    requires
        call_ensures(
            JwtTokenProvider::export_token_at,
            (&provider, auds, ttl, minted_at, now),
            res,
        ),
        call_ensures(JwtTokenProvider::create_token_at, (&provider, auds, ttl, minted_at), token),
        iat == minted_at@ / 1_000_000_000,
        exp == iat + ttl@ / 1_000_000_000,
    ensures
        res is Ok <==> token is Ok && now@ + ttl@ <= MAX_NANOS,
        res matches Ok(bearer) ==> {
            &&& token matches Ok(t) && t@ == bearer.token@
            &&& bearer.expires_at@ == now@ + ttl@
            &&& token_text(
                provider.secret(),
                header_text("ES256"@, provider.spec_key_id()),
                claims_text(
                    provider.spec_issuer(),
                    Seq::new(auds@.len(), |i: int| auds@[i]@),
                    exp as nat,
                    iat as nat,
                ),
            ) == Some(bearer.token@)
        },
        res matches Err(e) ==> e is Unspecified,
{
    assert(texts(auds@) =~= Seq::new(auds@.len(), |i: int| auds@[i]@));
}

/// Whatever the time at which it is minted, an exported token is for exactly
/// the audiences and the lifetime that were asked for, any number of them. It is
/// had if and only if that time is not before the epoch, the two expiries are
/// in range and the key signs.
pub proof fn law_export_names_all_audiences(
    provider: JwtTokenProvider,
    auds: Seq<Seq<char>>,
    ttl: Duration,
    minted_at: int,
    now: int,
    res: Result<BearerToken, AuthError>,
)
    requires
        provider.export_step(auds, ttl, minted_at, now, res),
    ensures
        ({
            let iat = minted_at / 1_000_000_000;
            let exp = iat + ttl@ / 1_000_000_000;
            let token = token_text(
                provider.secret(),
                header_text("ES256"@, provider.spec_key_id()),
                claims_text(provider.spec_issuer(), auds, exp as nat, iat as nat),
            );
            &&& res is Ok <==> {
                &&& minted_at >= 0
                &&& exp <= u64::MAX
                &&& now + ttl@ <= MAX_NANOS
                &&& token is Some
            }
            &&& res matches Ok(bearer) ==> token == Some(bearer.token@) && bearer.expires_at@ == now
                + ttl@
            &&& res matches Err(e) ==> e is Unspecified
        }),
{
}

/// A request for a token for one audience is answered with the one that is kept
/// for it where that is used beyond now, and then nothing is minted or changed.
/// Else one is minted for that audience alone, to be valid for ten minutes, and
/// kept until nine and a half minutes from now; where none can be minted,
/// nothing changes.
pub proof fn law_request_is_answered(
    provider: JwtTokenProvider,
    pre: Tokens,
    post: Tokens,
    aud: Seq<char>,
    now: int,
    minted_at: int,
    res: Result<String, AuthError>,
)
    requires
        provider.token_step(pre, post, aud, now, minted_at, res),
    ensures
        pre.contains_key(aud) && pre[aud].1 > now ==> {
            &&& post == pre
            &&& res matches Ok(t) && t@ == pre[aud].0
        },
        !(pre.contains_key(aud) && pre[aud].1 > now) ==> {
            let token = token_text(
                provider.secret(),
                header_text("ES256"@, provider.spec_key_id()),
                claims_text(
                    provider.spec_issuer(),
                    seq![aud],
                    (minted_at / 1_000_000_000 + 600) as nat,
                    (minted_at / 1_000_000_000) as nat,
                ),
            );
            &&& res is Ok <==> {
                &&& minted_at >= 0
                &&& minted_at / 1_000_000_000 + 600 <= u64::MAX
                &&& now + 600_000_000_000 <= MAX_NANOS
                &&& token is Some
            }
            &&& res matches Ok(t) ==> token == Some(t@) && post == pre.insert(
                aud,
                (t@, now + 570_000_000_000),
            )
            &&& res matches Err(e) ==> e is Unspecified && post == pre
        },
{
}

/// The key that is registered is the one that signs: its file is named after
/// the identifier that the tokens name, and holds one key of P-256 for ES256
/// signatures with the two coordinates of the public point. The tokens name the
/// issuer that was asked for, and the scheme names it and the directory. A
/// point that is not uncompressed is refused.
pub proof fn law_registered_key_is_the_signing_key(
    jwks_dir: PathBuf,
    issuer: String,
    signing_key: SigningKey,
    point: Vec<u8>,
    key_id: String,
    res: Result<(JwtTokenProvider, KeyRegistration), AuthError>,
)
    requires
        call_ensures(
            JwtTokenProvider::for_key,
            (jwks_dir, issuer, signing_key, &point, key_id),
            res,
        ),
    ensures
        res is Ok <==> point@.len() == 65 && point@[0] == 4,
        res matches Err(e) ==> e is FailedToGenerateKey,
        res matches Ok((provider, registration)) ==> {
            &&& provider.secret() == signing_key@
            &&& provider.spec_key_id() == key_id@
            &&& provider.spec_issuer() == issuer@
            &&& provider.scheme() matches AuthScheme::Jwt { issuer: i, jwks_dir: d } && i@
                == issuer@ && d == jwks_dir
            &&& registration.file_name@ == key_id@ + ".jwk"@
            &&& registration.jwks.keys@.len() == 1
            &&& registration.jwks.keys@[0].kid@ == key_id@
            &&& registration.jwks.keys@[0].kty@ == "EC"@
            &&& registration.jwks.keys@[0].crv@ == "P-256"@
            &&& registration.jwks.keys@[0].alg@ == "ES256"@
            &&& registration.jwks.keys@[0].use_@ == "sig"@
            &&& registration.jwks.keys@[0].key_ops@.len() == 1
            &&& registration.jwks.keys@[0].key_ops@[0]@ == "verify"@
            &&& registration.jwks.keys@[0].x@ == encoding::base64url(point@.subrange(1, 33))
            &&& registration.jwks.keys@[0].y@ == encoding::base64url(point@.subrange(33, 65))
        },
{
    if let Ok((provider, registration)) = res {
        let ops = registration.jwks.keys@[0].key_ops@;
        assert(text::views(ops).len() == ops.len());
        assert(text::views(ops)[0] == ops[0]@);
    }
}

/// A fresh provider signs with a valid key that was drawn at random, under an
/// identifier that was, and registers the public point of that key under that identifier.
pub proof fn law_fresh_key_is_registered(
    jwks_dir: PathBuf,
    issuer: String,
    res: Result<(JwtTokenProvider, KeyRegistration), AuthError>,
)
    requires
        call_ensures(JwtTokenProvider::new_and_register, (jwks_dir, issuer), res),
    ensures
        res matches Ok((provider, registration)) && {
            let point = keys::public_point(provider.secret());
            &&& keys::valid_secret(provider.secret())
            &&& keys::was_drawn(provider.secret())
            &&& keys::is_uuid_v4(provider.spec_key_id())
            &&& keys::id_was_drawn(provider.spec_key_id())
            &&& provider.spec_issuer() == issuer@
            &&& provider.scheme() matches AuthScheme::Jwt { issuer: i, jwks_dir: d } && i@
                == issuer@ && d == jwks_dir
            &&& registration.file_name@ == provider.spec_key_id() + ".jwk"@
            &&& registration.jwks.keys@.len() == 1
            &&& registration.jwks.keys@[0].kid@ == provider.spec_key_id()
            &&& registration.jwks.keys@[0].x@ == encoding::base64url(point.subrange(1, 33))
            &&& registration.jwks.keys@[0].y@ == encoding::base64url(point.subrange(33, 65))
        },
{
}

/// A key file is registered if and only if it was written; each way in which it
/// was not has an error of its own.
pub proof fn law_registered_once_written(event: RegistrationEvent, res: Result<(), AuthError>)
    requires
        call_ensures(KeyRegistration::registered, (event,), res),
    ensures
        res is Ok <==> event is Written,
        event matches RegistrationEvent::NoDirectory(e) ==> res == Err::<(), AuthError>(
            AuthError::FailedToCreateJwksDir(e),
        ),
        event is NotSerialized ==> res == Err::<(), AuthError>(AuthError::FailedToSerializeJwks),
        event matches RegistrationEvent::NotWritten(e) ==> res == Err::<(), AuthError>(
            AuthError::FailedToWriteJwksFile(e),
        ),
{
}

/// The wait for a key looks at the active keys as long as the time elapsed is
/// not above the timeout, and fails as soon as it is. It is over with a look
/// that finds the identifier of the key among them, wherever it stands, and
/// sleeps after any other.
pub proof fn law_key_is_awaited(
    provider: JwtTokenProvider,
    event: ActivationEvent,
    timeout: Duration,
    res: ActivationAction,
)
    requires
        call_ensures(JwtTokenProvider::wait_for_activation, (&provider, &event, timeout), res),
    ensures
        event matches ActivationEvent::Elapsed(elapsed) ==> {
            &&& elapsed@ > timeout@ ==> res == ActivationAction::Done(
                Err(AuthError::JwksRegistrationTimeout),
            )
            &&& elapsed@ <= timeout@ ==> res is ReadActiveKeys
        },
        event matches ActivationEvent::ActiveKeys(None) ==> res is Sleep,
        event matches ActivationEvent::ActiveKeys(Some(active)) ==> {
            let listed = exists|i: int|
                0 <= i < active.keys@.len() && (#[trigger] active.keys@[i]).kid@
                    == provider.spec_key_id();
            &&& listed ==> res == ActivationAction::Done(Ok(()))
            &&& !listed ==> res is Sleep
        },
        ACTIVATION_POLL_MILLIS == 100,
        ACTIVE_KEYS_FILE@ == "active.jwk"@,
{
}

/// A token of now is for exactly the audiences and the lifetime that were asked
/// for, and is minted at the time that the clock shows. It is had if and only
/// if that time is not before the epoch, the expiry is a number of 64 bits and
/// the key signs.
pub proof fn law_token_of_now_is_for_those_audiences(
    provider: JwtTokenProvider,
    auds: &[&str],
    ttl: Duration,
    res: Result<String, AuthError>,
) -> (now: int)
    requires
        call_ensures(JwtTokenProvider::create_token, (&provider, auds, ttl), res),
    ensures
        time::was_now(now),
        ({
            let iat = now / 1_000_000_000;
            let exp = iat + ttl@ / 1_000_000_000;
            let token = token_text(
                provider.secret(),
                header_text("ES256"@, provider.spec_key_id()),
                claims_text(
                    provider.spec_issuer(),
                    Seq::new(auds@.len(), |i: int| auds@[i]@),
                    exp as nat,
                    iat as nat,
                ),
            );
            &&& res is Ok <==> now >= 0 && exp <= u64::MAX && token is Some
            &&& res matches Ok(t) ==> token == Some(t@)
            &&& res matches Err(e) ==> e is Unspecified
        }),
{
    assert(texts(auds@) =~= Seq::new(auds@.len(), |i: int| auds@[i]@));
    choose|now: int|
        time::was_now(now) && is_token(
            res,
            #[trigger] provider.minted(texts(auds@), ttl.spec_secs(), now),
        )
}

/// A token is what was signed, a full stop and the signature in Base64; without
/// a signature there is none.
pub proof fn law_signature_is_appended(
    input: String,
    signature: Option<Vec<u8>>,
    res: Result<String, AuthError>,
)
    requires
        call_ensures(signed_token, (input, signature), res),
    ensures
        res is Ok <==> signature is Some,
        res matches Ok(t) ==> {
            &&& t@.take(input@.len() as int) == input@
            &&& t@[input@.len() as int] == '.'
            &&& t@.skip(input@.len() as int + 1) == encoding::base64url(signature->0@)
        },
        res matches Err(e) ==> e is Unspecified,
{
    reveal_strlit(".");
    if let Ok(t) = res {
        assert(t@.take(input@.len() as int) =~= input@);
        assert(t@.skip(input@.len() as int + 1) =~= encoding::base64url(signature->0@));
    }
}

/// A clone signs with the same key, under the same identifier, for the same
/// issuer and under the same scheme.
pub proof fn law_clone_is_the_same(provider: JwtTokenProvider, clone: JwtTokenProvider)
    requires
        call_ensures(JwtTokenProvider::clone, (&provider,), clone),
    ensures
        clone.secret() == provider.secret(),
        clone.spec_key_id() == provider.spec_key_id(),
        clone.spec_issuer() == provider.spec_issuer(),
        clone.scheme() == provider.scheme(),
{
}

} // verus!
