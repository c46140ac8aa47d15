//! Tokens: their text, their signature, their cache.

use android_emulator::auth::{AuthError, AuthScheme, TokenProvider};
use android_emulator::cache::{CachedToken, TokenCache};
use android_emulator::jwt::{
    signed_token, ActivationAction, ActivationEvent, Jwk, Jwks, JwtClaims, JwtHeader,
    JwtTokenProvider, KeyRegistration, RegistrationEvent, ACTIVE_KEYS_FILE,
};
use android_emulator::keys::SigningKey;
use android_emulator::time::{Duration, SystemTime};
use base64::Engine;
use p256::ecdsa::signature::Verifier;
use std::path::PathBuf;

fn at(secs: u64) -> SystemTime {
    SystemTime::after_epoch(Duration::from_secs(secs))
}

fn provider(key_id: &str, issuer: &str) -> (JwtTokenProvider, KeyRegistration, Vec<u8>) {
    let key = SigningKey::random();
    let point = key.encoded_point();
    let made = JwtTokenProvider::for_key(
        PathBuf::from("/jwks"),
        issuer.to_string(),
        key,
        &point,
        key_id.to_string(),
    );
    match made {
        Ok((provider, registration)) => (provider, registration, point),
        Err(e) => panic!("{}", e.message()),
    }
}

fn decode(part: &str) -> Vec<u8> {
    base64::engine::general_purpose::URL_SAFE_NO_PAD.decode(part).unwrap()
}

#[test]
fn header_is_json() {
    let header = JwtHeader { alg: "ES256".to_string(), kid: "k\"\\\n\u{1}é".to_string() };
    let text = header.to_json().unwrap();
    assert_eq!(text, "{\"alg\":\"ES256\",\"kid\":\"k\\\"\\\\\\n\\u0001é\"}");
    let value: serde_json::Value = serde_json::from_str(&text).unwrap();
    assert_eq!(value["kid"], "k\"\\\n\u{1}é");
}

#[test]
fn claims_are_json() {
    let claims = JwtClaims {
        iss: "tool".to_string(),
        aud: vec!["/a/b".to_string(), "/c/d".to_string()],
        exp: 700,
        iat: 100,
    };
    assert_eq!(
        claims.to_json().unwrap(),
        "{\"iss\":\"tool\",\"aud\":[\"/a/b\",\"/c/d\"],\"exp\":700,\"iat\":100}"
    );
}

#[test]
fn claims_without_audience_leave_it_out() {
    let claims = JwtClaims { iss: "tool".to_string(), aud: vec![], exp: u64::MAX, iat: 0 };
    assert_eq!(
        claims.to_json().unwrap(),
        "{\"iss\":\"tool\",\"exp\":18446744073709551615,\"iat\":0}"
    );
}

#[test]
fn every_character_is_escaped_as_serde_json_does() {
    let mut text = String::new();
    for n in (0..0x300u32).chain(0x2020..0x2030).chain(0x1f600..0x1f610) {
        text.push(char::from_u32(n).unwrap());
    }
    let header = JwtHeader { alg: String::new(), kid: text.clone() };
    let expected = format!("{{\"alg\":\"\",\"kid\":{}}}", serde_json::to_string(&text).unwrap());
    assert_eq!(header.to_json().unwrap(), expected);
}

#[test]
fn signing_input_is_header_and_claims() {
    let (p, _, _) = provider("kid-1", "test-tool");
    let input = p
        .signing_input_at(&["/svc/Method"], Duration::from_secs(300), at(1_700_000_000))
        .unwrap();
    let (h, c) = input.split_once('.').unwrap();
    assert_eq!(decode(h), b"{\"alg\":\"ES256\",\"kid\":\"kid-1\"}");
    assert_eq!(
        decode(c),
        b"{\"iss\":\"test-tool\",\"aud\":[\"/svc/Method\"],\"exp\":1700000300,\"iat\":1700000000}"
    );
    assert_eq!(h, "eyJhbGciOiJFUzI1NiIsImtpZCI6ImtpZC0xIn0");
}

#[test]
fn a_signature_makes_a_token() {
    let made = signed_token("aGk.eW8".to_string(), Some(vec![0xfb, 0xff, 0x00]));
    assert_eq!(made.unwrap(), "aGk.eW8.-_8A");
    let made = signed_token("aGk.eW8".to_string(), None);
    assert!(matches!(made, Err(AuthError::Unspecified)));
}

#[test]
fn tokens_verify_under_the_registered_key() {
    let (p, registration, point) = provider("kid-1", "test-tool");
    let token = p.create_token_at(&["/a/b"], Duration::from_secs(60), at(10)).unwrap();
    let parts: Vec<&str> = token.split('.').collect();
    assert_eq!(parts.len(), 3);
    let jwk = &registration.jwks.keys[0];
    let mut sec1 = vec![4u8];
    sec1.extend(decode(&jwk.x));
    sec1.extend(decode(&jwk.y));
    assert_eq!(sec1, point);
    let key = p256::ecdsa::VerifyingKey::from_sec1_bytes(&sec1).unwrap();
    let sig = decode(parts[2]);
    assert_eq!(sig.len(), 64);
    let sig = p256::ecdsa::Signature::from_slice(&sig).unwrap();
    let signed = format!("{}.{}", parts[0], parts[1]);
    assert!(key.verify(signed.as_bytes(), &sig).is_ok());
    assert!(key.verify(b"something else", &sig).is_err());
}

#[test]
fn signatures_are_deterministic() {
    let key = SigningKey::random();
    assert_eq!(key.sign(b"message"), key.sign(b"message"));
    assert_eq!(key.clone().sign(b"message"), key.sign(b"message"));
    assert_ne!(key.sign(b"message"), key.sign(b"massage"));
    assert_ne!(key.encoded_point(), SigningKey::random().encoded_point());
}

#[test]
fn tokens_are_not_minted_out_of_time() {
    let (p, _, _) = provider("k", "i");
    let before = SystemTime::before_epoch(Duration::new(0, 1));
    assert!(matches!(
        p.create_token_at(&[], Duration::from_secs(1), before),
        Err(AuthError::Unspecified)
    ));
    assert!(matches!(
        p.create_token_at(&[], Duration::from_secs(u64::MAX), at(1)),
        Err(AuthError::Unspecified)
    ));
    assert!(p.create_token_at(&[], Duration::from_secs(u64::MAX), at(0)).is_ok());
}

#[test]
fn tokens_of_now_carry_the_time() {
    let (p, _, _) = provider("k", "i");
    let token = p.create_token(&["/a/b"], Duration::from_secs(5)).unwrap();
    let claims: serde_json::Value =
        serde_json::from_slice(&decode(token.split('.').nth(1).unwrap())).unwrap();
    let iat = claims["iat"].as_u64().unwrap();
    assert_eq!(claims["exp"].as_u64().unwrap(), iat + 5);
    let now = SystemTime::now().since_epoch().unwrap().as_secs();
    assert!(iat <= now && now - iat < 60);
}

#[test]
fn the_cached_token_is_reused_until_thirty_seconds_before_expiry() {
    let mut tokens = TokenCache::new();
    let (p, _, _) = provider("k", "i");
    let first = p.token_for_aud_at(&mut tokens, "/a/b", at(1000), at(1000)).unwrap();
    let again = p.token_for_aud_at(&mut tokens, "/a/b", at(1569), at(1569)).unwrap();
    assert_eq!(first, again);
    let later = p.token_for_aud_at(&mut tokens, "/a/b", at(1570), at(1570)).unwrap();
    assert_ne!(first, later);
    let claims = decode(later.split('.').nth(1).unwrap());
    assert_eq!(claims, b"{\"iss\":\"i\",\"aud\":[\"/a/b\"],\"exp\":2170,\"iat\":1570}");
}

#[test]
fn a_clone_finds_what_the_provider_minted_later() {
    let mut tokens = TokenCache::new();
    let (p, _, _) = provider("k", "i");
    let clone = p.clone();
    let first = p.token_for_aud_at(&mut tokens, "/a/b", at(1000), at(1000)).unwrap();
    let again = clone.token_for_aud_at(&mut tokens, "/a/b", at(1569), at(1569)).unwrap();
    assert_eq!(again, first);
    let later = clone.token_for_aud_at(&mut tokens, "/a/b", at(1570), at(1570)).unwrap();
    assert_ne!(later, first);
    assert_eq!(p.token_for_aud_at(&mut tokens, "/a/b", at(2139), at(2139)).unwrap(), later);
}

#[test]
fn a_token_has_thirty_whole_seconds_left() {
    let mut tokens = TokenCache::new();
    let (p, _, _) = provider("k", "i");
    let asked = SystemTime::after_epoch(Duration::new(1000, 900_000_000));
    let first = p.token_for_aud_at(&mut tokens, "/a/b", asked, asked).unwrap();
    let claims = decode(first.split('.').nth(1).unwrap());
    assert_eq!(claims, b"{\"iss\":\"i\",\"aud\":[\"/a/b\"],\"exp\":1600,\"iat\":1000}");
    let last = SystemTime::after_epoch(Duration::new(1570, 899_999_999));
    assert_eq!(p.token_for_aud_at(&mut tokens, "/a/b", last, last).unwrap(), first);
    let over = SystemTime::after_epoch(Duration::new(1570, 900_000_000));
    assert_ne!(p.token_for_aud_at(&mut tokens, "/a/b", over, over).unwrap(), first);
}

#[test]
fn the_newest_token_of_an_audience_is_kept() {
    let mut cache = TokenCache::new();
    assert!(cache.get("a").is_none());
    for (aud, token, secs) in [("a", "1", 1), ("b", "2", 2), ("a", "3", 3), ("", "4", 4)] {
        cache.insert(CachedToken {
            aud: aud.to_string(),
            token: token.to_string(),
            expires_at: at(secs),
        });
    }
    for (aud, token, secs) in [("a", "3", 3), ("b", "2", 2), ("", "4", 4)] {
        let cached = cache.get(aud).unwrap();
        assert_eq!((cached.aud.as_str(), cached.token.as_str()), (aud, token));
        assert_eq!(cached.expires_at.since_epoch().unwrap().as_secs(), secs);
    }
    assert!(cache.get("c").is_none());
}

#[test]
fn each_audience_has_its_own_token() {
    let mut tokens = TokenCache::new();
    let (p, _, _) = provider("k", "i");
    let ab = p.token_for_aud_at(&mut tokens, "/a/b", at(1000), at(1000)).unwrap();
    let cd = p.token_for_aud_at(&mut tokens, "/c/d", at(1001), at(1001)).unwrap();
    assert_ne!(ab, cd);
    assert_eq!(p.token_for_aud_at(&mut tokens, "/a/b", at(1002), at(1002)).unwrap(), ab);
    assert_eq!(p.token_for_aud_at(&mut tokens, "/c/d", at(1002), at(1002)).unwrap(), cd);
}

#[test]
fn a_failure_leaves_the_cache() {
    let mut tokens = TokenCache::new();
    let (p, _, _) = provider("k", "i");
    let before = SystemTime::before_epoch(Duration::from_secs(1));
    assert!(p.token_for_aud_at(&mut tokens, "/a/b", before, before).is_err());
    let last = SystemTime::after_epoch(Duration::new(u64::MAX, 0));
    assert!(p.token_for_aud_at(&mut tokens, "/a/b", last, at(0)).is_err());
    let minted = p.token_for_aud_at(&mut tokens, "/a/b", at(5), at(5)).unwrap();
    assert_eq!(p.token_for_aud_at(&mut tokens, "/a/b", at(6), before).unwrap(), minted);
}

#[test]
fn tokens_of_now_are_cached_too() {
    let mut tokens = TokenCache::new();
    let (p, _, _) = provider("k", "i");
    let first = p.token_for_aud(&mut tokens, "/a/b").unwrap();
    assert_eq!(p.token_for_aud(&mut tokens, "/a/b").unwrap(), first);
}

#[test]
fn exported_tokens_carry_audiences_and_expiry() {
    let (p, _, _) = provider("k", "i");
    let aud = "/android.emulation.control.EmulatorController/getBattery";
    let bearer = p
        .export_token_at(&[aud], Duration::from_secs(300), at(1000), at(1001))
        .unwrap();
    assert_eq!(bearer.expires_at.since_epoch().unwrap().as_secs(), 1301);
    let claims = decode(bearer.token.split('.').nth(1).unwrap());
    assert_eq!(
        claims,
        format!("{{\"iss\":\"i\",\"aud\":[\"{aud}\"],\"exp\":1300,\"iat\":1000}}").as_bytes()
    );
    assert!(p
        .export_token_at(&[], Duration::from_secs(u64::MAX), at(0), at(2))
        .is_err());
    assert!(p.export_token(&[aud], Duration::from_secs(300)).is_ok());
}

#[test]
fn new_providers_have_keys_of_their_own() {
    let (a, ra) = JwtTokenProvider::new_and_register(PathBuf::from("/d"), "i".to_string()).unwrap();
    let (_, rb) = JwtTokenProvider::new_and_register(PathBuf::from("/d"), "i".to_string()).unwrap();
    assert_ne!(ra.file_name, rb.file_name);
    assert_ne!(ra.jwks.keys[0].x, rb.jwks.keys[0].x);
    let jwk = &ra.jwks.keys[0];
    assert_eq!(ra.file_name, format!("{}.jwk", jwk.kid));
    assert_eq!(jwk.kid.len(), 36);
    assert_eq!(&jwk.kid[14..15], "4");
    assert_eq!((jwk.kty.as_str(), jwk.crv.as_str()), ("EC", "P-256"));
    assert_eq!((jwk.use_.as_str(), jwk.alg.as_str()), ("sig", "ES256"));
    assert_eq!(jwk.key_ops, vec!["verify".to_string()]);
    assert_eq!((jwk.x.len(), jwk.y.len()), (43, 43));
    assert_eq!(decode(&jwk.x).len(), 32);
    assert_eq!(decode(&jwk.y).len(), 32);
    match a.auth_scheme() {
        AuthScheme::Jwt { issuer, jwks_dir } => {
            assert_eq!(issuer, "i");
            assert_eq!(jwks_dir, &PathBuf::from("/d"));
        }
        _ => panic!("not a JWT provider"),
    }
}

#[test]
fn points_that_are_not_uncompressed_are_refused() {
    for point in [vec![], vec![2u8; 33], vec![4u8; 64], vec![5u8; 65]] {
        let made = JwtTokenProvider::for_key(
            PathBuf::from("/d"),
            "i".to_string(),
            SigningKey::random(),
            &point,
            "k".to_string(),
        );
        assert!(matches!(made, Err(AuthError::FailedToGenerateKey)));
    }
}

fn jwk(kid: &str) -> Jwk {
    let s = String::new;
    Jwk {
        kty: s(),
        crv: s(),
        x: s(),
        y: s(),
        kid: kid.to_string(),
        use_: s(),
        alg: s(),
        key_ops: vec![],
    }
}

#[test]
fn activation_is_awaited() {
    let (p, registration, _) = provider("kid-1", "i");
    let limit = Duration::from_secs(10);
    let step = |event: ActivationEvent| p.wait_for_activation(&event, limit);
    assert!(matches!(
        step(ActivationEvent::Elapsed(Duration::from_secs(10))),
        ActivationAction::ReadActiveKeys
    ));
    assert!(matches!(
        step(ActivationEvent::Elapsed(Duration::new(10, 1))),
        ActivationAction::Done(Err(AuthError::JwksRegistrationTimeout))
    ));
    assert!(matches!(step(ActivationEvent::ActiveKeys(None)), ActivationAction::Sleep));
    let others = Jwks { keys: vec![jwk("kid-0"), jwk("kid-2")] };
    assert!(matches!(
        step(ActivationEvent::ActiveKeys(Some(others))),
        ActivationAction::Sleep
    ));
    let ours = Jwks { keys: vec![jwk("kid-0"), jwk("kid-1")] };
    assert!(matches!(
        step(ActivationEvent::ActiveKeys(Some(ours))),
        ActivationAction::Done(Ok(()))
    ));
    assert!(matches!(
        step(ActivationEvent::ActiveKeys(Some(registration.jwks))),
        ActivationAction::Done(Ok(()))
    ));
    assert_eq!(ACTIVE_KEYS_FILE, "active.jwk");
}

#[test]
fn registration_fails_where_a_step_fails() {
    let e = || "full".to_string();
    assert!(matches!(
        KeyRegistration::registered(RegistrationEvent::NoDirectory(e())),
        Err(AuthError::FailedToCreateJwksDir(m)) if m == "full"
    ));
    assert!(matches!(
        KeyRegistration::registered(RegistrationEvent::NotSerialized),
        Err(AuthError::FailedToSerializeJwks)
    ));
    assert!(matches!(
        KeyRegistration::registered(RegistrationEvent::NotWritten(e())),
        Err(AuthError::FailedToWriteJwksFile(m)) if m == "full"
    ));
    assert!(KeyRegistration::registered(RegistrationEvent::Written).is_ok());
}
