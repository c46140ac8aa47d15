//! Providers and the headers of requests.

use android_emulator::auth::{
    authorization, AuthError, AuthProvider, AuthScheme, BearerTokenProvider, CallError,
    GrpcAllowlist, NoOpTokenProvider, Provider, TokenProvider,
};
use android_emulator::cache::TokenCache;
use android_emulator::time::Duration;
use base64::Engine;
use std::path::PathBuf;

const CONTROLLER: &str = "android.emulation.control.EmulatorController";

#[test]
fn no_auth_adds_no_header() {
    let mut tokens = TokenCache::new();
    let auth = AuthProvider::new_no_auth();
    assert!(matches!(auth.auth_scheme(), AuthScheme::NoAuth));
    assert!(matches!(auth.call(&mut tokens, "svc", "Method"), Ok(None)));
    assert_eq!(NoOpTokenProvider.token_for_aud(&mut tokens, "/a").unwrap(), "");
}

#[test]
fn bearer_adds_its_token() {
    let mut tokens = TokenCache::new();
    let auth = AuthProvider::new_bearer("abc".to_string());
    assert!(matches!(auth.auth_scheme(), AuthScheme::Bearer));
    assert_eq!(auth.call(&mut tokens, "svc", "Method").unwrap(), Some(b"Bearer abc".to_vec()));
    assert_eq!(auth.token_for_aud(&mut tokens, "/x").unwrap(), "abc");
    let clone = auth.clone();
    assert_eq!(clone.token_for_aud(&mut tokens, "/x").unwrap(), "abc");
    let p = BearerTokenProvider::new("t".to_string());
    assert_eq!(p.token_for_aud(&mut tokens, "/x").unwrap(), "t");
}

#[test]
fn an_empty_token_adds_no_header() {
    let mut tokens = TokenCache::new();
    let auth = AuthProvider::new_bearer(String::new());
    assert!(matches!(auth.call(&mut tokens, "svc", "Method"), Ok(None)));
}

#[test]
fn jwt_adds_a_token_for_the_method() {
    let mut tokens = TokenCache::new();
    let (auth, registration) =
        AuthProvider::new_jwt(PathBuf::from("/jwks"), "test-tool".to_string()).unwrap();
    let header = auth.call(&mut tokens, CONTROLLER, "getStatus");
    let header = String::from_utf8(header.unwrap().unwrap()).unwrap();
    let token = header.strip_prefix("Bearer ").unwrap();
    let claims = base64::engine::general_purpose::URL_SAFE_NO_PAD
        .decode(token.split('.').nth(1).unwrap())
        .unwrap();
    let claims: serde_json::Value = serde_json::from_slice(&claims).unwrap();
    assert_eq!(claims["iss"], "test-tool");
    assert_eq!(claims["aud"][0], "/android.emulation.control.EmulatorController/getStatus");
    assert_eq!(claims["exp"].as_u64().unwrap(), claims["iat"].as_u64().unwrap() + 600);
    assert_eq!(registration.jwks.keys.len(), 1);
    match auth.auth_scheme() {
        AuthScheme::Jwt { issuer, jwks_dir } => {
            assert_eq!(issuer, "test-tool");
            assert_eq!(jwks_dir, &PathBuf::from("/jwks"));
        }
        _ => panic!("not a JWT provider"),
    }
    let again = auth.call(&mut tokens, CONTROLLER, "getStatus");
    assert_eq!(again.unwrap().unwrap(), header.into_bytes());
}

#[test]
fn a_clone_shares_the_tokens() {
    let mut tokens = TokenCache::new();
    let (auth, _) = AuthProvider::new_jwt(PathBuf::from("/jwks"), "i".to_string()).unwrap();
    let clone = auth.clone();
    let ab = auth.token_for_aud(&mut tokens, "/a/b").unwrap();
    assert_eq!(clone.token_for_aud(&mut tokens, "/a/b").unwrap(), ab);
    let cd = clone.token_for_aud(&mut tokens, "/c/d").unwrap();
    assert_eq!(auth.token_for_aud(&mut tokens, "/c/d").unwrap(), cd);
    assert_ne!(ab, cd);
}

#[test]
fn a_clone_signs_with_the_same_key() {
    let mut tokens = TokenCache::new();
    let (auth, _) = AuthProvider::new_jwt(PathBuf::from("/jwks"), "i".to_string()).unwrap();
    let clone = auth.clone();
    let a = auth.export_token(&["/a/b"], Duration::from_secs(60)).unwrap().token;
    let b = clone.token_for_aud(&mut tokens, "/a/b").unwrap();
    assert_eq!(a.split('.').next(), b.split('.').next());
    match (auth.auth_scheme(), clone.auth_scheme()) {
        (
            AuthScheme::Jwt { issuer: i, jwks_dir: d },
            AuthScheme::Jwt { issuer: j, jwks_dir: e },
        ) => assert_eq!((i, d), (j, e)),
        _ => panic!("not JWT providers"),
    }
}

#[test]
fn only_jwt_exports_tokens() {
    for auth in [AuthProvider::new_no_auth(), AuthProvider::new_bearer("t".to_string())] {
        match auth.export_token(&["/a/b"], Duration::from_secs(1)) {
            Err(AuthError::Unsupported(what)) => assert_eq!(what, "export_token"),
            _ => panic!("exported"),
        }
    }
}

#[test]
fn failures_become_statuses() {
    match authorization(Err(AuthError::Unspecified)) {
        Err(CallError::Unauthenticated(m)) => {
            assert_eq!(m, "Token error: Unspecified signing error")
        }
        _ => panic!("not refused"),
    }
    for bad in ["a\nb", "\u{7f}", "\u{1}"] {
        match authorization(Ok(bad.to_string())) {
            Err(CallError::Internal(m)) => assert_eq!(m, "Invalid auth metadata"),
            _ => panic!("not refused"),
        }
    }
}

#[test]
fn tabs_and_other_characters_can_be_sent() {
    assert_eq!(authorization(Ok("a\tb".to_string())).unwrap(), Some(b"Bearer a\tb".to_vec()));
    assert_eq!(
        authorization(Ok("ü~ ".to_string())).unwrap(),
        Some("Bearer ü~ ".as_bytes().to_vec())
    );
}

#[test]
fn headers_are_accepted_as_tonic_accepts_them() {
    for n in 0..0x180u32 {
        let token = format!("x{}", char::from_u32(n).unwrap());
        let value: Result<tonic::metadata::MetadataValue<tonic::metadata::Ascii>, _> =
            format!("Bearer {token}").parse();
        assert_eq!(authorization(Ok(token)).is_ok(), value.is_ok());
    }
}

#[test]
fn given_providers_are_used() {
    let mut tokens = TokenCache::new();
    let p = Provider::Bearer(BearerTokenProvider::new("z".to_string()));
    let auth = AuthProvider::new_with_token_provider(p);
    assert_eq!(auth.token_for_aud(&mut tokens, "").unwrap(), "z");
}

#[test]
fn the_default_allowlist_has_two_issuers() {
    let list = GrpcAllowlist::default_for_issuer("mytool");
    assert!(list.unprotected.is_empty());
    let issuers: Vec<&str> = list.allowlist.iter().map(|e| e.iss.as_str()).collect();
    assert_eq!(issuers, ["android-studio", "mytool"]);
    for entry in &list.allowlist {
        assert_eq!(
            entry.allowed,
            [
                "/android.emulation.control.EmulatorController/.*",
                "/android.emulation.control.UiController/.*",
                "/android.emulation.control.SnapshotService/.*",
                "/android.emulation.control.incubating.*",
            ]
        );
        assert!(entry.protected.is_empty());
    }
    assert_eq!(GrpcAllowlist::default_for_issuer("android-studio").allowlist.len(), 2);
}

#[test]
fn an_exported_token_can_be_handed_on() {
    let mut tokens = TokenCache::new();
    let (auth, _) = AuthProvider::new_jwt(PathBuf::from("/jwks"), "test-tool".to_string()).unwrap();
    let aud = "/android.emulation.control.EmulatorController/getBattery";
    let exported = auth.export_token(&[aud], Duration::from_secs(300)).unwrap();
    let limited = AuthProvider::new_bearer(exported.token.clone());
    let header = limited.call(&mut tokens, CONTROLLER, "getBattery");
    assert_eq!(header.unwrap().unwrap(), format!("Bearer {}", exported.token).into_bytes());
    let header = limited.call(&mut tokens, CONTROLLER, "getGps");
    assert_eq!(header.unwrap().unwrap(), format!("Bearer {}", exported.token).into_bytes());
    let claims = base64::engine::general_purpose::URL_SAFE_NO_PAD
        .decode(exported.token.split('.').nth(1).unwrap())
        .unwrap();
    let claims: serde_json::Value = serde_json::from_slice(&claims).unwrap();
    assert_eq!(claims["aud"].as_array().unwrap().len(), 1);
    assert_eq!(claims["aud"][0], aud);
    assert_eq!(claims["exp"].as_u64().unwrap(), claims["iat"].as_u64().unwrap() + 300);
}
