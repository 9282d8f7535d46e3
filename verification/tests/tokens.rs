use std::time::{SystemTime, UNIX_EPOCH};

use base64::Engine;
use iap_auth::cache::{GroupCache, GroupsStep};
use iap_auth::groups::DirectoryReply;
use iap_auth::iap_verification::{iap_verify, validate_iap_header, GuardStep, HeaderStep, UNAUTHORIZED};
use iap_auth::jwt::{
    assemble_claims, claims_from, finish, iap_rules, judge_claims, same_text, ParseStep, Parser,
    ParserError, SignatureAlgorithm, TokenFault,
};
use iap_auth::key_provider::{GoogleKey, GoogleKeyProviderError, GoogleKeys, KeyFetch};
use iap_auth::models::{EntityKey, GroupRelation, SearchTransitiveGroupsResponse, TokenClaims};
use ring::signature::KeyPair;

const ISSUER: &str = "https://cloud.google.com/iap";

struct Signer {
    pkcs8: Vec<u8>,
    x: String,
    y: String,
}

fn signer() -> Signer {
    let rng = ring::rand::SystemRandom::new();
    let alg = &ring::signature::ECDSA_P256_SHA256_FIXED_SIGNING;
    let document = ring::signature::EcdsaKeyPair::generate_pkcs8(alg, &rng).unwrap();
    let pair = ring::signature::EcdsaKeyPair::from_pkcs8(alg, document.as_ref()).unwrap();
    let point = pair.public_key().as_ref().to_vec();
    let engine = base64::engine::general_purpose::URL_SAFE_NO_PAD;
    Signer {
        pkcs8: document.as_ref().to_vec(),
        x: engine.encode(&point[1..33]),
        y: engine.encode(&point[33..65]),
    }
}

fn now() -> u64 {
    SystemTime::now().duration_since(UNIX_EPOCH).unwrap().as_secs()
}

fn claims(email: Option<&str>, iss: &str, exp: u64) -> serde_json::Value {
    let mut map = serde_json::Map::new();
    if let Some(email) = email {
        map.insert("email".to_string(), serde_json::Value::from(email));
    }
    map.insert("aud".to_string(), serde_json::Value::from("/projects/1/apps/demo"));
    map.insert("iss".to_string(), serde_json::Value::from(iss));
    map.insert("exp".to_string(), serde_json::Value::from(exp));
    serde_json::Value::Object(map)
}

fn sign(signer: &Signer, kid: Option<&str>, claims: &serde_json::Value) -> String {
    let mut header = jsonwebtoken::Header::new(jsonwebtoken::Algorithm::ES256);
    header.kid = kid.map(|k| k.to_string());
    let key = jsonwebtoken::EncodingKey::from_ec_der(&signer.pkcs8);
    jsonwebtoken::encode(&header, claims, &key).unwrap()
}

fn published(signer: &Signer, kid: &str) -> KeyFetch {
    KeyFetch::Received {
        cache_control: vec!["public, max-age=3600".to_string()],
        keys: GoogleKeys {
            keys: vec![GoogleKey::new(kid.to_string(), signer.x.clone(), signer.y.clone())],
        },
    }
}

fn parser_with(signer: &Signer, kid: &str, at: u64) -> Parser {
    let mut parser = Parser::new();
    let warm = sign(signer, Some(kid), &claims(Some("warm@org.example"), ISSUER, at + 600));
    assert!(matches!(parser.parse(&warm, at, None), ParseStep::Fetch));
    assert!(matches!(parser.parse(&warm, at, Some(published(signer, kid))), ParseStep::Done(Ok(_))));
    parser
}

fn outcome(step: ParseStep) -> Result<TokenClaims, ParserError> {
    match step {
        ParseStep::Done(r) => r,
        ParseStep::Fetch => panic!("the verifier asked for a fetch"),
    }
}

#[test]
fn the_issuer_address_is_fixed() {
    assert_eq!(Parser::GOOGLE_CERT_URL, "https://www.gstatic.com/iap/verify/public_key-jwk");
    assert_eq!(Parser::new().key_provider().url(), "https://www.gstatic.com/iap/verify/public_key-jwk");
    assert_eq!(Parser::new_with_custom_url("https://keys.example").key_provider().url(), "https://keys.example");
}

#[test]
fn the_rules_are_those_of_the_proxy() {
    let rules = iap_rules();
    assert_eq!(rules.algorithm, SignatureAlgorithm::ES256);
    assert_eq!(rules.issuer, ISSUER);
    assert!(rules.validate_exp);
    assert!(!rules.validate_nbf);
}

#[test]
fn a_valid_token_gives_its_email() {
    let signer = signer();
    let at = now();
    let mut parser = parser_with(&signer, "k1", at);
    let token = sign(&signer, Some("k1"), &claims(Some("alice@org.example"), ISSUER, at + 600));
    let claims = outcome(parser.parse(&token, at, None)).unwrap();
    assert_eq!(claims.email, "alice@org.example");
    assert_eq!(claims.aud, "/projects/1/apps/demo");
    assert_eq!(claims.iss, ISSUER);
    assert_eq!(claims.exp, at + 600);
}

#[test]
fn an_expired_token_is_refused_as_expired() {
    let signer = signer();
    let at = now();
    let mut parser = parser_with(&signer, "k1", at);
    let token = sign(&signer, Some("k1"), &claims(Some("alice@org.example"), ISSUER, at - 3600));
    let r = outcome(parser.parse(&token, at, None));
    assert!(matches!(r, Err(ParserError::WrongToken(TokenFault::ExpiredSignature))));
}

#[test]
fn a_token_that_expired_a_moment_ago_is_refused_too() {
    let signer = signer();
    let at = now();
    let mut parser = parser_with(&signer, "k1", at);
    let token = sign(&signer, Some("k1"), &claims(Some("alice@org.example"), ISSUER, at - 5));
    let r = outcome(parser.parse(&token, at, None));
    assert!(matches!(r, Err(ParserError::WrongToken(TokenFault::ExpiredSignature))));
    let token = sign(&signer, Some("k1"), &claims(Some("alice@org.example"), ISSUER, at));
    let r = outcome(parser.parse(&token, at, None));
    assert!(matches!(r, Err(ParserError::WrongToken(TokenFault::ExpiredSignature))));
}

#[test]
fn a_token_of_another_issuer_is_refused() {
    let signer = signer();
    let at = now();
    let mut parser = parser_with(&signer, "k1", at);
    let token = sign(&signer, Some("k1"), &claims(Some("alice@org.example"), "https://evil.example", at + 600));
    let r = outcome(parser.parse(&token, at, None));
    assert!(matches!(r, Err(ParserError::WrongToken(TokenFault::InvalidIssuer))));
}

#[test]
fn a_token_signed_by_another_key_is_refused() {
    let signer = signer();
    let forger = self::signer();
    let at = now();
    let mut parser = parser_with(&signer, "k1", at);
    let token = sign(&forger, Some("k1"), &claims(Some("alice@org.example"), ISSUER, at + 600));
    let r = outcome(parser.parse(&token, at, None));
    assert!(matches!(r, Err(ParserError::WrongToken(TokenFault::InvalidSignature))));
}

#[test]
fn a_token_of_an_unknown_key_is_refused() {
    let signer = signer();
    let at = now();
    let mut parser = parser_with(&signer, "k1", at);
    let token = sign(&signer, Some("k2"), &claims(Some("alice@org.example"), ISSUER, at + 600));
    let r = outcome(parser.parse(&token, at, None));
    assert!(matches!(r, Err(ParserError::KeyProvider(GoogleKeyProviderError::KeyNotFound))));
}

#[test]
fn a_token_without_key_identifier_is_refused() {
    let signer = signer();
    let at = now();
    let mut parser = Parser::new();
    let token = sign(&signer, None, &claims(Some("alice@org.example"), ISSUER, at + 600));
    let r = outcome(parser.parse(&token, at, None));
    assert!(matches!(r, Err(ParserError::UnknownKid)));
}

#[test]
fn text_that_is_no_token_is_refused() {
    let mut parser = Parser::new();
    assert!(matches!(outcome(parser.parse("not a token", 0, None)), Err(ParserError::WrongHeader)));
    assert!(matches!(outcome(parser.parse("", 0, None)), Err(ParserError::WrongHeader)));
    assert!(matches!(outcome(parser.parse("a.b.c", 0, None)), Err(ParserError::WrongHeader)));
}

#[test]
fn a_token_without_email_is_refused() {
    let signer = signer();
    let at = now();
    let mut parser = parser_with(&signer, "k1", at);
    let token = sign(&signer, Some("k1"), &claims(None, ISSUER, at + 600));
    let r = outcome(parser.parse(&token, at, None));
    assert!(matches!(r, Err(ParserError::WrongToken(TokenFault::MissingClaim))));
}

#[test]
fn a_failed_key_fetch_refuses_the_token() {
    let signer = signer();
    let at = now();
    let mut parser = Parser::new();
    let token = sign(&signer, Some("k1"), &claims(Some("alice@org.example"), ISSUER, at + 600));
    assert!(matches!(parser.parse(&token, at, None), ParseStep::Fetch));
    let r = outcome(parser.parse(&token, at, Some(KeyFetch::Unreachable("down".to_string()))));
    assert!(matches!(r, Err(ParserError::KeyProvider(GoogleKeyProviderError::FetchError(why))) if why == "down"));
    assert!(matches!(parser.parse(&token, at, None), ParseStep::Fetch));
}

#[test]
fn stale_keys_are_fetched_again() {
    let signer = signer();
    let at = now();
    let mut parser = parser_with(&signer, "k1", at);
    let token = sign(&signer, Some("k1"), &claims(Some("alice@org.example"), ISSUER, at + 7200));
    assert!(matches!(parser.parse(&token, at + 3600, None), ParseStep::Done(_)));
    assert!(matches!(parser.parse(&token, at + 3601, None), ParseStep::Fetch));
}

#[test]
fn claims_need_all_four() {
    let all = assemble_claims(Some("e".to_string()), Some("a".to_string()), Some("i".to_string()), Some(7)).unwrap();
    assert_eq!(all.email, "e");
    assert_eq!(all.aud, "a");
    assert_eq!(all.iss, "i");
    assert_eq!(all.exp, 7);
    assert!(assemble_claims(None, Some("a".to_string()), Some("i".to_string()), Some(7)).is_none());
    assert!(assemble_claims(Some("e".to_string()), None, Some("i".to_string()), Some(7)).is_none());
    assert!(assemble_claims(Some("e".to_string()), Some("a".to_string()), None, Some(7)).is_none());
    assert!(assemble_claims(Some("e".to_string()), Some("a".to_string()), Some("i".to_string()), None).is_none());
}

#[test]
fn claims_are_read_from_json_members() {
    let read = claims_from(&claims(Some("alice@org.example"), ISSUER, 42)).unwrap();
    assert_eq!(read.email, "alice@org.example");
    assert_eq!(read.aud, "/projects/1/apps/demo");
    assert_eq!(read.iss, ISSUER);
    assert_eq!(read.exp, 42);
    assert!(claims_from(&claims(None, ISSUER, 42)).is_none());
    assert!(claims_from(&serde_json::Value::from("alice@org.example")).is_none());
    let mut map = serde_json::Map::new();
    map.insert("email".to_string(), serde_json::Value::from(1));
    map.insert("aud".to_string(), serde_json::Value::from("a"));
    map.insert("iss".to_string(), serde_json::Value::from("i"));
    map.insert("exp".to_string(), serde_json::Value::from("soon"));
    assert!(claims_from(&serde_json::Value::Object(map)).is_none());
}

#[test]
fn claims_are_judged_by_expiry_then_issuer() {
    let make = |iss: &str, exp: u64| TokenClaims {
        email: "alice@org.example".to_string(),
        aud: "a".to_string(),
        iss: iss.to_string(),
        exp,
    };
    assert!(matches!(judge_claims(make(ISSUER, 101), ISSUER, 100), Ok(c) if c.email == "alice@org.example" && c.exp == 101));
    assert!(matches!(judge_claims(make(ISSUER, 100), ISSUER, 100), Err(ParserError::WrongToken(TokenFault::ExpiredSignature))));
    assert!(matches!(judge_claims(make("other", 101), ISSUER, 100), Err(ParserError::WrongToken(TokenFault::InvalidIssuer))));
    assert!(matches!(judge_claims(make("other", 99), ISSUER, 100), Err(ParserError::WrongToken(TokenFault::ExpiredSignature))));
}

#[test]
fn a_decoding_fault_stays_the_fault() {
    assert!(matches!(finish(Err(TokenFault::InvalidSignature), ISSUER, 100), Err(ParserError::WrongToken(TokenFault::InvalidSignature))));
    assert!(matches!(finish(Err(TokenFault::Other), ISSUER, 100), Err(ParserError::WrongToken(TokenFault::Other))));
    assert!(matches!(finish(Ok(claims(Some("a@org.example"), ISSUER, 101)), ISSUER, 100), Ok(c) if c.email == "a@org.example"));
    assert!(matches!(finish(Ok(claims(Some("a@org.example"), ISSUER, 100)), ISSUER, 100), Err(ParserError::WrongToken(TokenFault::ExpiredSignature))));
    assert!(matches!(finish(Ok(claims(None, ISSUER, 101)), ISSUER, 100), Err(ParserError::WrongToken(TokenFault::MissingClaim))));
}

#[test]
fn same_text_compares_whole_texts() {
    assert!(same_text("abc", "abc"));
    assert!(same_text("", ""));
    assert!(!same_text("abc", "abd"));
    assert!(!same_text("abc", "ab"));
}

#[test]
fn a_request_without_assertion_is_unauthorized() {
    let mut parser = Parser::new();
    assert_eq!(UNAUTHORIZED, 401);
    assert!(matches!(iap_verify(&mut parser, None, 0, None), GuardStep::Reject { status: 401, reason: None }));
}

#[test]
fn a_request_with_an_expired_assertion_is_unauthorized() {
    let signer = signer();
    let at = now();
    let mut parser = parser_with(&signer, "k1", at);
    let token = sign(&signer, Some("k1"), &claims(Some("alice@org.example"), ISSUER, at - 3600));
    let step = iap_verify(&mut parser, Some(&token), at, None);
    assert!(matches!(
        step,
        GuardStep::Reject { status: 401, reason: Some(ParserError::WrongToken(TokenFault::ExpiredSignature)) }
    ));
}

#[test]
fn a_request_with_a_garbled_assertion_is_unauthorized() {
    let mut parser = Parser::new();
    let step = iap_verify(&mut parser, Some("garbled"), 0, None);
    assert!(matches!(step, GuardStep::Reject { status: 401, reason: Some(ParserError::WrongHeader) }));
}

#[test]
fn the_header_is_trimmed_before_it_is_verified() {
    let signer = signer();
    let at = now();
    let mut parser = parser_with(&signer, "k1", at);
    let token = sign(&signer, Some("k1"), &claims(Some("alice@org.example"), ISSUER, at + 600));
    let padded = format!("  {}\t\n", token);
    match validate_iap_header(&mut parser, &padded, at, None) {
        HeaderStep::Done(Ok(context)) => {
            assert_eq!(context.email, "alice@org.example");
            assert!(context.verified);
        }
        _ => panic!("the padded header was not accepted"),
    }
}

#[test]
fn the_guard_asks_for_keys_before_it_decides() {
    let signer = signer();
    let at = now();
    let mut parser = Parser::new();
    let token = sign(&signer, Some("k1"), &claims(Some("alice@org.example"), ISSUER, at + 600));
    assert!(matches!(iap_verify(&mut parser, Some(&token), at, None), GuardStep::Fetch));
    let step = iap_verify(&mut parser, Some(&token), at, Some(published(&signer, "k1")));
    assert!(matches!(step, GuardStep::Proceed(context) if context.email == "alice@org.example" && context.verified));
}

#[test]
fn a_verified_caller_gets_their_groups_and_the_directory_is_asked_once() {
    let signer = signer();
    let at = now();
    let mut parser = parser_with(&signer, "k1", at);
    let mut cache = GroupCache::new(60);
    let mut directory_calls = 0;
    let token = sign(&signer, Some("k1"), &claims(Some("alice@org.example"), ISSUER, at + 600));
    for moment in [at, at + 1] {
        let context = match iap_verify(&mut parser, Some(&token), moment, None) {
            GuardStep::Proceed(context) => context,
            _ => panic!("the request was not let through"),
        };
        assert_eq!(context.email, "alice@org.example");
        let mut step = cache.get_groups(&context.email, moment, None, "org.example");
        if matches!(step, GroupsStep::Fetch) {
            directory_calls += 1;
            let reply = DirectoryReply::Memberships(SearchTransitiveGroupsResponse {
                memberships: vec![GroupRelation {
                    group_key: EntityKey { id: "board-commissie@org.example".to_string() },
                    display_name: "Board".to_string(),
                }],
            });
            step = cache.get_groups(&context.email, moment, Some(reply), "org.example");
        }
        match step {
            GroupsStep::Done { groups, failure } => {
                assert_eq!(groups.len(), 1);
                assert_eq!(groups[0].slug, "board");
                assert_eq!(failure, None);
            }
            GroupsStep::Fetch => panic!("the cache asked twice"),
        }
    }
    assert_eq!(directory_calls, 1);
}

#[test]
fn a_token_of_another_scheme_is_refused() {
    let signer = signer();
    let at = now();
    let mut parser = parser_with(&signer, "k1", at);
    let mut header = jsonwebtoken::Header::new(jsonwebtoken::Algorithm::HS256);
    header.kid = Some("k1".to_string());
    let key = jsonwebtoken::EncodingKey::from_secret(b"shared");
    let token =
        jsonwebtoken::encode(&header, &claims(Some("alice@org.example"), ISSUER, at + 600), &key).unwrap();
    let r = outcome(parser.parse(&token, at, None));
    assert!(matches!(r, Err(ParserError::WrongToken(TokenFault::Other))));
}

#[test]
fn a_token_without_expiry_is_refused() {
    let signer = signer();
    let at = now();
    let mut parser = parser_with(&signer, "k1", at);
    let mut map = serde_json::Map::new();
    map.insert("email".to_string(), serde_json::Value::from("alice@org.example"));
    map.insert("aud".to_string(), serde_json::Value::from("a"));
    map.insert("iss".to_string(), serde_json::Value::from(ISSUER));
    let token = sign(&signer, Some("k1"), &serde_json::Value::Object(map));
    let r = outcome(parser.parse(&token, at, None));
    assert!(matches!(r, Err(ParserError::WrongToken(TokenFault::MissingClaim))));
}

#[test]
fn a_token_with_a_not_before_in_the_future_is_accepted() {
    let signer = signer();
    let at = now();
    let mut parser = parser_with(&signer, "k1", at);
    let mut body = claims(Some("alice@org.example"), ISSUER, at + 600);
    body.as_object_mut().unwrap().insert("nbf".to_string(), serde_json::Value::from(at + 300));
    let token = sign(&signer, Some("k1"), &body);
    let read = outcome(parser.parse(&token, at, None)).unwrap();
    assert_eq!(read.email, "alice@org.example");
}

#[test]
fn a_token_is_checked_against_the_key_that_it_names() {
    let first = signer();
    let second = signer();
    let at = now();
    let mut parser = Parser::new();
    let published = KeyFetch::Received {
        cache_control: vec!["max-age=3600".to_string()],
        keys: GoogleKeys {
            keys: vec![
                GoogleKey::new("k1".to_string(), first.x.clone(), first.y.clone()),
                GoogleKey::new("k2".to_string(), second.x.clone(), second.y.clone()),
            ],
        },
    };
    let body = claims(Some("alice@org.example"), ISSUER, at + 600);
    let own = sign(&first, Some("k1"), &body);
    assert!(matches!(parser.parse(&own, at, Some(published)), ParseStep::Done(Ok(c)) if c.email == "alice@org.example"));
    let other = sign(&second, Some("k2"), &body);
    assert!(matches!(parser.parse(&other, at, None), ParseStep::Done(Ok(c)) if c.email == "alice@org.example"));
    let crossed = sign(&first, Some("k2"), &body);
    assert!(matches!(
        parser.parse(&crossed, at, None),
        ParseStep::Done(Err(ParserError::WrongToken(TokenFault::InvalidSignature)))
    ));
    let crossed = sign(&second, Some("k1"), &body);
    assert!(matches!(
        parser.parse(&crossed, at, None),
        ParseStep::Done(Err(ParserError::WrongToken(TokenFault::InvalidSignature)))
    ));
}

#[test]
fn accepted_claims_are_those_of_the_token_given() {
    let signer = signer();
    let at = now();
    let mut parser = parser_with(&signer, "k1", at);
    let for_bob = sign(&signer, Some("k1"), &claims(Some("bob@org.example"), ISSUER, at + 900));
    let read = outcome(parser.parse(&for_bob, at, None)).unwrap();
    assert_eq!(read.email, "bob@org.example");
    assert_eq!(read.exp, at + 900);
    let for_carol = sign(&signer, Some("k1"), &claims(Some("carol@org.example"), ISSUER, at + 30));
    let read = outcome(parser.parse(&for_carol, at, None)).unwrap();
    assert_eq!(read.email, "carol@org.example");
    assert_eq!(read.exp, at + 30);
}
