//! Verification of a signed assertion: its header, the issuer's key that it
//! names, its signature and its claims.

use vstd::prelude::*;
use crate::key_provider::{
    GoogleKeyProviderError, GooglePublicKeyProvider, KeyFetch, KeyStep, ProviderView,
    ec_point, fetch_error, key_point, reloaded, stale,
};
use crate::models::{TokenClaims, TokenClaimsView};

verus! {

/// `serde_json::Value`, a JSON document. Of what it holds only its text and
/// number members are spoken of.
#[verifier::external_type_specification]
#[verifier::external_body]
pub struct ExJsonValue(serde_json::Value);

/// What `jsonwebtoken::decode_header` reads from a token: nothing where it
/// fails, else the key identifier in the header, if the header has one.
pub uninterp spec fn token_header_kid(token: Seq<char>) -> Option<Option<Seq<char>>>;

/// The members of a JSON object whose values are strings, each name with its
/// string; empty for a value that is no object.
pub uninterp spec fn text_members(value: serde_json::Value) -> Map<Seq<char>, Seq<char>>;

/// The members of a JSON object whose values are integers from 0 to the
/// largest `u64`, each name with its number; empty for a value that is no
/// object.
pub uninterp spec fn number_members(value: serde_json::Value) -> Map<Seq<char>, u64>;

/// Whether the ES256 signature at the end of `token` is that of the rest of
/// the token under the public key of point `point`, as `jsonwebtoken::decode`
/// finds it.
pub uninterp spec fn signature_verifies(token: Seq<char>, point: Seq<u8>) -> bool;

/// The text members of the JSON object that is the payload of `token`, as
/// `jsonwebtoken::decode` reads it.
pub uninterp spec fn payload_texts(token: Seq<char>) -> Map<Seq<char>, Seq<char>>;

/// The number members of the JSON object that is the payload of `token`, as
/// `jsonwebtoken::decode` reads it.
pub uninterp spec fn payload_numbers(token: Seq<char>) -> Map<Seq<char>, u64>;

/// Calls `jsonwebtoken::decode_header` and hands out the header's `kid`.
/// What comes back depends on the token's text alone.
#[verifier::external_body]
fn header_kid(token: &str) -> (r: Result<Option<String>, jsonwebtoken::errors::Error>)
    ensures
        match r {
            Ok(Some(kid)) => token_header_kid(token@) == Some(Some(kid@)),
            Ok(None) => token_header_kid(token@) == Some(None::<Seq<char>>),
            Err(_) => token_header_kid(token@) is None,
        },
{
    jsonwebtoken::decode_header(token).map(|header| header.kid)
}

/// Calls `jsonwebtoken::decode` with the `jsonwebtoken::Validation` that
/// stands for `rules`, made by `Validation::new` and `set_issuer`; such a
/// validation checks the signature. The call judges the claims against the
/// machine's clock, so nothing is claimed of when it gives claims. Where it
/// does, the token's signature is that of `key`, and the claims are the
/// token's payload.
#[verifier::external_body]
fn decode_claims(token: &str, key: &jsonwebtoken::DecodingKey, rules: &ValidationRules) -> (r:
    Result<serde_json::Value, jsonwebtoken::errors::Error>)
    ensures
        r matches Ok(value) ==> signature_verifies(token@, key_point(*key)) && text_members(value)
            == payload_texts(token@) && number_members(value) == payload_numbers(token@),
{
    let algorithm = match rules.algorithm {
        SignatureAlgorithm::ES256 => jsonwebtoken::Algorithm::ES256,
    };
    let mut validation = jsonwebtoken::Validation::new(algorithm);
    validation.set_issuer(&[rules.issuer.as_str()]);
    validation.validate_exp = rules.validate_exp;
    validation.validate_nbf = rules.validate_nbf;
    jsonwebtoken::decode::<serde_json::Value>(token, key, &validation).map(|data| data.claims)
}

/// Tells the kinds of a `jsonwebtoken` error apart, by `Error::kind`. Nothing
/// is claimed of the kind that comes back.
#[verifier::external_body]
fn fault_of(error: &jsonwebtoken::errors::Error) -> (fault: TokenFault) {
    match error.kind() {
        jsonwebtoken::errors::ErrorKind::InvalidSignature => TokenFault::InvalidSignature,
        jsonwebtoken::errors::ErrorKind::ExpiredSignature => TokenFault::ExpiredSignature,
        jsonwebtoken::errors::ErrorKind::InvalidIssuer => TokenFault::InvalidIssuer,
        jsonwebtoken::errors::ErrorKind::MissingRequiredClaim(_) => TokenFault::MissingClaim,
        _ => TokenFault::Other,
    }
}

/// Reads a string member of a JSON object, with `serde_json::Value::get` and
/// `as_str`: the string under `name`, where the value is an object that holds
/// a string there.
#[verifier::external_body]
fn text_member(value: &serde_json::Value, name: &str) -> (r: Option<String>)
    ensures
        match r {
            Some(text) => text_members(*value).contains_key(name@) && text_members(*value)[name@]
                == text@,
            None => !text_members(*value).contains_key(name@),
        },
{
    value.get(name).and_then(|member| member.as_str()).map(|text| text.to_owned())
}

/// Reads a number member of a JSON object, with `serde_json::Value::get` and
/// `as_u64`: the number under `name`, where the value is an object that holds
/// an integer there that a `u64` can hold.
#[verifier::external_body]
fn number_member(value: &serde_json::Value, name: &str) -> (r: Option<u64>)
    ensures
        match r {
            Some(number) => number_members(*value).contains_key(name@) && number_members(
                *value,
            )[name@] == number,
            None => !number_members(*value).contains_key(name@),
        },
{
    value.get(name).and_then(|member| member.as_u64())
}

/// The one signature scheme that assertions are signed with.
#[derive(Clone, Copy, Debug, PartialEq, Eq, Structural)]
pub enum SignatureAlgorithm {
    ES256,
}

/// What an assertion is held to, besides its signature.
#[derive(Clone, Debug)]
pub struct ValidationRules {
    pub algorithm: SignatureAlgorithm,
    pub issuer: String,
    pub validate_exp: bool,
    pub validate_nbf: bool,
}

/// What is wrong with a token whose header and key were in order.
#[derive(Clone, Copy, Debug, PartialEq, Eq, Structural)]
pub enum TokenFault {
    /// The signature is not that of the key.
    InvalidSignature,
    /// The token has expired.
    ExpiredSignature,
    /// The token is not from the trusted issuer.
    InvalidIssuer,
    /// A claim that is needed is absent, or is no text or number as it should be.
    MissingClaim,
    /// Anything else.
    Other,
}

/// Why a token was not accepted.
#[derive(Debug)]
pub enum ParserError {
    /// The token's header cannot be read.
    WrongHeader,
    /// The header names no key.
    UnknownKid,
    /// The key that the header names could not be had.
    KeyProvider(GoogleKeyProviderError),
    /// The token itself is at fault.
    WrongToken(TokenFault),
}

/// What `parse` has to say: that the keys must be fetched first, or the
/// outcome of the verification.
pub enum ParseStep {
    Fetch,
    Done(Result<TokenClaims, ParserError>),
}

/// The one issuer whose assertions are accepted.
pub open spec fn trusted_issuer() -> Seq<char> {
    "https://cloud.google.com/iap"@
}

/// The claims that a JSON object of text and number members carries, where it
/// carries all four.
pub open spec fn claims_of(
    texts: Map<Seq<char>, Seq<char>>,
    numbers: Map<Seq<char>, u64>,
) -> Option<TokenClaimsView> {
    if texts.contains_key("email"@) && texts.contains_key("aud"@) && texts.contains_key("iss"@)
        && numbers.contains_key("exp"@) {
        Some(
            TokenClaimsView {
                email: texts["email"@],
                aud: texts["aud"@],
                iss: texts["iss"@],
                exp: numbers["exp"@],
            },
        )
    } else {
        None
    }
}

/// What is wrong with claims at `now`, in seconds since the epoch: they have
/// expired unless their expiry lies after `now`, and are else untrusted
/// unless their issuer is `issuer`.
pub open spec fn claims_fault(claims: TokenClaimsView, issuer: Seq<char>, now: u64) -> Option<
    TokenFault,
> {
    if claims.exp <= now {
        Some(TokenFault::ExpiredSignature)
    } else if claims.iss != issuer {
        Some(TokenFault::InvalidIssuer)
    } else {
        None
    }
}

/// The rules for assertions of the identity-aware proxy: signed with ES256,
/// from the trusted issuer, not expired; a not-before claim is not looked at.
pub fn iap_rules() -> (rules: ValidationRules)
    ensures
        rules.algorithm == SignatureAlgorithm::ES256,
        rules.issuer@ == trusted_issuer(),
        rules.validate_exp,
        !rules.validate_nbf,
{
    ValidationRules {
        algorithm: SignatureAlgorithm::ES256,
        issuer: "https://cloud.google.com/iap".to_owned(),
        validate_exp: true,
        validate_nbf: false,
    }
}

/// Puts the four claims together, where all four are there.
pub fn assemble_claims(
    email: Option<String>,
    aud: Option<String>,
    iss: Option<String>,
    exp: Option<u64>,
) -> (r: Option<TokenClaims>)
    ensures
        r is Some <==> (email is Some && aud is Some && iss is Some && exp is Some),
        r matches Some(c) ==> c.email == email.unwrap() && c.aud == aud.unwrap() && c.iss
            == iss.unwrap() && c.exp == exp.unwrap(),
{
    match (email, aud, iss, exp) {
        (Some(email), Some(aud), Some(iss), Some(exp)) => Some(TokenClaims { email, aud, iss, exp }),
        _ => None,
    }
}

/// Reads the four claims from decoded JSON.
pub fn claims_from(value: &serde_json::Value) -> (r: Option<TokenClaims>)
    ensures
        match r {
            Some(c) => claims_of(text_members(*value), number_members(*value)) == Some(c@),
            None => claims_of(text_members(*value), number_members(*value)) is None,
        },
{
    assemble_claims(
        text_member(value, "email"),
        text_member(value, "aud"),
        text_member(value, "iss"),
        number_member(value, "exp"),
    )
}

/// Holds claims to the expiry and issuer rules at `now`, in seconds since the
/// epoch: gives them back where nothing is wrong, else says what is.
pub fn judge_claims(claims: TokenClaims, issuer: &str, now: u64) -> (r: Result<
    TokenClaims,
    ParserError,
>)
    ensures
        match claims_fault(claims@, issuer@, now) {
            Some(fault) => r == Err::<TokenClaims, ParserError>(ParserError::WrongToken(fault)),
            None => r == Ok::<TokenClaims, ParserError>(claims),
        },
{
    if claims.exp <= now {
        Err(ParserError::WrongToken(TokenFault::ExpiredSignature))
    } else if !same_text(claims.iss.as_str(), issuer) {
        Err(ParserError::WrongToken(TokenFault::InvalidIssuer))
    } else {
        Ok(claims)
    }
}

/// Whether two texts are the same.
pub fn same_text(a: &str, b: &str) -> (r: bool)
    ensures
        r == (a@ == b@),
{
    a.to_owned() == b.to_owned()
}

/// What becomes of a decoded token at `now`: a fault of the decoding stays
/// one; claims that came out are read and held to the expiry and issuer
/// rules.
pub open spec fn finished(
    decoded: Result<serde_json::Value, TokenFault>,
    issuer: Seq<char>,
    now: u64,
    r: Result<TokenClaims, ParserError>,
) -> bool {
    match decoded {
        Err(fault) => r == Err::<TokenClaims, ParserError>(ParserError::WrongToken(fault)),
        Ok(value) => match claims_of(text_members(value), number_members(value)) {
            None => r == Err::<TokenClaims, ParserError>(
                ParserError::WrongToken(TokenFault::MissingClaim),
            ),
            Some(claims) => match claims_fault(claims, issuer, now) {
                Some(fault) => r == Err::<TokenClaims, ParserError>(
                    ParserError::WrongToken(fault),
                ),
                None => r matches Ok(c) && c@ == claims,
            },
        },
    }
}

/// Finishes a verification from what the decoding gave.
pub fn finish(decoded: Result<serde_json::Value, TokenFault>, issuer: &str, now: u64) -> (r: Result<
    TokenClaims,
    ParserError,
>)
    ensures
        finished(decoded, issuer@, now, r),
{
    match decoded {
        Err(fault) => Err(ParserError::WrongToken(fault)),
        Ok(value) => match claims_from(&value) {
            None => Err(ParserError::WrongToken(TokenFault::MissingClaim)),
            Some(claims) => judge_claims(claims, issuer, now),
        },
    }
}

/// Whether `decoded` can be what the decoding of `token` against the key of
/// point `point` gave: claims come out only of a token that the key signed,
/// and are the token's payload.
pub open spec fn decoding(
    token: Seq<char>,
    point: Seq<u8>,
    decoded: Result<serde_json::Value, TokenFault>,
) -> bool {
    decoded matches Ok(value) ==> signature_verifies(token, point) && text_members(value)
        == payload_texts(token) && number_members(value) == payload_numbers(token)
}

/// Whether `r` can be the outcome for `token` once the key of point `point`
/// was found: what becomes of the token's decoding against that key,
/// whatever the decoding gave.
pub open spec fn verdict(
    token: Seq<char>,
    point: Seq<u8>,
    r: Result<TokenClaims, ParserError>,
    now: u64,
) -> bool {
    exists|decoded: Result<serde_json::Value, TokenFault>| #[trigger]
        finished(decoded, trusted_issuer(), now, r) && decoding(token, point, decoded)
}

/// Whether `r` can be the outcome for `token`, which names `kid`, looked up
/// in the keys of `provider`.
pub open spec fn key_verdict(
    provider: ProviderView,
    token: Seq<char>,
    kid: Seq<char>,
    r: Result<TokenClaims, ParserError>,
    now: u64,
) -> bool {
    if !provider.keys.contains_key(kid) {
        r == Err::<TokenClaims, ParserError>(
            ParserError::KeyProvider(GoogleKeyProviderError::KeyNotFound),
        )
    } else {
        match ec_point(provider.keys[kid].x@, provider.keys[kid].y@) {
            None => r matches Err(
                ParserError::KeyProvider(GoogleKeyProviderError::CreateKeyError(_)),
            ),
            Some(point) => verdict(token, point, r, now),
        }
    }
}

/// Whether `step`, with the provider going from `before` to `after`, is what
/// one step of verifying `token` at `now` gives.
pub open spec fn parse_step(
    before: ProviderView,
    after: ProviderView,
    token: Seq<char>,
    now: u64,
    fetched: Option<KeyFetch>,
    step: ParseStep,
) -> bool {
    match token_header_kid(token) {
        None => after == before && step == ParseStep::Done(Err(ParserError::WrongHeader)),
        Some(None) => after == before && step == ParseStep::Done(Err(ParserError::UnknownKid)),
        Some(Some(kid)) => if !stale(before.expiration_time, now) {
            after == before && (step matches ParseStep::Done(r) && key_verdict(
                after,
                token,
                kid,
                r,
                now,
            ))
        } else {
            match fetched {
                None => after == before && step is Fetch,
                Some(f) => after == reloaded(before, f, now) && (step matches ParseStep::Done(r)
                    && match fetch_error(f) {
                    Some(e) => r == Err::<TokenClaims, ParserError>(ParserError::KeyProvider(e)),
                    None => key_verdict(after, token, kid, r, now),
                }),
            }
        },
    }
}

/// Whether accepted claims are those of `token` itself: the token names a
/// key, its signature is that of the key which `provider` holds under that
/// name, and the claims are the four of its payload, not expired at `now` and
/// from the trusted issuer.
pub open spec fn vouched(provider: ProviderView, token: Seq<char>, claims: TokenClaimsView, now: u64) -> bool {
    token_header_kid(token) matches Some(Some(kid)) && provider.keys.contains_key(kid) && (ec_point(
        provider.keys[kid].x@,
        provider.keys[kid].y@,
    ) matches Some(point) && signature_verifies(token, point)) && claims_of(
        payload_texts(token),
        payload_numbers(token),
    ) == Some(claims) && claims.exp > now && claims.iss == trusted_issuer()
}

/// Verifies assertions against the issuer's keys, which it holds.
#[derive(Debug)]
pub struct Parser {
    key_provider: GooglePublicKeyProvider,
}

impl View for Parser {
    type V = ProviderView;

    closed spec fn view(&self) -> ProviderView {
        self.key_provider@
    }
}

impl Parser {
    pub const GOOGLE_CERT_URL: &'static str = "https://www.gstatic.com/iap/verify/public_key-jwk";

    /// The held key set is in order.
    pub closed spec fn wf(&self) -> bool {
        self.key_provider.wf()
    }

    /// A verifier that takes its keys from the issuer's own address.
    pub fn new() -> (parser: Self)
        ensures
            parser.wf(),
            parser@.url == "https://www.gstatic.com/iap/verify/public_key-jwk"@,
            parser@.keys == Map::<Seq<char>, crate::key_provider::GoogleKey>::empty(),
            parser@.expiration_time is None,
    {
        Parser::new_with_custom_url("https://www.gstatic.com/iap/verify/public_key-jwk")
    }

    /// A verifier that takes its keys from `public_key_url`.
    pub fn new_with_custom_url(public_key_url: &str) -> (parser: Self)
        ensures
            parser.wf(),
            parser@.url == public_key_url@,
            parser@.keys == Map::<Seq<char>, crate::key_provider::GoogleKey>::empty(),
            parser@.expiration_time is None,
    {
        Self { key_provider: GooglePublicKeyProvider::new(public_key_url) }
    }

    /// The keys that this verifier holds.
    pub fn key_provider(&self) -> (provider: &GooglePublicKeyProvider)
        ensures
            provider@ == self@,
            provider.wf() == self.wf(),
    {
        &self.key_provider
    }

    /// One step of verifying `token` at `now`, in seconds since the epoch.
    /// A token whose header cannot be read, or names no key, is refused at
    /// once. Where the keys are stale and nothing was fetched, asks for a
    /// fetch. Else the key is looked up, after taking in what was fetched
    /// where the keys were stale, and the token is decoded against it and its
    /// claims are held to the expiry and issuer rules.
    pub fn parse(&mut self, token: &str, now: u64, fetched: Option<KeyFetch>) -> (step: ParseStep)
        requires
            old(self).wf(),
        ensures
            final(self).wf(),
            parse_step(old(self)@, final(self)@, token@, now, fetched, step),
            step matches ParseStep::Done(Ok(claims)) ==> vouched(final(self)@, token@, claims@, now),
    {
        match header_kid(token) {
            Err(_) => ParseStep::Done(Err(ParserError::WrongHeader)),
            Ok(None) => ParseStep::Done(Err(ParserError::UnknownKid)),
            Ok(Some(kid)) => match self.key_provider.get_key(kid.as_str(), now, fetched) {
                KeyStep::Fetch => ParseStep::Fetch,
                KeyStep::Done(Err(e)) => ParseStep::Done(Err(ParserError::KeyProvider(e))),
                KeyStep::Done(Ok(key)) => {
                    let rules = iap_rules();
                    let decoded = match decode_claims(token, &key, &rules) {
                        Ok(value) => Ok(value),
                        Err(e) => Err(fault_of(&e)),
                    };
                    let ghost given = decoded;
                    let r = finish(decoded, rules.issuer.as_str(), now);
                    assert(finished(given, trusted_issuer(), now, r) && decoding(
                        token@,
                        key_point(key),
                        given,
                    ));
                    ParseStep::Done(r)
                },
            },
        }
    }
}

/// A token that names a key which the key set, fresh or just fetched, does
/// not hold is refused for want of that key.
pub proof fn lemma_unknown_key_is_refused(
    before: ProviderView,
    after: ProviderView,
    token: Seq<char>,
    kid: Seq<char>,
    now: u64,
    fetched: Option<KeyFetch>,
    step: ParseStep,
)
    requires
        parse_step(before, after, token, now, fetched, step),
        token_header_kid(token) == Some(Some(kid)),
        !after.keys.contains_key(kid),
        !stale(before.expiration_time, now) || (fetched is Some && fetch_error(fetched.unwrap())
            is None),
    ensures
        step == ParseStep::Done(
            Err(ParserError::KeyProvider(GoogleKeyProviderError::KeyNotFound)),
        ),
{
}

/// Whatever the decoding made of it, a token is accepted only with its own
/// claims: it names a key, the key held under that name signed it, and the
/// claims handed out are the four of its payload, not expired and from the
/// trusted issuer.
pub proof fn lemma_accepted_claims_are_the_tokens(
    before: ProviderView,
    after: ProviderView,
    token: Seq<char>,
    now: u64,
    fetched: Option<KeyFetch>,
    step: ParseStep,
)
    requires
        parse_step(before, after, token, now, fetched, step),
    ensures
        step matches ParseStep::Done(Ok(claims)) ==> vouched(after, token, claims@, now),
{
}

/// A token whose payload gives an expiry that does not lie after `now` is
/// never accepted, whatever its signature.
pub proof fn lemma_expired_token_is_not_accepted(
    before: ProviderView,
    after: ProviderView,
    token: Seq<char>,
    now: u64,
    fetched: Option<KeyFetch>,
    step: ParseStep,
)
    requires
        parse_step(before, after, token, now, fetched, step),
        payload_numbers(token).contains_key("exp"@),
        payload_numbers(token)["exp"@] <= now,
    ensures
        !(step matches ParseStep::Done(Ok(_))),
{
}

/// Claims that the decoding handed out, from the trusted issuer and with
/// their expiry after `now`, are accepted as they are, the bearer's email
/// among them.
pub proof fn lemma_current_claims_are_accepted(
    value: serde_json::Value,
    claims: TokenClaimsView,
    now: u64,
    r: Result<TokenClaims, ParserError>,
)
    requires
        claims_of(text_members(value), number_members(value)) == Some(claims),
        claims.exp > now,
        claims.iss == trusted_issuer(),
        finished(Ok(value), trusted_issuer(), now, r),
    ensures
        r matches Ok(c) && c@ == claims,
{
}

/// Claims that the decoding handed out whose expiry does not lie after `now`
/// are refused as expired, whoever issued them.
pub proof fn lemma_expired_claims_are_refused(
    value: serde_json::Value,
    claims: TokenClaimsView,
    now: u64,
    r: Result<TokenClaims, ParserError>,
)
    requires
        claims_of(text_members(value), number_members(value)) == Some(claims),
        claims.exp <= now,
        finished(Ok(value), trusted_issuer(), now, r),
    ensures
        r == Err::<TokenClaims, ParserError>(ParserError::WrongToken(TokenFault::ExpiredSignature)),
{
}

} // verus!
