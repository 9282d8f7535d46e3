//! The guard at the edge of a request: no assertion, no entry.

use vstd::prelude::*;
use crate::jwt::{
    ParseStep, Parser, ParserError, claims_of, parse_step, payload_numbers, payload_texts, vouched,
};
use crate::key_provider::ProviderView;
use crate::key_provider::KeyFetch;

verus! {

/// What `str::trim` gives for a text: the text without the white space at
/// its two ends.
pub uninterp spec fn trimmed(s: Seq<char>) -> Seq<char>;

/// Calls `str::trim`.
#[verifier::external_body]
fn trim(s: &str) -> (r: &str)
    ensures
        r@ == trimmed(s@),
{
    s.trim()
}

/// The status with which a request is turned away.
pub const UNAUTHORIZED: u16 = 401;

/// Who a request comes from, once its assertion has been verified.
#[derive(Clone, Debug)]
pub struct IapContext {
    pub email: String,
    pub verified: bool,
}

/// What `validate_iap_header` has to say: that the keys must be fetched
/// first, or the outcome.
pub enum HeaderStep {
    Fetch,
    Done(Result<IapContext, ParserError>),
}

/// What the guard has to say: that the keys must be fetched first, that the
/// request is turned away with a status, or that it goes on as the caller
/// named.
pub enum GuardStep {
    Fetch,
    Reject { status: u16, reason: Option<ParserError> },
    Proceed(IapContext),
}

/// The context that verified claims give: their email, marked verified.
pub open spec fn header_step(parsed: ParseStep) -> HeaderStep {
    match parsed {
        ParseStep::Fetch => HeaderStep::Fetch,
        ParseStep::Done(Ok(claims)) => HeaderStep::Done(
            Ok(IapContext { email: claims.email, verified: true }),
        ),
        ParseStep::Done(Err(e)) => HeaderStep::Done(Err(e)),
    }
}

/// What the guard makes of a header's validation: a verified caller goes on,
/// any failure turns the request away as unauthorized.
pub open spec fn guard_step(validated: HeaderStep) -> GuardStep {
    match validated {
        HeaderStep::Fetch => GuardStep::Fetch,
        HeaderStep::Done(Ok(context)) => GuardStep::Proceed(context),
        HeaderStep::Done(Err(e)) => GuardStep::Reject { status: 401, reason: Some(e) },
    }
}

/// Whether `context` names the bearer of `token`: it is marked verified, the
/// token is vouched for by the keys of `provider` at `now`, and the email is
/// that of the token's payload.
pub open spec fn admitted(
    provider: ProviderView,
    token: Seq<char>,
    context: IapContext,
    now: u64,
) -> bool {
    context.verified && (claims_of(payload_texts(token), payload_numbers(token)) matches Some(
        claims,
    ) && vouched(provider, token, claims, now) && claims.email == context.email@)
}

/// One step of validating the assertion in `header` at `now`: the header's
/// value without the white space around it is verified as a token.
pub fn validate_iap_header(
    parser: &mut Parser,
    header: &str,
    now: u64,
    fetched: Option<KeyFetch>,
) -> (step: HeaderStep)
    requires
        old(parser).wf(),
    ensures
        final(parser).wf(),
        exists|parsed: ParseStep| #[trigger]
            parse_step(old(parser)@, final(parser)@, trimmed(header@), now, fetched, parsed)
                && step == header_step(parsed),
        step matches HeaderStep::Done(Ok(context)) ==> admitted(
            final(parser)@,
            trimmed(header@),
            context,
            now,
        ),
{
    let jwt_token = trim(header);
    let parsed = parser.parse(jwt_token, now, fetched);
    let ghost witness = parsed;
    let step = match parsed {
        ParseStep::Fetch => HeaderStep::Fetch,
        ParseStep::Done(Ok(claims)) => HeaderStep::Done(
            Ok(IapContext { email: claims.email, verified: true }),
        ),
        ParseStep::Done(Err(e)) => HeaderStep::Done(Err(e)),
    };
    assert(parse_step(old(parser)@, parser@, trimmed(header@), now, fetched, witness)
        && step == header_step(witness));
    step
}

/// One step of the guard for a request that carries `header` as its
/// assertion, or none. Without an assertion the request is turned away at
/// once and nothing is verified.
pub fn iap_verify(
    parser: &mut Parser,
    header: Option<&str>,
    now: u64,
    fetched: Option<KeyFetch>,
) -> (step: GuardStep)
    requires
        old(parser).wf(),
    ensures
        final(parser).wf(),
        match header {
            None => step == (GuardStep::Reject { status: 401, reason: None })
                && final(parser)@ == old(parser)@,
            Some(value) => exists|parsed: ParseStep| #[trigger]
                parse_step(old(parser)@, final(parser)@, trimmed(value@), now, fetched, parsed)
                    && step == guard_step(header_step(parsed)),
        },
        step matches GuardStep::Proceed(context) ==> header matches Some(value) && admitted(
            final(parser)@,
            trimmed(value@),
            context,
            now,
        ),
        step matches GuardStep::Reject { status, .. } ==> status == 401,
{
    let iap_header = if let Some(iap_header) = header {
        iap_header
    } else {
        return GuardStep::Reject { status: UNAUTHORIZED, reason: None };
    };
    match validate_iap_header(parser, iap_header, now, fetched) {
        HeaderStep::Fetch => GuardStep::Fetch,
        HeaderStep::Done(Ok(context)) => GuardStep::Proceed(context),
        HeaderStep::Done(Err(e)) => GuardStep::Reject { status: UNAUTHORIZED, reason: Some(e) },
    }
}

/// Whatever goes wrong in verification, the request is turned away as
/// unauthorized, and only a verified caller goes on.
pub proof fn lemma_guard_admits_only_the_verified(parsed: ParseStep)
    ensures
        parsed matches ParseStep::Done(Err(_)) ==> (guard_step(header_step(parsed)) matches GuardStep::Reject {
            status,
            ..
        } && status == 401),
        guard_step(header_step(parsed)) matches GuardStep::Proceed(context) ==> context.verified && (
        parsed matches ParseStep::Done(Ok(claims)) && claims.email == context.email),
{
}

/// A request whose assertion gives an expiry that does not lie after `now`
/// is never let through: once the guard has decided, it has turned the
/// request away as unauthorized, and no context is made.
pub proof fn lemma_expired_assertion_is_turned_away(
    before: ProviderView,
    after: ProviderView,
    header: Seq<char>,
    now: u64,
    fetched: Option<KeyFetch>,
    parsed: ParseStep,
)
    requires
        parse_step(before, after, trimmed(header), now, fetched, parsed),
        payload_numbers(trimmed(header)).contains_key("exp"@),
        payload_numbers(trimmed(header))["exp"@] <= now,
    ensures
        !(guard_step(header_step(parsed)) is Proceed),
        parsed is Done ==> (guard_step(header_step(parsed)) matches GuardStep::Reject {
            status,
            ..
        } && status == 401),
{
}

/// A request is let through only as the bearer of its own assertion: the
/// assertion names a key, the key held under that name signed it, its claims
/// are current and from the trusted issuer, and the context carries the
/// email of its payload, marked verified.
pub proof fn lemma_admitted_caller_is_the_bearer(
    before: ProviderView,
    after: ProviderView,
    header: Seq<char>,
    now: u64,
    fetched: Option<KeyFetch>,
    parsed: ParseStep,
)
    requires
        parse_step(before, after, trimmed(header), now, fetched, parsed),
    ensures
        guard_step(header_step(parsed)) matches GuardStep::Proceed(context) ==> admitted(
            after,
            trimmed(header),
            context,
            now,
        ) && payload_texts(trimmed(header)).contains_key("email"@) && context.email@
            == payload_texts(trimmed(header))["email"@],
{
}

} // verus!
