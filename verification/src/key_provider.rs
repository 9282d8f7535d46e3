//! The issuer's public signing keys: the set that is held, how long it may be
//! used, and when it has to be fetched again.

use vstd::prelude::*;
use crate::table::Table;
use headers::Header;

verus! {

/// `jsonwebtoken::DecodingKey`, the key that a signature is checked with. Of
/// what it holds only the public point is spoken of.
#[verifier::external_type_specification]
#[verifier::external_body]
pub struct ExDecodingKey(jsonwebtoken::DecodingKey);

/// `jsonwebtoken::errors::Error`. Nothing is known of what it holds.
#[verifier::external_type_specification]
#[verifier::external_body]
pub struct ExTokenError(jsonwebtoken::errors::Error);

/// The bytes of the public point that a decoding key holds.
pub uninterp spec fn key_point(key: jsonwebtoken::DecodingKey) -> Seq<u8>;

/// The public point that `jsonwebtoken::DecodingKey::from_ec_components`
/// makes of the two coordinates `x` and `y`, where it makes a key of them:
/// the bytes that the two texts stand for in unpadded URL-safe base64, behind
/// the mark of an uncompressed point.
pub uninterp spec fn ec_point(x: Seq<char>, y: Seq<char>) -> Option<Seq<u8>>;

/// The `max-age` in seconds that `headers::CacheControl` reads from the values
/// of a `Cache-Control` header, if it reads one.
pub uninterp spec fn cache_control_max_age(values: Seq<Seq<char>>) -> Option<u64>;

/// Calls `jsonwebtoken::DecodingKey::from_ec_components`. Whether it gives a
/// key depends on the two coordinates alone, and the key that it gives holds
/// the point of those coordinates.
#[verifier::external_body]
fn ec_decoding_key(x: &str, y: &str) -> (r: Result<
    jsonwebtoken::DecodingKey,
    jsonwebtoken::errors::Error,
>)
    ensures
        r is Ok == ec_point(x@, y@) is Some,
        r matches Ok(key) ==> ec_point(x@, y@) == Some(key_point(key)),
{
    jsonwebtoken::DecodingKey::from_ec_components(x, y)
}

/// Calls `headers::CacheControl::decode` on the given header values and reads
/// `max_age` from what it gives, in whole seconds. No `max-age` is reported
/// where a value cannot stand in a header or the header cannot be decoded.
#[verifier::external_body]
fn decode_max_age(values: &Vec<String>) -> (r: Option<u64>)
    ensures
        r == cache_control_max_age(values.deep_view()),
{
    let mut parsed = Vec::new();
    for value in values.iter() {
        match headers::HeaderValue::from_str(value) {
            Ok(header) => parsed.push(header),
            Err(_) => return None,
        }
    }
    match headers::CacheControl::decode(&mut parsed.iter()) {
        Ok(control) => control.max_age().map(|age| age.as_secs()),
        Err(_) => None,
    }
}

/// One public key of the issuer: its identifier and the two coordinates of a
/// point on the curve.
#[derive(Clone, Debug)]
pub struct GoogleKey {
    pub kid: String,
    pub x: String,
    pub y: String,
}

impl GoogleKey {
    /// The key with the given identifier and coordinates.
    pub fn new(kid: String, x: String, y: String) -> (key: GoogleKey)
        ensures
            key.kid == kid,
            key.x == x,
            key.y == y,
    {
        GoogleKey { kid, x, y }
    }

    /// A copy of this key.
    pub fn duplicate(&self) -> (key: GoogleKey)
        ensures
            key == *self,
    {
        GoogleKey { kid: self.kid.clone(), x: self.x.clone(), y: self.y.clone() }
    }
}

/// The keys as the issuer publishes them.
#[derive(Clone, Debug)]
pub struct GoogleKeys {
    pub keys: Vec<GoogleKey>,
}

/// Why no key could be given.
#[derive(Debug)]
pub enum GoogleKeyProviderError {
    /// The key set holds no key of that identifier.
    KeyNotFound,
    /// The key set could not be fetched.
    FetchError(String),
    /// What was fetched is no key set.
    ParseError(String),
    /// The coordinates held under that identifier make no key.
    CreateKeyError(jsonwebtoken::errors::Error),
}

/// What came of one fetch of the issuer's keys.
pub enum KeyFetch {
    /// The fetch itself failed; the text says how.
    Unreachable(String),
    /// An answer came that is no key set; the text says how.
    Unreadable(String),
    /// A key set, with the values of the answer's `Cache-Control` header.
    Received { cache_control: Vec<String>, keys: GoogleKeys },
}

/// What `get_key` has to say: that the keys must be fetched first, or the
/// outcome of the lookup.
pub enum KeyStep {
    Fetch,
    Done(Result<jsonwebtoken::DecodingKey, GoogleKeyProviderError>),
}

/// The issuer's keys as they are held: where they come from, each key under
/// its identifier, and the instant up to which they may be used.
#[derive(Debug)]
pub struct GooglePublicKeyProvider {
    url: String,
    keys: Table<GoogleKey>,
    expiration_time: Option<u64>,
}

/// What a provider holds, as plain values. Instants are seconds on the
/// caller's clock.
pub struct ProviderView {
    pub url: Seq<char>,
    pub keys: Map<Seq<char>, GoogleKey>,
    pub expiration_time: Option<u64>,
}

/// The key set that a published list stands for: each key under its
/// identifier, a later key taking the place of an earlier one of the same
/// identifier.
pub open spec fn key_map(keys: Seq<GoogleKey>) -> Map<Seq<char>, GoogleKey>
    decreases keys.len(),
{
    if keys.len() == 0 {
        Map::empty()
    } else {
        key_map(keys.drop_last()).insert(keys.last().kid@, keys.last())
    }
}

/// The instant up to which keys fetched at `now` may be used: `max_age`
/// seconds later, or the last instant there is where that lies beyond it.
/// Without a `max_age` there is no such instant.
pub open spec fn expiration_of(max_age: Option<u64>, now: u64) -> Option<u64> {
    match max_age {
        Some(age) => Some(
            if now + age > u64::MAX {
                u64::MAX
            } else {
                (now + age) as u64
            },
        ),
        None => None,
    }
}

/// Whether keys with this expiration must be fetched again before use at
/// `now`: always where no instant is set, else once `now` lies beyond it.
pub open spec fn stale(expiration_time: Option<u64>, now: u64) -> bool {
    match expiration_time {
        Some(expire) => now > expire,
        None => true,
    }
}

/// What a lookup of `kid` in `keys` gives: no key where none is held under
/// `kid`; else the decoding key of the point that the coordinates held under
/// `kid` make, or the error of making one where they make none.
pub open spec fn lookup_outcome(
    keys: Map<Seq<char>, GoogleKey>,
    kid: Seq<char>,
    r: Result<jsonwebtoken::DecodingKey, GoogleKeyProviderError>,
) -> bool {
    if !keys.contains_key(kid) {
        r == Err::<jsonwebtoken::DecodingKey, GoogleKeyProviderError>(
            GoogleKeyProviderError::KeyNotFound,
        )
    } else {
        match ec_point(keys[kid].x@, keys[kid].y@) {
            Some(point) => r matches Ok(key) && key_point(key) == point,
            None => r matches Err(GoogleKeyProviderError::CreateKeyError(_)),
        }
    }
}

/// The provider after a fetch that gave `fetched` at `now`: as before where
/// the fetch failed, else with the new keys in place of all the old ones.
pub open spec fn reloaded(before: ProviderView, fetched: KeyFetch, now: u64) -> ProviderView {
    match fetched {
        KeyFetch::Received { cache_control, keys } => ProviderView {
            url: before.url,
            keys: key_map(keys.keys@),
            expiration_time: expiration_of(cache_control_max_age(cache_control.deep_view()), now),
        },
        _ => before,
    }
}

/// The error that a fetch stands for, if it failed.
pub open spec fn fetch_error(fetched: KeyFetch) -> Option<GoogleKeyProviderError> {
    match fetched {
        KeyFetch::Unreachable(why) => Some(GoogleKeyProviderError::FetchError(why)),
        KeyFetch::Unreadable(why) => Some(GoogleKeyProviderError::ParseError(why)),
        KeyFetch::Received { .. } => None,
    }
}

/// Whether `step`, with the provider going from `before` to `after`, is what
/// one step towards the key of identifier `kid` at `now` gives. Keys that are
/// not stale are looked up in as they are. Stale keys are fetched first:
/// without a fetch the step asks for one and nothing changes; with one, the
/// provider takes it in, a failed fetch is the outcome, and a key set is
/// looked up in.
pub open spec fn key_step(
    before: ProviderView,
    after: ProviderView,
    kid: Seq<char>,
    now: u64,
    fetched: Option<KeyFetch>,
    step: KeyStep,
) -> bool {
    if !stale(before.expiration_time, now) {
        after == before && (step matches KeyStep::Done(r) && lookup_outcome(before.keys, kid, r))
    } else {
        match fetched {
            None => after == before && step is Fetch,
            Some(f) => after == reloaded(before, f, now) && (step matches KeyStep::Done(r)
                && match fetch_error(f) {
                Some(e) => r == Err::<jsonwebtoken::DecodingKey, GoogleKeyProviderError>(e),
                None => lookup_outcome(after.keys, kid, r),
            }),
        }
    }
}

/// The instant up to which keys fetched at `now` may be used.
pub fn expiration_from(max_age: Option<u64>, now: u64) -> (r: Option<u64>)
    ensures
        r == expiration_of(max_age, now),
{
    match max_age {
        Some(age) => Some(now.saturating_add(age)),
        None => None,
    }
}

impl View for GooglePublicKeyProvider {
    type V = ProviderView;

    closed spec fn view(&self) -> ProviderView {
        ProviderView { url: self.url@, keys: self.keys@, expiration_time: self.expiration_time }
    }
}

impl GooglePublicKeyProvider {
    /// No identifier is held twice.
    pub closed spec fn wf(&self) -> bool {
        self.keys.wf()
    }

    /// A provider for the keys at `public_key_url`, which holds none yet.
    pub fn new(public_key_url: &str) -> (provider: Self)
        ensures
            provider.wf(),
            provider@.url == public_key_url@,
            provider@.keys == Map::<Seq<char>, GoogleKey>::empty(),
            provider@.expiration_time is None,
    {
        Self { url: public_key_url.to_owned(), keys: Table::new(), expiration_time: None }
    }

    /// The address that the keys are fetched from.
    pub fn url(&self) -> (url: &str)
        ensures
            url@ == self@.url,
    {
        self.url.as_str()
    }

    /// The instant up to which the held keys may be used, if one is set.
    pub fn expiration_time(&self) -> (r: Option<u64>)
        ensures
            r == self@.expiration_time,
    {
        self.expiration_time
    }

    /// Reads from the values of a `Cache-Control` header the instant up to
    /// which keys fetched at `now` may be used.
    pub fn parse_expiration_time(cache_control: &Vec<String>, now: u64) -> (r: Option<u64>)
        ensures
            r == expiration_of(cache_control_max_age(cache_control.deep_view()), now),
    {
        expiration_from(decode_max_age(cache_control), now)
    }

    /// Whether an expiration instant is set and `now` lies beyond it.
    pub fn is_expire(&self, now: u64) -> (r: bool)
        ensures
            r == (self@.expiration_time is Some && now > self@.expiration_time.unwrap()),
    {
        if let Some(expire) = self.expiration_time {
            now > expire
        } else {
            false
        }
    }

    /// Whether the keys must be fetched before a lookup at `now`.
    pub fn needs_reload(&self, now: u64) -> (r: bool)
        ensures
            r == stale(self@.expiration_time, now),
    {
        self.expiration_time.is_none() || self.is_expire(now)
    }

    /// Takes in what a fetch at `now` gave. A key set replaces all the keys
    /// held, and sets the expiration from its `Cache-Control` values; a failed
    /// fetch changes nothing and is reported.
    pub fn reload(&mut self, fetched: KeyFetch, now: u64) -> (r: Result<
        (),
        GoogleKeyProviderError,
    >)
        requires
            old(self).wf(),
        ensures
            final(self).wf(),
            final(self)@ == reloaded(old(self)@, fetched, now),
            match fetch_error(fetched) {
                Some(e) => r == Err::<(), GoogleKeyProviderError>(e),
                None => r is Ok,
            },
    {
        match fetched {
            KeyFetch::Unreachable(why) => Err(GoogleKeyProviderError::FetchError(why)),
            KeyFetch::Unreadable(why) => Err(GoogleKeyProviderError::ParseError(why)),
            KeyFetch::Received { cache_control, keys } => {
                let expiration_time = Self::parse_expiration_time(&cache_control, now);
                self.keys.clear();
                let mut i: usize = 0;
                assert(keys.keys@.take(0) =~= Seq::<GoogleKey>::empty());
                while i < keys.keys.len()
                    invariant
                        i <= keys.keys@.len(),
                        self.keys.wf(),
                        self.keys@ == key_map(keys.keys@.take(i as int)),
                        self.url == old(self).url,
                    decreases keys.keys@.len() - i,
                {
                    let key = keys.keys[i].duplicate();
                    self.keys.insert(key.kid.clone(), key);
                    assert(keys.keys@.take(i + 1).drop_last() =~= keys.keys@.take(i as int));
                    i += 1;
                }
                assert(keys.keys@.take(i as int) =~= keys.keys@);
                self.expiration_time = expiration_time;
                Ok(())
            },
        }
    }

    /// Looks `kid` up in the keys that are held, as they are.
    pub fn lookup(&self, kid: &str) -> (r: Result<
        jsonwebtoken::DecodingKey,
        GoogleKeyProviderError,
    >)
        requires
            self.wf(),
        ensures
            lookup_outcome(self@.keys, kid@, r),
    {
        match self.keys.get(&kid.to_owned()) {
            None => Err(GoogleKeyProviderError::KeyNotFound),
            Some(key) => match ec_decoding_key(key.x.as_str(), key.y.as_str()) {
                Ok(decoding_key) => Ok(decoding_key),
                Err(e) => Err(GoogleKeyProviderError::CreateKeyError(e)),
            },
        }
    }

    /// One step towards the key of identifier `kid` at `now`. Where the keys
    /// are stale and nothing was fetched, asks for a fetch and changes
    /// nothing. Where they are stale and `fetched` holds what a fetch gave,
    /// takes that in: a failed fetch is the outcome, a key set is looked up
    /// in. Where they are not stale, looks up in the keys held, whatever
    /// `fetched` holds.
    pub fn get_key(&mut self, kid: &str, now: u64, fetched: Option<KeyFetch>) -> (step: KeyStep)
        requires
            old(self).wf(),
        ensures
            final(self).wf(),
            key_step(old(self)@, final(self)@, kid@, now, fetched, step),
    {
        if self.needs_reload(now) {
            match fetched {
                None => {
                    return KeyStep::Fetch;
                },
                Some(f) => {
                    match self.reload(f, now) {
                        Ok(()) => {},
                        Err(e) => {
                            return KeyStep::Done(Err(e));
                        },
                    }
                },
            }
        }
        KeyStep::Done(self.lookup(kid))
    }
}

/// Keys whose expiration instant has not passed are not fetched again: a
/// step at such an instant looks up in what is held, asks for no fetch and
/// changes nothing, whatever it is handed.
pub proof fn lemma_fresh_keys_are_not_fetched(
    before: ProviderView,
    after: ProviderView,
    kid: Seq<char>,
    now: u64,
    fetched: Option<KeyFetch>,
    step: KeyStep,
)
    requires
        key_step(before, after, kid, now, fetched, step),
        before.expiration_time is Some,
        now <= before.expiration_time.unwrap(),
    ensures
        step is Done,
        after == before,
{
}

/// Two lookups in a row make at most one fetch: once a step has taken in a
/// key set whose `Cache-Control` gives a `max-age`, a step at any instant up
/// to `max-age` seconds later asks for no fetch and changes nothing.
pub proof fn lemma_second_lookup_fetches_nothing(
    start: ProviderView,
    middle: ProviderView,
    end: ProviderView,
    first_kid: Seq<char>,
    second_kid: Seq<char>,
    first_at: u64,
    second_at: u64,
    cache_control: Vec<String>,
    keys: GoogleKeys,
    second_fetched: Option<KeyFetch>,
    first: KeyStep,
    second: KeyStep,
)
    requires
        stale(start.expiration_time, first_at),
        key_step(
            start,
            middle,
            first_kid,
            first_at,
            Some(KeyFetch::Received { cache_control, keys }),
            first,
        ),
        key_step(middle, end, second_kid, second_at, second_fetched, second),
        cache_control_max_age(cache_control.deep_view()) matches Some(max_age) && first_at
            <= second_at <= first_at + max_age,
    ensures
        second is Done,
        end == middle,
        middle.keys == key_map(keys.keys@),
{
}

/// Keys fetched without a `max-age` are stale at once: the next step asks
/// for a fetch again.
pub proof fn lemma_no_max_age_fetches_again(
    start: ProviderView,
    middle: ProviderView,
    end: ProviderView,
    first_kid: Seq<char>,
    second_kid: Seq<char>,
    first_at: u64,
    second_at: u64,
    cache_control: Vec<String>,
    keys: GoogleKeys,
    first: KeyStep,
    second: KeyStep,
)
    requires
        stale(start.expiration_time, first_at),
        key_step(
            start,
            middle,
            first_kid,
            first_at,
            Some(KeyFetch::Received { cache_control, keys }),
            first,
        ),
        key_step(middle, end, second_kid, second_at, None, second),
        cache_control_max_age(cache_control.deep_view()) is None,
    ensures
        second is Fetch,
        end == middle,
{
}

} // verus!
