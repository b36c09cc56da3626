//! Names of the shared-memory objects the sidecar publishes: a prefix, the
//! sidecar identifier and an encoded hash, cut to the macOS name limit.
use vstd::prelude::*;
use crate::liaison::primary_sidecar_identifier;
use crate::text::{chars_of, decimal_digits, push_char, u64_to_decimal};

verus! {

/// The longest shared-memory object name macOS accepts.
pub const SHM_NAME_LIMIT: usize = 31;

/// Prefix of the span stats concentrator objects, which are named
/// `/ddspsc-{uid}-{hash}`.
pub const STATS_SHM_PREFIX: &'static str = "/ddspsc-";

/// Prefix of the telemetry client objects.
pub const TELEMETRY_SHM_PREFIX: &'static str = "/ddtl";

/// Prefix of the rate limiter object.
pub const LIMITER_SHM_PREFIX: &'static str = "/ddlimiters-";

/// A character of the URL-safe base64 alphabet.
pub open spec fn url_safe_char(c: char) -> bool {
    ('A' <= c && c <= 'Z') || ('a' <= c && c <= 'z') || ('0' <= c && c <= '9') || c == '-' || c
        == '_'
}

/// `s` cut to its first `n` characters.
pub open spec fn truncated(s: Seq<char>, n: nat) -> Seq<char> {
    if s.len() <= n {
        s
    } else {
        s.take(n as int)
    }
}

/// The untruncated name: prefix, identifier in decimal, `-`, encoded hash.
pub open spec fn hashed_name(prefix: Seq<char>, id: u32, encoded_hash: Seq<char>) -> Seq<char> {
    prefix + decimal_digits(id as nat) + "-"@ + encoded_hash
}

#[verifier::external_type_specification]
#[verifier::external_body]
pub struct ExZwoHasher(zwohash::ZwoHasher);

/// `zwohash::ZwoHasher::default()`: a hasher with its initial state.
#[verifier::external_body]
fn new_zwo_hasher() -> (res: zwohash::ZwoHasher) {
    zwohash::ZwoHasher::default()
}

/// `<str as Hash>::hash` into a `ZwoHasher`: feeds it the string's bytes
/// and a terminating `0xff`. The hasher works on machine words, so its new
/// state depends on the target's word size and byte order: nothing is
/// stated of it.
#[verifier::external_body]
fn hash_str(hasher: &mut zwohash::ZwoHasher, s: &str) {
    std::hash::Hash::hash(s, hasher)
}

/// `Hasher::finish` of a `ZwoHasher`: the hash of what it was fed, which
/// depends on the machine as its state does; nothing is stated of it.
#[verifier::external_body]
fn finish_hash(hasher: &zwohash::ZwoHasher) -> (res: u64) {
    std::hash::Hasher::finish(hasher)
}

/// `BASE64_URL_SAFE_NO_PAD.encode(h.to_ne_bytes())`: eight bytes encode to
/// eleven characters of the URL-safe alphabet. Which characters depends on
/// the machine's byte order, so only that is stated.
#[verifier::external_body]
fn encode_hash(h: u64) -> (res: String)
    ensures
        res@.len() == 11,
        forall|i: int| 0 <= i < res@.len() ==> url_safe_char(#[trigger] res@[i]),
{
    base64::Engine::encode(&base64::prelude::BASE64_URL_SAFE_NO_PAD, h.to_ne_bytes())
}

/// Decimal digits of a `u32` number are at most ten.
pub proof fn lemma_u32_digits_len(n: nat)
    requires
        n <= u32::MAX,
    ensures
        decimal_digits(n).len() <= 10,
{
    assert(pow10(10) == 10_000_000_000) by {
        reveal_with_fuel(pow10, 11);
    }
    lemma_digits_len_bound(n, 10);
}

/// `n < 10^k` (with `k >= 1`) has at most `k` decimal digits.
proof fn lemma_digits_len_bound(n: nat, k: nat)
    requires
        k >= 1,
        n < pow10(k),
    ensures
        decimal_digits(n).len() <= k,
    decreases k,
{
    if n >= 10 {
        assert(k >= 2) by {
            if k == 1 {
                assert(pow10(1) == 10 * pow10(0));
            }
        }
        assert(n / 10 < pow10((k - 1) as nat)) by {
            assert(pow10(k) == 10 * pow10((k - 1) as nat));
        }
        lemma_digits_len_bound(n / 10, (k - 1) as nat);
    }
}

/// Ten to the power `k`.
pub open spec fn pow10(k: nat) -> nat
    decreases k,
{
    if k == 0 {
        1
    } else {
        10 * pow10((k - 1) as nat)
    }
}

/// The name built from `prefix`, the identifier `id` and an encoded hash,
/// cut to [`SHM_NAME_LIMIT`] characters.
pub fn hashed_shm_path(prefix: &str, id: u32, encoded_hash: &str) -> (res: String)
    ensures
        res@ == truncated(hashed_name(prefix@, id, encoded_hash@), SHM_NAME_LIMIT as nat),
{
    let digits = u64_to_decimal(id as u64);
    let mut full: Vec<char> = chars_of(prefix);
    let d = chars_of(digits.as_str());
    let e = chars_of(encoded_hash);
    let mut extra: Vec<char> = Vec::new();
    let mut i: usize = 0;
    while i < d.len()
        invariant
            i <= d@.len(),
            extra@ == d@.take(i as int),
        decreases d@.len() - i,
    {
        extra.push(d[i]);
        assert(d@.take(i + 1) =~= d@.take(i as int).push(d@[i as int]));
        i = i + 1;
    }
    extra.push('-');
    let mut j: usize = 0;
    let ghost mid = extra@;
    while j < e.len()
        invariant
            j <= e@.len(),
            extra@ == mid + e@.take(j as int),
        decreases e@.len() - j,
    {
        extra.push(e[j]);
        assert(e@.take(j + 1) =~= e@.take(j as int).push(e@[j as int]));
        j = j + 1;
    }
    assert(d@.take(d@.len() as int) =~= d@);
    assert(e@.take(e@.len() as int) =~= e@);
    let ghost whole = prefix@ + decimal_digits(id as nat) + "-"@ + encoded_hash@;
    proof {
        reveal_strlit("-");
        assert(mid =~= decimal_digits(id as nat).push('-'));
        assert(full@ + extra@ =~= whole);
    }
    let mut res = String::new();
    let mut k: usize = 0;
    while k < SHM_NAME_LIMIT && (k < full.len() || k - full.len() < extra.len())
        invariant
            full@ + extra@ == whole,
            k <= SHM_NAME_LIMIT,
            k <= whole.len(),
            res@ == whole.take(k as int),
        decreases SHM_NAME_LIMIT - k,
    {
        let c = if k < full.len() {
            full[k]
        } else {
            extra[k - full.len()]
        };
        assert(c == whole[k as int]);
        push_char(&mut res, c);
        assert(whole.take(k + 1) =~= whole.take(k as int).push(c));
        k = k + 1;
    }
    proof {
        if whole.len() <= SHM_NAME_LIMIT {
            assert(whole.take(whole.len() as int) =~= whole);
        }
    }
    res
}

/// What the sidecar names its objects with a given prefix: a name that is
/// never longer than the limit, and where the whole encoded hash survives
/// the cut whenever prefix, identifier and hash fit.
pub proof fn lemma_hashed_name_fits(prefix: Seq<char>, id: u32, encoded_hash: Seq<char>)
    requires
        encoded_hash.len() == 11,
        prefix.len() <= 8,
    ensures
        truncated(hashed_name(prefix, id, encoded_hash), SHM_NAME_LIMIT as nat) == hashed_name(
            prefix,
            id,
            encoded_hash,
        ),
        hashed_name(prefix, id, encoded_hash).len() <= SHM_NAME_LIMIT,
{
    reveal_strlit("-");
    lemma_u32_digits_len(id as nat);
}

/// A name of a span stats concentrator object: `/ddspsc-{uid}-{hash}`, with
/// an encoded hash of eleven URL-safe characters.
pub open spec fn is_stats_shm_name(s: Seq<char>) -> bool {
    exists|id: u32, h: Seq<char>|
        #![trigger hashed_name(STATS_SHM_PREFIX@, id, h)]
        h.len() == 11 && (forall|i: int| 0 <= i < h.len() ==> url_safe_char(#[trigger] h[i]))
            && s == hashed_name(STATS_SHM_PREFIX@, id, h)
}

/// The object of the span stats concentrator of (env, version, service).
pub fn env_stats_shm_path(env: &str, version: &str, service: &str) -> (res: String)
    ensures
        is_stats_shm_name(res@),
        res@.len() <= SHM_NAME_LIMIT,
{
    let mut hasher = new_zwo_hasher();
    hash_str(&mut hasher, env);
    hash_str(&mut hasher, version);
    hash_str(&mut hasher, service);
    let hash = finish_hash(&hasher);
    let encoded = encode_hash(hash);
    let id = primary_sidecar_identifier();
    proof {
        reveal_strlit("/ddspsc-");
        lemma_hashed_name_fits(STATS_SHM_PREFIX@, id, encoded@);
    }
    hashed_shm_path(STATS_SHM_PREFIX, id, encoded.as_str())
}

/// The object of the telemetry client of (service, env).
pub fn path_for_telemetry(service: &str, env: &str) -> (res: String)
    ensures
        exists|id: u32, h: Seq<char>|
            #![trigger hashed_name(TELEMETRY_SHM_PREFIX@, id, h)]
            h.len() == 11 && (forall|i: int| 0 <= i < h.len() ==> url_safe_char(#[trigger] h[i]))
                && res@ == hashed_name(TELEMETRY_SHM_PREFIX@, id, h),
        res@.len() <= SHM_NAME_LIMIT,
{
    let mut hasher = new_zwo_hasher();
    hash_str(&mut hasher, service);
    hash_str(&mut hasher, env);
    let hash = finish_hash(&hasher);
    let encoded = encode_hash(hash);
    let id = primary_sidecar_identifier();
    proof {
        reveal_strlit("/ddtl");
        lemma_hashed_name_fits(TELEMETRY_SHM_PREFIX@, id, encoded@);
    }
    hashed_shm_path(TELEMETRY_SHM_PREFIX, id, encoded.as_str())
}

/// The object of the sidecar's rate limiter: the prefix and the identifier.
pub fn shm_limiter_path() -> (res: String)
    ensures
        exists|id: u32| res@ == LIMITER_SHM_PREFIX@ + decimal_digits(id as nat),
{
    let id = primary_sidecar_identifier();
    let mut res = String::new();
    res.append(LIMITER_SHM_PREFIX);
    let digits = u64_to_decimal(id as u64);
    res.append(digits.as_str());
    res
}

} // verus!
