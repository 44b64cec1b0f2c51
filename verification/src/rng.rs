use crate::text::ipv4_text;
use fake::Fake;
use rand::seq::SliceRandom;
use rand::Rng;
use rand::SeedableRng;
use rand::distributions::WeightedIndex;
use rand::rngs::StdRng;
use vstd::prelude::*;

verus! {

// The deterministic random stream every table generator draws from. The
// stream state is opaque to the verifier: nothing is assumed about which
// values come out, only about their ranges, so all proofs hold for every
// possible draw.
#[verifier::external_type_specification]
#[verifier::external_body]
pub struct ExStdRng(StdRng);

/// Relies on rand's `SeedableRng::seed_from_u64`: derives one stream from a
/// word-sized seed. Nothing is assumed about the stream's values.
#[verifier::external_body]
pub(crate) fn rng_from_seed(seed: u64) -> StdRng {
    StdRng::seed_from_u64(seed)
}

/// Relies on rand's `Rng::gen_range` over a half-open `i32` range: the result
/// is uniform in `[lo, hi)`; the call panics on an empty range, which the
/// precondition rules out.
#[verifier::external_body]
pub(crate) fn gen_range_i32(rng: &mut StdRng, lo: i32, hi: i32) -> (r: i32)
    requires
        lo < hi,
    ensures
        lo <= r < hi,
{
    rng.gen_range(lo..hi)
}

/// Relies on rand's `Rng::gen_range` over a half-open `i64` range: the result
/// is uniform in `[lo, hi)`; the call panics on an empty range, which the
/// precondition rules out.
#[verifier::external_body]
pub(crate) fn gen_range_i64(rng: &mut StdRng, lo: i64, hi: i64) -> (r: i64)
    requires
        lo < hi,
    ensures
        lo <= r < hi,
{
    rng.gen_range(lo..hi)
}

/// Relies on rand's `Rng::gen_range` over an inclusive `i32` range: the
/// result is uniform in `[lo, hi]`; the call panics on an empty range, which
/// the precondition rules out.
#[verifier::external_body]
pub(crate) fn gen_range_i32_inclusive(rng: &mut StdRng, lo: i32, hi: i32) -> (r: i32)
    requires
        lo <= hi,
    ensures
        lo <= r <= hi,
{
    rng.gen_range(lo..=hi)
}

/// Relies on rand's `SliceRandom::choose`: `None` exactly on an empty slice,
/// otherwise some element of the slice.
#[verifier::external_body]
pub(crate) fn choose_str<'a>(rng: &mut StdRng, items: &'a [&'a str]) -> (r: Option<&'a str>)
    ensures
        r is Some <==> items@.len() > 0,
        r matches Some(s) ==> exists|i: int| 0 <= i < items@.len() && s@ == items@[i]@,
{
    items.choose(rng).copied()
}

/// Holds rand's weighted categorical distribution over `u64` weights, so a
/// built distribution can be kept and sampled from verified code. The
/// verifier refuses the distribution type's own generic bounds, so the field
/// stays behind an opaque struct.
#[verifier::external_body]
pub struct WeightedU64 {
    dist: WeightedIndex<u64>,
}

/// The weight vector a `WeightedU64` was built from.
pub uninterp spec fn wi_weights(d: WeightedU64) -> Seq<u64>;

/// Relies on rand's `WeightedIndex::new`: it succeeds exactly when the
/// weight list is non-empty with a positive total, which for unsigned
/// weights means some weight is positive. Summing the weights panics on
/// overflow above `u64::MAX`, which the preconditions' bounds on the list's
/// length and entries rule out.
#[verifier::external_body]
pub(crate) fn weighted_index_new(weights: &Vec<u64>) -> (r: Option<WeightedU64>)
    requires
        weights@.len() <= 1024,
        forall|i: int| 0 <= i < weights@.len() ==> #[trigger] weights@[i] <= 0xFFFF_FFFF,
    ensures
        r is Some <==> (weights@.len() > 0 && exists|i: int|
            0 <= i < weights@.len() && #[trigger] weights@[i] > 0),
        r matches Some(d) ==> wi_weights(d) == weights@,
{
    WeightedIndex::new(weights).ok().map(|dist| WeightedU64 { dist })
}

/// Relies on rand's `Distribution::sample` for `WeightedIndex`: the result
/// indexes the weight vector, each index drawn with probability proportional
/// to its weight.
#[verifier::external_body]
pub(crate) fn weighted_sample(
    d: &WeightedU64,
    rng: &mut StdRng,
) -> (r: usize)
    requires
        wi_weights(*d).len() >= 1,
    ensures
        r < wi_weights(*d).len(),
{
    rand::distributions::Distribution::sample(&d.dist, rng)
}

/// Relies on fake's `Username` faker: a synthetic user name.
#[verifier::external_body]
pub(crate) fn fake_username(rng: &mut StdRng) -> String {
    fake::faker::internet::en::Username().fake_with_rng(rng)
}

/// Relies on fake's `FreeEmail` faker: a synthetic e-mail address.
#[verifier::external_body]
pub(crate) fn fake_free_email(rng: &mut StdRng) -> String {
    fake::faker::internet::en::FreeEmail().fake_with_rng(rng)
}

/// Relies on fake's `UserAgent` faker: a synthetic browser user-agent line.
#[verifier::external_body]
pub(crate) fn fake_user_agent(rng: &mut StdRng) -> String {
    fake::faker::internet::en::UserAgent().fake_with_rng(rng)
}

/// Relies on fake's `DomainSuffix` faker: a synthetic top-level domain.
#[verifier::external_body]
pub(crate) fn fake_domain_suffix(rng: &mut StdRng) -> String {
    fake::faker::internet::en::DomainSuffix().fake_with_rng(rng)
}

/// Relies on std's integer formatting: renders four octets as a dotted
/// IPv4 address text, each octet as its unpadded decimal digits.
#[verifier::external_body]
pub(crate) fn format_ipv4(a: u8, b: u8, c: u8, d: u8) -> (r: String)
    ensures
        r@ == ipv4_text(a as int, b as int, c as int, d as int),
{
    format!("{}.{}.{}.{}", a, b, c, d)
}

/// Relies on fake's `Sentence` faker: a short phrase of `[lo, hi)` words,
/// always ending in a full stop and so never empty; the word count draw
/// panics on an empty range, which the precondition rules out.
#[verifier::external_body]
pub(crate) fn fake_sentence(rng: &mut StdRng, lo: usize, hi: usize) -> (r: String)
    requires
        lo < hi,
    ensures
        r@.len() >= 1,
{
    fake::faker::lorem::en::Sentence(lo..hi).fake_with_rng(rng)
}

/// Relies on fake's `Dummy<Faker>` for `i32`: an arbitrary 32-bit integer.
#[verifier::external_body]
pub(crate) fn fake_i32(rng: &mut StdRng) -> i32 {
    fake::Faker.fake_with_rng::<i32, StdRng>(rng)
}

/// Relies on fake's `DateTimeBefore` faker over the time crate: the result is
/// the anchor instant minus a whole number of minutes in `[1, 1_000_000)`.
/// The anchor is given and returned as whole seconds since the epoch plus a
/// sub-second microsecond part. The preconditions keep the anchor
/// representable: at most the time crate's maximum epoch second, and one
/// million minutes above its minimum so the backward step cannot fall out of
/// range; outside them the rebuild or the subtraction would panic.
#[verifier::external_body]
pub(crate) fn fake_datetime_before(rng: &mut StdRng, secs: i64, micros: u32) -> (r: (i64, u32))
    requires
        -377_645_116_800 <= secs <= 253_402_300_799,
        micros < 1_000_000,
    ensures
        r.1 < 1_000_000,
        r.0 * 1_000_000 + r.1 <= secs * 1_000_000 + micros - 60_000_000,
        r.0 * 1_000_000 + r.1 >= secs * 1_000_000 + micros - 59_999_940_000_000,
{
    let anchor = time::OffsetDateTime::from_unix_timestamp(secs)
        .unwrap()
        .replace_microsecond(micros)
        .unwrap();
    let d: time::OffsetDateTime = fake::faker::time::en::DateTimeBefore(anchor).fake_with_rng(rng);
    (d.unix_timestamp(), d.microsecond())
}

} // verus!
