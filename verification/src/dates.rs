use vstd::prelude::*;

verus! {

/// What the ISO-8601 parser yields for a text: `None` where the text is not
/// a valid ISO-8601 datetime, else whole seconds since the Unix epoch paired
/// with the sub-second microsecond part.
pub uninterp spec fn iso_datetime_of(s: Seq<char>) -> Option<(i64, u32)>;

/// Relies on time's `OffsetDateTime::parse` with the default ISO-8601
/// description: parsing is a pure function of the text, and a parsed
/// instant's local fields lie within the time crate's representable years
/// while its UTC offset lies within ±25:59:59, which bounds the epoch
/// seconds by the year range widened by 93 599 either way; the microsecond
/// part is below one million by construction.
#[verifier::external_body]
pub(crate) fn parse_iso_datetime(s: &str) -> (r: Option<(i64, u32)>)
    ensures
        r == iso_datetime_of(s@),
        r matches Some(t) ==> -377_705_210_399 <= t.0 <= 253_402_394_398 && t.1 < 1_000_000,
{
    match time::OffsetDateTime::parse(s, &time::format_description::well_known::Iso8601::DEFAULT) {
        Ok(d) => Some((d.unix_timestamp(), d.microsecond())),
        Err(_) => None,
    }
}

} // verus!
