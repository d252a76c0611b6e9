use vstd::prelude::*;
use vstd::string::StringExecFns;
use crate::parsing::{rfc3339_timestamp_nanos, parse_rfc3339_nanos, is_valid_url, url_parses};
use crate::marketplace::constants::{PRIMARY_LISTING_MIN_DURATION_NANO, MAX_LISTING_TITLE_LEN};
use crate::marketplace::errors::MarketError;

verus! {

broadcast use vstd::string::to_string_from_display_ensures_for_str;

/// The text of an optional string.
pub open spec fn opt_view(o: Option<String>) -> Option<Seq<char>> {
    match o {
        Some(s) => Some(s@),
        None => None,
    }
}

/// When a listing runs, from its optional start and end dates at time `now`:
/// a missing start means now; a start must not lie in the past; an end, if
/// `end_not_past`, must not lie in the past; the listing must last at least
/// an hour, and at most `max_duration` when that is given; a missing end is
/// refused when `end_required`.
pub open spec fn listing_schedule(
    start: Option<Seq<char>>,
    end: Option<Seq<char>>,
    now: i64,
    end_not_past: bool,
    max_duration: Option<i64>,
    end_required: bool,
) -> Result<(i64, Option<i64>), MarketError> {
    let s: Result<i64, MarketError> = match start {
        None => Ok(now),
        Some(t) => match rfc3339_timestamp_nanos(t) {
            None => Err(MarketError::WrongDateFormat),
            Some(ts) => if ts >= now {
                Ok(ts)
            } else {
                Err(MarketError::StartDateInThePast)
            },
        },
    };
    match s {
        Err(e) => Err(e),
        Ok(st) => match end {
            None => if end_required {
                Err(MarketError::EndDateRequired)
            } else {
                Ok((st, None))
            },
            Some(t) => match rfc3339_timestamp_nanos(t) {
                None => Err(MarketError::WrongDateFormat),
                Some(et) => if end_not_past && et < now {
                    Err(MarketError::EndDateInThePast)
                } else if et - st < i64::MIN {
                    Err(MarketError::ArithmeticOverflow)
                } else if et - st < PRIMARY_LISTING_MIN_DURATION_NANO {
                    Err(MarketError::DurationTooShort)
                } else if max_duration matches Some(m) && et - st > m {
                    Err(MarketError::DurationTooLong)
                } else {
                    Ok((st, Some(et)))
                },
            },
        },
    }
}

/// Computes [`listing_schedule`].
pub fn compute_schedule(
    start: &Option<String>,
    end: &Option<String>,
    now: i64,
    end_not_past: bool,
    max_duration: Option<i64>,
    end_required: bool,
) -> (r: Result<(i64, Option<i64>), MarketError>)
    requires
        now >= 0,
    ensures
        r == listing_schedule(opt_view(*start), opt_view(*end), now, end_not_past, max_duration, end_required),
{
    let st = match start {
        None => now,
        Some(t) => match parse_rfc3339_nanos(t.as_str()) {
            None => {
                return Err(MarketError::WrongDateFormat);
            },
            Some(ts) => {
                if ts >= now {
                    ts
                } else {
                    return Err(MarketError::StartDateInThePast);
                }
            },
        },
    };
    match end {
        None => {
            if end_required {
                Err(MarketError::EndDateRequired)
            } else {
                Ok((st, None))
            }
        },
        Some(t) => match parse_rfc3339_nanos(t.as_str()) {
            None => Err(MarketError::WrongDateFormat),
            Some(et) => {
                if end_not_past && et < now {
                    return Err(MarketError::EndDateInThePast);
                }
                let duration = match et.checked_sub(st) {
                    Some(d) => d,
                    None => {
                        return Err(MarketError::ArithmeticOverflow);
                    },
                };
                if duration < PRIMARY_LISTING_MIN_DURATION_NANO {
                    return Err(MarketError::DurationTooShort);
                }
                if let Some(m) = max_duration {
                    if duration > m {
                        return Err(MarketError::DurationTooLong);
                    }
                }
                Ok((st, Some(et)))
            },
        },
    }
}

/// The length in bytes of a text, as `str::len` counts it.
pub open spec fn byte_len(s: Seq<char>) -> usize {
    vstd::utf8::encode_utf8(s).len() as usize
}

/// Checks the title length and the media URL of a new listing.
pub open spec fn title_and_media_check(title: Seq<char>, media: Seq<char>) -> Option<MarketError> {
    if byte_len(title) > MAX_LISTING_TITLE_LEN {
        Some(MarketError::TitleTooLong)
    } else if !url_parses(media) {
        Some(MarketError::InvalidMediaUrl)
    } else {
        None
    }
}

/// Checks the title and media URL of a new listing.
pub fn check_title_and_media(title: &String, media: &String) -> (r: Option<MarketError>)
    ensures
        r == title_and_media_check(title@, media@),
{
    if title.as_str().len() > MAX_LISTING_TITLE_LEN {
        return Some(MarketError::TitleTooLong);
    }
    if !is_valid_url(media.as_str()) {
        return Some(MarketError::InvalidMediaUrl);
    }
    None
}

/// The account `<prefix><account>`, such as the marketplace's shared NFT
/// contract `nft.<marketplace>` or its fee account `fees.<marketplace>`.
pub fn sub_account(prefix: &str, account: &String) -> (s: String)
    ensures
        s@ == prefix@ + account@,
{
    let mut s = prefix.to_string();
    s.append(account.as_str());
    s
}

/// The length in bytes of a text, as a `u64`.
pub fn text_bytes(s: &str) -> (n: u64)
    ensures
        n == byte_len(s@),
{
    s.len() as u64
}

} // verus!
