//! Resolving a relative publish time, such as "há 5 minutos", to a point in time.

use vstd::prelude::*;
use crate::text::{chars, decimal_i64, parse_i64, same_text, spec_split, split, starts_with};
use crate::types::{current_time, Timestamp};

verus! {

/// How many seconds one unit lasts, by the word that names it. A month counts as
/// 30 days and a year as 360. A word is matched by its stem, so plurals are taken
/// too; the month is matched by its two whole forms.
pub open spec fn unit_seconds(word: Seq<char>) -> Option<int> {
    if "segundo"@.is_prefix_of(word) {
        Some(1)
    } else if "minuto"@.is_prefix_of(word) {
        Some(60)
    } else if "hora"@.is_prefix_of(word) {
        Some(3_600)
    } else if "dia"@.is_prefix_of(word) {
        Some(86_400)
    } else if word == "mês"@ || word == "meses"@ {
        Some(2_592_000)
    } else if "ano"@.is_prefix_of(word) {
        Some(31_104_000)
    } else {
        None
    }
}

/// The time that `text` names, seen from `now`. The text is cut at single spaces;
/// its second piece is the amount and its third the unit, and the result lies that
/// long before `now`. `None` where there are fewer than three pieces, the amount is
/// no integer, the unit is unknown, or the result is out of a timestamp's reach.
pub open spec fn spec_resolve(text: Seq<char>, now: Timestamp) -> Option<Timestamp> {
    let pieces = spec_split(text, ' ');
    if pieces.len() < 3 {
        None
    } else {
        match (decimal_i64(pieces[1]), unit_seconds(pieces[2])) {
            (Some(amount), Some(unit)) => {
                let secs = now.secs - amount * unit;
                if i64::MIN <= secs <= i64::MAX {
                    Some(Timestamp { secs: secs as i64, nanos: now.nanos })
                } else {
                    None
                }
            },
            _ => None,
        }
    }
}

/// How many seconds the unit named by `word` lasts.
pub fn seconds_per_unit(word: &Vec<char>) -> (r: Option<i64>)
    ensures
        match r {
            Some(n) => unit_seconds(word@) == Some(n as int),
            None => unit_seconds(word@) is None,
        },
{
    if starts_with(word, &chars("segundo")) {
        Some(1)
    } else if starts_with(word, &chars("minuto")) {
        Some(60)
    } else if starts_with(word, &chars("hora")) {
        Some(3_600)
    } else if starts_with(word, &chars("dia")) {
        Some(86_400)
    } else if same_text(word, &chars("mês")) || same_text(word, &chars("meses")) {
        Some(2_592_000)
    } else if starts_with(word, &chars("ano")) {
        Some(31_104_000)
    } else {
        None
    }
}

/// Resolves a relative publish time, seen from `now`.
pub fn resolve_time(text: &str, now: Timestamp) -> (r: Option<Timestamp>)
    ensures
        r == spec_resolve(text@, now),
{
    let pieces = split(&chars(text), ' ');
    if pieces.len() < 3 {
        return None;
    }
    match (parse_i64(&pieces[1]), seconds_per_unit(&pieces[2])) {
        (Some(amount), Some(unit)) => {
            assert(-0x8000_0000_0000_0000 * 31_104_000 <= amount * unit <= 0x8000_0000_0000_0000
                * 31_104_000) by (nonlinear_arith)
                requires
                    -0x8000_0000_0000_0000 <= amount < 0x8000_0000_0000_0000,
                    0 < unit <= 31_104_000,
            ;
            let span: i128 = (amount as i128) * (unit as i128);
            let secs: i128 = now.secs as i128 - span;
            if secs < i64::MIN as i128 || secs > i64::MAX as i128 {
                None
            } else {
                Some(Timestamp { secs: secs as i64, nanos: now.nanos })
            }
        },
        _ => None,
    }
}

/// Resolves a relative publish time, seen from the current time, which is not
/// before the epoch.
pub fn parse_time_published(input: &str) -> (r: Option<Timestamp>)
    ensures
        exists|now: Timestamp| now.secs >= 0 && r == #[trigger] spec_resolve(input@, now),
{
    let now = current_time();
    resolve_time(input, now)
}

} // verus!
