//! Progress arithmetic for one download.
//!
//! Percentages are carried as integer hundredths of a percent (0 ..= 10000),
//! so `5732` stands for `57.32%`. When the server does not report a total
//! size the percentage is the fixed sentinel `0` throughout the download —
//! that is the one consistent policy this library implements for an unknown
//! total.

use vstd::prelude::*;
use crate::text::{dec_digits, digit_char, digit_str, u64_to_dec};

verus! {

/// The progress value, in hundredths of a percent, after `downloaded` of
/// `total` bytes. An unknown total is encoded as `total == 0` and pins the
/// value to `0`; a download that runs past the reported total is clamped
/// to `10000`.
pub open spec fn percent_hundredths_spec(total: u64, downloaded: u64) -> int {
    if total == 0 {
        0
    } else if downloaded >= total {
        10000
    } else {
        (downloaded * 10000) / (total as int)
    }
}

/// The progress value is always a valid percentage.
pub proof fn lemma_percent_in_range(total: u64, downloaded: u64)
    ensures
        0 <= percent_hundredths_spec(total, downloaded) <= 10000,
{
    if total != 0 && downloaded < total {
        vstd::arithmetic::div_mod::lemma_div_is_ordered(
            downloaded * 10000,
            total * 10000,
            total as int,
        );
        vstd::arithmetic::mul::lemma_mul_inequality(downloaded as int, total as int, 10000);
        vstd::arithmetic::div_mod::lemma_div_multiples_vanish(10000, total as int);
        assert((total as int) * 10000 == 10000 * (total as int)) by (nonlinear_arith);
        vstd::arithmetic::div_mod::lemma_div_pos_is_pos(downloaded * 10000, total as int);
    }
}

/// Progress never decreases as more bytes arrive: within one download the
/// emitted sequence of percentages is non-decreasing.
pub proof fn lemma_percent_monotone(total: u64, d1: u64, d2: u64)
    requires
        d1 <= d2,
    ensures
        percent_hundredths_spec(total, d1) <= percent_hundredths_spec(total, d2),
{
    lemma_percent_in_range(total, d1);
    lemma_percent_in_range(total, d2);
    if total != 0 && d1 < total && d2 < total {
        vstd::arithmetic::mul::lemma_mul_inequality(d1 as int, d2 as int, 10000);
        vstd::arithmetic::div_mod::lemma_div_is_ordered(d1 * 10000, d2 * 10000, total as int);
    }
}

/// Once exactly `total` bytes have arrived (and the total was known), the
/// progress value is exactly `10000`, that is `100.00%`.
pub proof fn lemma_percent_complete(total: u64)
    requires
        total > 0,
    ensures
        percent_hundredths_spec(total, total) == 10000,
{
}

/// The progress value, in hundredths of a percent, after `downloaded` of
/// `total` bytes.
pub fn percent_hundredths(total: u64, downloaded: u64) -> (r: u64)
    ensures
        r == percent_hundredths_spec(total, downloaded),
        r <= 10000,
{
    proof {
        lemma_percent_in_range(total, downloaded);
    }
    if total == 0 {
        0
    } else if downloaded >= total {
        10000
    } else {
        let p: u128 = ((downloaded as u128) * 10000) / (total as u128);
        p as u64
    }
}

/// The message text for a progress value: hundredths rendered with two
/// decimal places, `5732` as `57.32` and `10000` as `100.00`.
pub open spec fn percent_text_spec(h: nat) -> Seq<char> {
    dec_digits(h / 100) + seq!['.', digit_char((h % 100) / 10), digit_char(h % 10)]
}

/// Renders a progress value as its message text.
pub fn format_hundredths(h: u64) -> (r: String)
    ensures
        r@ == percent_text_spec(h as nat),
{
    let mut r = u64_to_dec(h / 100);
    r.append(".");
    r.append(digit_str(((h % 100) / 10) as u8));
    r.append(digit_str((h % 10) as u8));
    proof {
        reveal_strlit(".");
        assert(r@ =~= percent_text_spec(h as nat));
    }
    r
}

} // verus!
