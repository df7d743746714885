//! The rate-limit snapshot that responses report in their headers.

use vstd::prelude::*;

verus! {

/// The quota that the panel last reported.
#[derive(Clone, Copy, Debug, PartialEq, Eq, Structural)]
pub struct RateLimits {
    /// Requests allowed per window.
    pub limit: u32,
    /// Requests left in the current window.
    pub remaining: u32,
}

pub open spec fn all_digits(s: Seq<u8>) -> bool {
    forall|i: int| 0 <= i < s.len() ==> 48 <= #[trigger] s[i] <= 57
}

pub open spec fn digits_value(s: Seq<u8>) -> int
    decreases s.len(),
{
    if s.len() == 0 {
        0
    } else {
        digits_value(s.drop_last()) * 10 + (s.last() - 48)
    }
}

/// A header value that is a decimal number fitting in 32 bits.
pub open spec fn header_number(s: Seq<u8>) -> Option<u32> {
    if s.len() > 0 && all_digits(s) && digits_value(s) <= u32::MAX {
        Some(digits_value(s) as u32)
    } else {
        None
    }
}

pub open spec fn header_limits(limit: Option<Seq<u8>>, remaining: Option<Seq<u8>>) -> Option<RateLimits> {
    match (limit, remaining) {
        (Some(l), Some(r)) => match (header_number(l), header_number(r)) {
            (Some(l), Some(r)) => Some(RateLimits { limit: l, remaining: r }),
            _ => None,
        },
        _ => None,
    }
}

pub open spec fn bytes_view(o: Option<&[u8]>) -> Option<Seq<u8>> {
    match o {
        Some(b) => Some(b@),
        None => None,
    }
}

/// Reads a header value as a decimal number.
pub fn parse_header_number(s: &[u8]) -> (r: Option<u32>)
    ensures
        r == header_number(s@),
{
    if s.len() == 0 {
        return None;
    }
    let mut acc: u64 = 0;
    let mut over = false;
    let mut i: usize = 0;
    while i < s.len()
        invariant
            0 <= i <= s@.len(),
            all_digits(s@.subrange(0, i as int)),
            digits_value(s@.subrange(0, i as int)) >= 0,
            !over ==> acc as int == digits_value(s@.subrange(0, i as int)),
            !over ==> acc <= u32::MAX,
            over ==> digits_value(s@.subrange(0, i as int)) > u32::MAX,
        decreases s.len() - i,
    {
        let b = s[i];
        if b < 48 || b > 57 {
            assert(!all_digits(s@)) by {
                assert(s@[i as int] == b);
            }
            return None;
        }
        proof {
            let p = s@.subrange(0, i + 1);
            assert(p.drop_last() =~= s@.subrange(0, i as int));
            assert(p.last() == b);
            assert(digits_value(p) == digits_value(s@.subrange(0, i as int)) * 10 + (b - 48));
        }
        if !over {
            acc = acc * 10 + (b - 48) as u64;
            if acc > u32::MAX as u64 {
                over = true;
            }
        }
        i += 1;
        proof {
            let p = s@.subrange(0, i as int);
            assert forall|k: int| 0 <= k < p.len() implies 48 <= #[trigger] p[k] <= 57 by {
                if k < i - 1 {
                    assert(p[k] == s@.subrange(0, i - 1)[k]);
                }
            }
            assert(digits_value(p.drop_last()) >= 0);
            assert(digits_value(p.drop_last()) * 10 >= digits_value(p.drop_last())) by (nonlinear_arith)
                requires
                    digits_value(p.drop_last()) >= 0,
            ;
        }
    }
    assert(s@.subrange(0, i as int) =~= s@);
    if over {
        None
    } else {
        Some(acc as u32)
    }
}

/// The quota that the two rate-limit headers give, where both are present
/// and both are numbers.
pub fn rate_limits_from_headers(limit: Option<&[u8]>, remaining: Option<&[u8]>) -> (r: Option<RateLimits>)
    ensures
        r == header_limits(bytes_view(limit), bytes_view(remaining)),
{
    match (limit, remaining) {
        (Some(l), Some(r)) => match (parse_header_number(l), parse_header_number(r)) {
            (Some(l), Some(r)) => Some(RateLimits { limit: l, remaining: r }),
            _ => None,
        },
        _ => None,
    }
}

/// The snapshot to keep after a response: the quota that its headers give,
/// or else the one held before.
pub fn next_rate_limits(prior: Option<RateLimits>, limit: Option<&[u8]>, remaining: Option<&[u8]>) -> (r: Option<
    RateLimits,
>)
    ensures
        header_limits(bytes_view(limit), bytes_view(remaining)) matches Some(now) ==> r == Some(now),
        header_limits(bytes_view(limit), bytes_view(remaining)) is None ==> r == prior,
{
    match rate_limits_from_headers(limit, remaining) {
        Some(now) => Some(now),
        None => prior,
    }
}

} // verus!
