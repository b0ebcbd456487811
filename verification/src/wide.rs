//! Decision logic for the wide-character host-name query used on Windows.
//!
//! The system query there takes no growable buffer, so a caller probes the
//! required size with a null buffer, allocates exactly that many zeroed
//! UTF-16 units, and calls again to fill them. The probe reports the length
//! including the trailing zero terminator; the fill call reports it without.
//! Every anomaly in that protocol is an unrecoverable defect, not an error
//! to hand back: the caller aborts on the refusing outcomes below.

use vstd::prelude::*;

verus! {

/// Index of the first zero unit in `s`, or `s.len()` if it holds none.
pub open spec fn first_zero(s: Seq<u16>) -> int
    decreases s.len(),
{
    if s.len() == 0 {
        0
    } else if s[0] == 0 {
        0
    } else {
        1 + first_zero(s.subrange(1, s.len() as int))
    }
}

proof fn lemma_first_zero_at(s: Seq<u16>, i: int)
    requires
        0 <= i <= s.len(),
        forall|j: int| 0 <= j < i ==> s[j] != 0,
        i < s.len() ==> s[i] == 0,
    ensures
        first_zero(s) == i,
    decreases s.len(),
{
    if s.len() == 0 {
    } else if s[0] == 0 {
        assert(i == 0);
    } else {
        assert(i > 0);
        let t = s.subrange(1, s.len() as int);
        assert(forall|j: int| 0 <= j < i - 1 ==> t[j] != 0);
        lemma_first_zero_at(t, i - 1);
    }
}

/// What the size-probe call's reported size leads to: a zeroed buffer of
/// exactly that many units, or nothing when the size is zero, which the
/// query's contract rules out and the caller treats as an unrecoverable
/// defect.
pub fn buffer_for_reported_size(reported_size: u32) -> (r: Option<Vec<u16>>)
    ensures
        r is Some <==> reported_size > 0,
        r matches Some(b) ==> b@.len() == reported_size
            && forall|i: int| 0 <= i < b@.len() ==> b@[i] == 0u16,
{
    if reported_size == 0 {
        None
    } else {
        let n: usize = reported_size as usize;
        let mut b: Vec<u16> = Vec::new();
        while b.len() < n
            invariant
                n == reported_size as usize,
                b@.len() <= n,
                forall|i: int| 0 <= i < b@.len() ==> b@[i] == 0u16,
            decreases n - b@.len(),
        {
            b.push(0u16);
        }
        Some(b)
    }
}

/// The prefix of `buffer` up to (not including) its first zero unit; the
/// whole buffer when it holds none.
pub fn trim_terminator(buffer: &Vec<u16>) -> (r: Vec<u16>)
    ensures
        r@ == buffer@.subrange(0, first_zero(buffer@)),
        forall|i: int| 0 <= i < r@.len() ==> r@[i] != 0u16,
{
    let mut i: usize = 0;
    while i < buffer.len() && buffer[i] != 0
        invariant
            i <= buffer.len(),
            forall|j: int| 0 <= j < i ==> buffer@[j] != 0u16,
        decreases buffer@.len() - i,
    {
        i = i + 1;
    }
    proof {
        lemma_first_zero_at(buffer@, i as int);
    }
    let mut r: Vec<u16> = Vec::new();
    let mut k: usize = 0;
    while k < i
        invariant
            k <= i <= buffer.len(),
            r@ == buffer@.subrange(0, k as int),
        decreases i - k,
    {
        r.push(buffer[k]);
        proof {
            assert(r@ =~= buffer@.subrange(0, k + 1));
        }
        k = k + 1;
    }
    r
}

/// What the fill call's raw results lead to. The refusing variants are the
/// unrecoverable defects of the protocol: the caller aborts on them rather
/// than retry.
#[derive(Debug, PartialEq, Eq)]
pub enum FillOutcome {
    /// The host name: the filled buffer up to its first zero unit.
    HostName(Vec<u16>),
    /// The fill call itself reported failure.
    CallFailed,
    /// The fill call reported a size other than one below the buffer's
    /// length: the host name changed length between the two calls.
    SizeChanged,
}

/// Judge the fill call's results: `call_succeeded` is whether the call
/// reported success, `buffer` what it filled, `reported_size` the size it
/// reported, which must be the buffer's length less the terminator.
pub fn decide_after_fill(call_succeeded: bool, buffer: &Vec<u16>, reported_size: u32) -> (d: FillOutcome)
    ensures
        d is CallFailed <==> !call_succeeded,
        d is SizeChanged <==> call_succeeded && reported_size as int != buffer@.len() - 1,
        d is HostName <==> call_succeeded && reported_size as int == buffer@.len() - 1,
        d matches FillOutcome::HostName(name) ==>
            name@ == buffer@.subrange(0, first_zero(buffer@))
            && forall|i: int| 0 <= i < name@.len() ==> name@[i] != 0u16,
{
    if !call_succeeded {
        FillOutcome::CallFailed
    } else if buffer.len() >= 1 && reported_size as usize == buffer.len() - 1 {
        FillOutcome::HostName(trim_terminator(buffer))
    } else {
        FillOutcome::SizeChanged
    }
}

} // verus!
