//! Choosing one stream configuration out of what a device reports.
use vstd::prelude::*;
use crate::config::{AudioError, BufferSizePolicy, CandidateConfig, NegotiatedConfig, SampleFormat};

verus! {

broadcast use vstd::seq_lib::group_to_multiset_ensures;

/// Sample format the capture stream aims for.
pub const TARGET_FORMAT: SampleFormat = SampleFormat::Int16;

/// Sample rate the capture stream aims for, in samples per second.
pub const TARGET_SAMPLE_RATE: u32 = 48000;

/// Bytes in one sample of the target format.
pub const TARGET_BYTES_PER_SAMPLE: u8 = 2;

/// Divisor of the latency budget: one second over 25 is about 40 ms.
pub const LATENCY_DIVISOR: u32 = 25;

/// 0 for a candidate in the target format, 1 for any other.
pub open spec fn format_group(c: CandidateConfig) -> int {
    if c.format == TARGET_FORMAT {
        0
    } else {
        1
    }
}

/// `a` may stand before `b` in a ranking: its format is preferred, or equally
/// preferred with no more channels.
pub open spec fn ranks_no_later(a: CandidateConfig, b: CandidateConfig) -> bool {
    format_group(a) < format_group(b) || (format_group(a) == format_group(b) && a.channels
        <= b.channels)
}

/// `a` must stand before `b` in a ranking.
pub open spec fn ranks_before(a: CandidateConfig, b: CandidateConfig) -> bool {
    !ranks_no_later(b, a)
}

/// `s` inserted after every element that `x` does not rank before.
pub open spec fn insert_ranked(s: Seq<CandidateConfig>, x: CandidateConfig) -> Seq<
    CandidateConfig,
>
    decreases s.len(),
{
    if s.len() == 0 {
        seq![x]
    } else if ranks_before(x, s.last()) {
        insert_ranked(s.drop_last(), x).push(s.last())
    } else {
        s.push(x)
    }
}

/// The stable ranking of `s`: target format first, then by ascending
/// channel count; candidates that tie keep their order.
pub open spec fn ranked(s: Seq<CandidateConfig>) -> Seq<CandidateConfig>
    decreases s.len(),
{
    if s.len() == 0 {
        s
    } else {
        insert_ranked(ranked(s.drop_last()), s.last())
    }
}

/// Where `insert_ranked` puts `x`: after the last element that `x` does not
/// rank before.
pub open spec fn insert_position(s: Seq<CandidateConfig>, x: CandidateConfig) -> int
    decreases s.len(),
{
    if s.len() == 0 {
        0
    } else if ranks_before(x, s.last()) {
        insert_position(s.drop_last(), x)
    } else {
        s.len() as int
    }
}

proof fn lemma_insert_position(s: Seq<CandidateConfig>, x: CandidateConfig)
    ensures
        0 <= insert_position(s, x) <= s.len(),
        forall|k: int|
            insert_position(s, x) <= k < s.len() ==> ranks_before(x, #[trigger] s[k]),
        insert_position(s, x) > 0 ==> !ranks_before(x, s[insert_position(s, x) - 1]),
    decreases s.len(),
{
    if s.len() > 0 && ranks_before(x, s.last()) {
        let t = s.drop_last();
        lemma_insert_position(t, x);
        assert forall|k: int| insert_position(s, x) <= k < s.len() implies ranks_before(
            x,
            #[trigger] s[k],
        ) by {
            if k < t.len() {
                assert(s[k] == t[k]);
            }
        }
        if insert_position(s, x) > 0 {
            assert(s[insert_position(s, x) - 1] == t[insert_position(s, x) - 1]);
        }
    }
}

/// Inserting at any place that splits `s` into what `x` does not rank before
/// and what it does is what `insert_ranked` does.
proof fn lemma_insert_ranked_at(s: Seq<CandidateConfig>, x: CandidateConfig, p: int)
    requires
        0 <= p <= s.len(),
        forall|k: int| p <= k < s.len() ==> ranks_before(x, #[trigger] s[k]),
        p > 0 ==> !ranks_before(x, s[p - 1]),
    ensures
        insert_ranked(s, x) == s.insert(p, x),
    decreases s.len(),
{
    if s.len() == 0 {
        assert(s.insert(p, x) =~= seq![x]);
    } else if ranks_before(x, s.last()) {
        assert(p < s.len());
        let t = s.drop_last();
        assert forall|k: int| p <= k < t.len() implies ranks_before(x, #[trigger] t[k]) by {
            assert(t[k] == s[k]);
        }
        lemma_insert_ranked_at(t, x, p);
        assert(t.insert(p, x).push(s.last()) =~= s.insert(p, x));
    } else {
        assert(p == s.len());
        assert(s.push(x) =~= s.insert(p, x));
    }
}

/// Every element of a sequence may stand no later than every element after it.
pub open spec fn is_ranked(s: Seq<CandidateConfig>) -> bool {
    forall|i: int, j: int| 0 <= i < j < s.len() ==> ranks_no_later(#[trigger] s[i], #[trigger] s[j])
}

proof fn lemma_insert_ranked_keeps_order(s: Seq<CandidateConfig>, x: CandidateConfig)
    requires
        is_ranked(s),
    ensures
        is_ranked(insert_ranked(s, x)),
        insert_ranked(s, x).to_multiset() == s.to_multiset().insert(x),
{
    lemma_insert_position(s, x);
    let p = insert_position(s, x);
    lemma_insert_ranked_at(s, x, p);
    let t = s.insert(p, x);
    vstd::seq_lib::to_multiset_insert(s, p, x);
    assert forall|i: int, j: int| 0 <= i < j < t.len() implies ranks_no_later(
        #[trigger] t[i],
        #[trigger] t[j],
    ) by {
        if j < p {
            assert(t[i] == s[i] && t[j] == s[j]);
        } else if i > p {
            assert(t[i] == s[i - 1] && t[j] == s[j - 1]);
        } else if i == p {
            assert(t[j] == s[j - 1]);
        } else if j == p {
            assert(t[i] == s[i]);
            if i < p - 1 {
                assert(ranks_no_later(s[i], s[p - 1]));
            }
        } else {
            assert(t[i] == s[i] && t[j] == s[j - 1]);
        }
    }
}

/// Ranking keeps exactly the given candidates, and after it every candidate
/// in the target format precedes every other one, and within each of the two
/// groups channel counts never decrease.
pub proof fn lemma_ranked_order(s: Seq<CandidateConfig>)
    ensures
        ranked(s).to_multiset() == s.to_multiset(),
        forall|i: int, j: int|
            0 <= i < ranked(s).len() && 0 <= j < ranked(s).len() && (#[trigger] ranked(s)[i]).format
                == TARGET_FORMAT && (#[trigger] ranked(s)[j]).format != TARGET_FORMAT ==> i < j,
        forall|i: int, j: int|
            0 <= i < j < ranked(s).len() && format_group(#[trigger] ranked(s)[i]) == format_group(
                #[trigger] ranked(s)[j],
            ) ==> ranked(s)[i].channels <= ranked(s)[j].channels,
    decreases s.len(),
{
    lemma_ranked_is_ranked(s);
    let r = ranked(s);
    assert forall|i: int, j: int|
        0 <= i < r.len() && 0 <= j < r.len() && (#[trigger] r[i]).format == TARGET_FORMAT && (
        #[trigger] r[j]).format != TARGET_FORMAT implies i < j by {
        if j < i {
            assert(ranks_no_later(r[j], r[i]));
        }
    }
}

proof fn lemma_ranked_is_ranked(s: Seq<CandidateConfig>)
    ensures
        is_ranked(ranked(s)),
        ranked(s).to_multiset() == s.to_multiset(),
    decreases s.len(),
{
    if s.len() > 0 {
        lemma_ranked_is_ranked(s.drop_last());
        lemma_insert_ranked_keeps_order(ranked(s.drop_last()), s.last());
        assert(s.drop_last().push(s.last()) =~= s);
    }
}

/// The candidates in ranking order.
pub fn rank_candidates(candidates: Vec<CandidateConfig>) -> (r: Vec<CandidateConfig>)
    ensures
        r@ == ranked(candidates@),
        r@.to_multiset() == candidates@.to_multiset(),
        is_ranked(r@),
{
    proof {
        lemma_ranked_is_ranked(candidates@);
    }
    let n = candidates.len();
    let mut out: Vec<CandidateConfig> = Vec::with_capacity(n);
    let mut i: usize = 0;
    while i < n
        invariant
            n == candidates@.len(),
            i <= n,
            out@ == ranked(candidates@.subrange(0, i as int)),
            out@.len() == i,
        decreases n - i,
    {
        proof {
            lemma_ranked_is_ranked(candidates@.subrange(0, i as int));
        }
        let x = candidates[i];
        let mut p: usize = out.len();
        while p > 0 && precedes(&x, &out[p - 1])
            invariant
                p <= out@.len(),
                forall|k: int| p <= k < out@.len() ==> ranks_before(x, #[trigger] out@[k]),
            decreases p,
        {
            p = p - 1;
        }
        proof {
            lemma_insert_ranked_at(out@, x, p as int);
            assert(candidates@.subrange(0, i + 1).drop_last() =~= candidates@.subrange(0, i as int));
        }
        out.insert(p, x);
        i = i + 1;
    }
    assert(candidates@.subrange(0, n as int) =~= candidates@);
    out
}

/// Whether `a` must stand before `b` in a ranking.
pub fn precedes(a: &CandidateConfig, b: &CandidateConfig) -> (r: bool)
    ensures
        r == ranks_before(*a, *b),
{
    let ga: u8 = if a.format == TARGET_FORMAT { 0 } else { 1 };
    let gb: u8 = if b.format == TARGET_FORMAT { 0 } else { 1 };
    ga < gb || (ga == gb && a.channels < b.channels)
}

/// `v` brought into `[lo, hi]`: `lo` below it, `hi` above it.
pub open spec fn clamp(v: int, lo: int, hi: int) -> int {
    if v < lo {
        lo
    } else if v > hi {
        hi
    } else {
        v
    }
}

/// `target` clamped into the sample-rate range `[min_rate, max_rate]`.
pub fn resolve_sample_rate(target: u32, min_rate: u32, max_rate: u32) -> (r: u32)
    ensures
        r == clamp(target as int, min_rate as int, max_rate as int),
        min_rate <= max_rate ==> min_rate <= r <= max_rate,
{
    if target < min_rate {
        min_rate
    } else if target > max_rate {
        max_rate
    } else {
        target
    }
}

/// Frames of a buffer that holds `1 / divisor` of a second of audio, counted
/// as `rate * channels * bytes_per_sample / divisor`.
pub open spec fn buffer_frames_spec(rate: u32, channels: u16, bytes_per_sample: u8, divisor: u32) -> int
    recommends
        divisor > 0,
{
    (rate as int) * (channels as int) * (bytes_per_sample as int) / (divisor as int)
}

/// `rate * channels * bytes_per_sample / divisor`, the latency-bounded buffer
/// size before the device's constraint is applied.
pub fn buffer_frames(rate: u32, channels: u16, bytes_per_sample: u8, divisor: u32) -> (r: u64)
    requires
        divisor > 0,
    ensures
        r == buffer_frames_spec(rate, channels, bytes_per_sample, divisor),
{
    let a: u64 = rate as u64;
    let b: u64 = channels as u64;
    let c: u64 = bytes_per_sample as u64;
    assert(a * b <= 0xffff_ffff * 0xffff) by (nonlinear_arith)
        requires
            a <= 0xffff_ffff,
            b <= 0xffff,
    ;
    let ab = a * b;
    assert(ab * c <= 0xffff_ffff * 0xffff * 0xff) by (nonlinear_arith)
        requires
            ab <= 0xffff_ffff * 0xffff,
            c <= 0xff,
    ;
    ab * c / (divisor as u64)
}

/// The buffer size requested for a computed size under a device's policy: a
/// range clamps it, otherwise it is requested as it is.
pub open spec fn resolved_buffer_size(computed: int, policy: BufferSizePolicy) -> int {
    match policy {
        BufferSizePolicy::Range { min, max } => clamp(computed, min as int, max as int),
        _ => computed,
    }
}

/// `computed` under `policy`.
pub fn resolve_buffer_size(computed: u64, policy: BufferSizePolicy) -> (r: u64)
    ensures
        r == resolved_buffer_size(computed as int, policy),
{
    match policy {
        BufferSizePolicy::Range { min, max } => {
            if computed < min as u64 {
                min as u64
            } else if computed > max as u64 {
                max as u64
            } else {
                computed
            }
        },
        _ => computed,
    }
}

/// The configuration chosen from candidate `c` with latency divisor `divisor`,
/// or the error of a buffer size beyond what a stream can be asked for.
pub open spec fn configure(c: CandidateConfig, divisor: u32) -> Result<NegotiatedConfig, AudioError>
    recommends
        divisor > 0,
{
    let rate = clamp(TARGET_SAMPLE_RATE as int, c.min_sample_rate as int, c.max_sample_rate as int);
    let frames = resolved_buffer_size(
        buffer_frames_spec(rate as u32, c.channels, TARGET_BYTES_PER_SAMPLE, divisor),
        c.buffer_size,
    );
    if frames <= u32::MAX {
        Ok(NegotiatedConfig { channels: c.channels, sample_rate: rate as u32, buffer_size: frames as u32 })
    } else {
        Err(AudioError::StreamBuildFailed)
    }
}

/// The outcome of negotiating over `candidates`: the best ranked candidate,
/// configured, or `NoSupportedConfig` when there is none.
pub open spec fn negotiation(candidates: Seq<CandidateConfig>, divisor: u32) -> Result<
    NegotiatedConfig,
    AudioError,
>
    recommends
        divisor > 0,
{
    if candidates.len() == 0 {
        Err(AudioError::NoSupportedConfig)
    } else {
        configure(ranked(candidates)[0], divisor)
    }
}

/// The concrete stream configuration for candidate `c`.
pub fn configure_candidate(c: &CandidateConfig, divisor: u32) -> (r: Result<NegotiatedConfig, AudioError>)
    requires
        divisor > 0,
    ensures
        r == configure(*c, divisor),
{
    let rate = resolve_sample_rate(TARGET_SAMPLE_RATE, c.min_sample_rate, c.max_sample_rate);
    let computed = buffer_frames(rate, c.channels, TARGET_BYTES_PER_SAMPLE, divisor);
    let frames = resolve_buffer_size(computed, c.buffer_size);
    if frames <= 0xffff_ffff {
        Ok(NegotiatedConfig { channels: c.channels, sample_rate: rate, buffer_size: frames as u32 })
    } else {
        Err(AudioError::StreamBuildFailed)
    }
}

/// Picks the best ranked of `candidates` and configures a stream from it.
pub fn negotiate(candidates: Vec<CandidateConfig>, divisor: u32) -> (r: Result<NegotiatedConfig, AudioError>)
    requires
        divisor > 0,
    ensures
        r == negotiation(candidates@, divisor),
        r == Err::<NegotiatedConfig, AudioError>(AudioError::NoSupportedConfig) <==> candidates@.len() == 0,
{
    if candidates.len() == 0 {
        return Err(AudioError::NoSupportedConfig);
    }
    let ranked_candidates = rank_candidates(candidates);
    proof {
        lemma_ranked_is_ranked(candidates@);
    }
    configure_candidate(&ranked_candidates[0], divisor)
}

/// A configuration negotiated from a well-formed candidate keeps its channel
/// count and lies within its sample-rate range and, where the device gives
/// one, its buffer-size range.
pub proof fn lemma_configure_within_ranges(c: CandidateConfig, divisor: u32)
    requires
        c.wf(),
        divisor > 0,
    ensures
        configure(c, divisor) is Ok ==> {
            let n = configure(c, divisor)->Ok_0;
            &&& n.channels == c.channels
            &&& c.min_sample_rate <= n.sample_rate <= c.max_sample_rate
            &&& (match c.buffer_size {
                BufferSizePolicy::Range { min, max } => min <= n.buffer_size <= max,
                _ => true,
            })
        },
{
}

} // verus!
