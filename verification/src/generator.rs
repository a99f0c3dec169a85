//! The sequence generator: for a numeric domain, the fixed boundary prefix
//! (truncated when the request is shorter) followed by as many random draws
//! as are needed to reach the requested length exactly.

use vstd::prelude::*;

use crate::bounds::f32_boundary_bits;
use crate::bounds::f32_boundary_values;
use crate::bounds::f64_boundary_bits;
use crate::bounds::f64_boundary_values;
use crate::source::RandSource;

verus! {

/// The numeric representation under test.
#[derive(Clone, Copy, Debug, PartialEq, Eq, Structural)]
pub enum Domain {
    F32,
    F64,
    I32,
}

/// How a generated integer will be consumed by the function under test.
/// `IterationCount` marks arguments interpreted as a number of iterations:
/// random draws are masked to their low 16 bits to keep such tests cheap.
#[derive(Clone, Copy, Debug, PartialEq, Eq, Structural)]
pub enum ApiCategory {
    IterationCount,
}

/// A generated sequence, tagged by domain. Floating values are carried as
/// their bit patterns.
#[derive(Debug)]
pub enum GeneratedSequence {
    F32Bits(Vec<u32>),
    F64Bits(Vec<u64>),
    I32Values(Vec<i32>),
}

/// How many boundary values open a sequence of length `len` over a boundary
/// set of size `bounds`: the whole set, truncated to `len` when the request
/// is shorter.
pub open spec fn boundary_take(bounds: int, len: int) -> int {
    if len >= bounds {
        bounds
    } else {
        len
    }
}

/// The number of values drawn from the random source when a sequence of
/// length `len` begins with a boundary prefix of (untruncated) length
/// `bounds`: zero when the request is shorter than the boundary set.
pub open spec fn draws_needed(bounds: int, len: int) -> int {
    len - boundary_take(bounds, len)
}

/// A well-formed generated sequence for a boundary set `bounds`: exactly
/// `len` values, and up to the boundary-set size the values are the boundary
/// values, in their fixed order.
pub open spec fn bounded_prefix_ok<T>(bounds: Seq<T>, v: Seq<T>, len: int) -> bool {
    &&& v.len() == len
    &&& forall|i: int| 0 <= i < v.len() && i < bounds.len() ==> v[i] == bounds[i]
}

/// What category post-processing makes of one freshly drawn value: under the
/// iteration-count classifier only the low 16 bits are kept; otherwise the
/// draw passes unchanged.
pub open spec fn apply_category(category: Option<ApiCategory>, raw: i32) -> i32 {
    if category == Some(ApiCategory::IterationCount) {
        raw & 0xffff
    } else {
        raw
    }
}

/// Every value of an iteration-count sequence keeps only its low 16 bits.
pub open spec fn iteration_masked(v: Seq<i32>) -> bool {
    forall|i: int| 0 <= i < v.len() ==> v[i] == v[i] & 0xffff
}

/// One 32-bit floating generation step, from source state `pre` to `post`:
/// the output carries the boundary prefix, its suffix is exactly the fresh
/// 32-bit draws in draw order — unfiltered and unmodified — and nothing else
/// was drawn.
pub open spec fn f32_generation_ok(
    pre: RandSource,
    post: RandSource,
    v: Seq<u32>,
    len: int,
) -> bool {
    &&& bounded_prefix_ok(f32_boundary_bits(), v, len)
    &&& post.drawn_u32() == pre.drawn_u32() + v.skip(
        boundary_take(f32_boundary_bits().len() as int, len),
    )
    &&& post.drawn_u64() == pre.drawn_u64()
    &&& post.drawn_i32() == pre.drawn_i32()
    &&& post.draw_count() == pre.draw_count() + draws_needed(
        f32_boundary_bits().len() as int,
        len,
    )
}

/// One 64-bit floating generation step, stated as the 32-bit one.
pub open spec fn f64_generation_ok(
    pre: RandSource,
    post: RandSource,
    v: Seq<u64>,
    len: int,
) -> bool {
    &&& bounded_prefix_ok(f64_boundary_bits(), v, len)
    &&& post.drawn_u64() == pre.drawn_u64() + v.skip(
        boundary_take(f64_boundary_bits().len() as int, len),
    )
    &&& post.drawn_u32() == pre.drawn_u32()
    &&& post.drawn_i32() == pre.drawn_i32()
    &&& post.draw_count() == pre.draw_count() + draws_needed(
        f64_boundary_bits().len() as int,
        len,
    )
}

/// One integer generation step, from source state `pre` to `post`: the
/// integer domain has no boundary set, so exactly `len` values were drawn,
/// the history before them is untouched, and each output value is its own
/// draw with the category's post-processing applied.
pub open spec fn i32_generation_ok(
    pre: RandSource,
    post: RandSource,
    category: Option<ApiCategory>,
    v: Seq<i32>,
    len: int,
) -> bool {
    &&& v.len() == len
    &&& post.drawn_i32().len() == pre.drawn_i32().len() + len
    &&& forall|j: int|
        0 <= j < pre.drawn_i32().len() ==> post.drawn_i32()[j] == pre.drawn_i32()[j]
    &&& forall|j: int|
        0 <= j < len ==> v[j] == apply_category(
            category,
            post.drawn_i32()[pre.drawn_i32().len() + j],
        )
    &&& post.drawn_u32() == pre.drawn_u32()
    &&& post.drawn_u64() == pre.drawn_u64()
    &&& post.draw_count() == pre.draw_count() + len
}

/// The 32-bit floating sequence: the nine boundary bit patterns (truncated
/// to `len` when `len` is smaller), then `len - 9` fresh draws, and nothing
/// drawn beyond that.
pub fn rand_seq_f32(rng: &mut RandSource, len: usize) -> (v: Vec<u32>)
    ensures
        f32_generation_ok(*old(rng), *final(rng), v@, len as int),
{
    let bounds = f32_boundary_values();
    let prefix_len: usize = if len < bounds.len() {
        len
    } else {
        bounds.len()
    };
    let mut v: Vec<u32> = Vec::new();
    let mut i: usize = 0;
    while i < prefix_len
        invariant
            bounds@ == f32_boundary_bits(),
            prefix_len as int == boundary_take(f32_boundary_bits().len() as int, len as int),
            i <= prefix_len,
            v@.len() == i as int,
            forall|j: int| 0 <= j < v@.len() ==> v@[j] == f32_boundary_bits()[j],
            *rng == *old(rng),
        decreases prefix_len - i,
    {
        let b = bounds[i];
        v.push(b);
        i = i + 1;
    }
    proof {
        assert(old(rng).drawn_u32() + v@.skip(prefix_len as int) =~= old(rng).drawn_u32());
    }
    while v.len() < len
        invariant
            prefix_len as int == boundary_take(f32_boundary_bits().len() as int, len as int),
            prefix_len <= v@.len() <= len,
            forall|j: int|
                0 <= j < v@.len() && j < f32_boundary_bits().len() ==> v@[j]
                    == f32_boundary_bits()[j],
            rng.drawn_u32() == old(rng).drawn_u32() + v@.skip(prefix_len as int),
            rng.drawn_u64() == old(rng).drawn_u64(),
            rng.drawn_i32() == old(rng).drawn_i32(),
        decreases len - v.len(),
    {
        let ghost pre_trace = rng.drawn_u32();
        let ghost pre_seq = v@;
        let r = rng.draw_u32();
        v.push(r);
        proof {
            assert(v@.skip(prefix_len as int) =~= pre_seq.skip(prefix_len as int).push(r));
            assert(old(rng).drawn_u32() + v@.skip(prefix_len as int) =~= pre_trace.push(r));
        }
    }
    v
}

/// The 64-bit floating sequence, built exactly as the 32-bit one.
pub fn rand_seq_f64(rng: &mut RandSource, len: usize) -> (v: Vec<u64>)
    ensures
        f64_generation_ok(*old(rng), *final(rng), v@, len as int),
{
    let bounds = f64_boundary_values();
    let prefix_len: usize = if len < bounds.len() {
        len
    } else {
        bounds.len()
    };
    let mut v: Vec<u64> = Vec::new();
    let mut i: usize = 0;
    while i < prefix_len
        invariant
            bounds@ == f64_boundary_bits(),
            prefix_len as int == boundary_take(f64_boundary_bits().len() as int, len as int),
            i <= prefix_len,
            v@.len() == i as int,
            forall|j: int| 0 <= j < v@.len() ==> v@[j] == f64_boundary_bits()[j],
            *rng == *old(rng),
        decreases prefix_len - i,
    {
        let b = bounds[i];
        v.push(b);
        i = i + 1;
    }
    proof {
        assert(old(rng).drawn_u64() + v@.skip(prefix_len as int) =~= old(rng).drawn_u64());
    }
    while v.len() < len
        invariant
            prefix_len as int == boundary_take(f64_boundary_bits().len() as int, len as int),
            prefix_len <= v@.len() <= len,
            forall|j: int|
                0 <= j < v@.len() && j < f64_boundary_bits().len() ==> v@[j]
                    == f64_boundary_bits()[j],
            rng.drawn_u64() == old(rng).drawn_u64() + v@.skip(prefix_len as int),
            rng.drawn_u32() == old(rng).drawn_u32(),
            rng.drawn_i32() == old(rng).drawn_i32(),
        decreases len - v.len(),
    {
        let ghost pre_trace = rng.drawn_u64();
        let ghost pre_seq = v@;
        let r = rng.draw_u64();
        v.push(r);
        proof {
            assert(v@.skip(prefix_len as int) =~= pre_seq.skip(prefix_len as int).push(r));
            assert(old(rng).drawn_u64() + v@.skip(prefix_len as int) =~= pre_trace.push(r));
        }
    }
    v
}

/// The integer sequence: the integer domain has no boundary set, so all
/// `len` values are fresh draws. Under the iteration-count category each
/// draw keeps only its low 16 bits; otherwise draws pass unfiltered.
pub fn rand_seq_i32(category: Option<ApiCategory>, rng: &mut RandSource, len: usize) -> (v: Vec<
    i32,
>)
    ensures
        i32_generation_ok(*old(rng), *final(rng), category, v@, len as int),
        category == Some(ApiCategory::IterationCount) ==> iteration_masked(v@),
{
    let mask = match category {
        Some(ApiCategory::IterationCount) => true,
        None => false,
    };
    proof {
        // an `ApiCategory` has a single variant, so a `Some` category can
        // only be the iteration-count classifier
        if category is Some {
            assert(category == Some(ApiCategory::IterationCount));
        }
    }
    let mut v: Vec<i32> = Vec::new();
    let mut i: usize = 0;
    while i < len
        invariant
            i <= len,
            v@.len() == i as int,
            mask == (category == Some(ApiCategory::IterationCount)),
            rng.drawn_i32().len() == old(rng).drawn_i32().len() + i as int,
            forall|j: int|
                0 <= j < old(rng).drawn_i32().len() ==> rng.drawn_i32()[j] == old(
                    rng,
                ).drawn_i32()[j],
            forall|j: int|
                0 <= j < i as int ==> v@[j] == apply_category(
                    category,
                    rng.drawn_i32()[old(rng).drawn_i32().len() + j],
                ),
            mask ==> iteration_masked(v@),
            rng.drawn_u32() == old(rng).drawn_u32(),
            rng.drawn_u64() == old(rng).drawn_u64(),
        decreases len - i,
    {
        let mut r = rng.draw_i32();
        if mask {
            let masked = r & 0xffff;
            proof {
                assert(masked == masked & 0xffff) by (bit_vector)
                    requires
                        masked == r & 0xffff,
                ;
            }
            r = masked;
        }
        v.push(r);
        i = i + 1;
    }
    v
}

/// One generation call, dispatched by domain: exactly `len` values, the
/// domain's boundary values first in their fixed order (truncated when `len`
/// is smaller than the boundary set), the rest drawn from `rng` — each value
/// of the suffix one fresh draw, in draw order. The category affects only
/// the random draws of the integer domain, never boundary values.
pub fn generate(
    domain: Domain,
    category: Option<ApiCategory>,
    rng: &mut RandSource,
    len: usize,
) -> (out: GeneratedSequence)
    ensures
        match domain {
            Domain::F32 => (out matches GeneratedSequence::F32Bits(v) && f32_generation_ok(
                *old(rng),
                *final(rng),
                v@,
                len as int,
            )),
            Domain::F64 => (out matches GeneratedSequence::F64Bits(v) && f64_generation_ok(
                *old(rng),
                *final(rng),
                v@,
                len as int,
            )),
            Domain::I32 => (out matches GeneratedSequence::I32Values(v) && i32_generation_ok(
                *old(rng),
                *final(rng),
                category,
                v@,
                len as int,
            ) && (category == Some(ApiCategory::IterationCount) ==> iteration_masked(v@))),
        },
{
    match domain {
        Domain::F32 => GeneratedSequence::F32Bits(rand_seq_f32(rng, len)),
        Domain::F64 => GeneratedSequence::F64Bits(rand_seq_f64(rng, len)),
        Domain::I32 => GeneratedSequence::I32Values(rand_seq_i32(category, rng, len)),
    }
}

} // verus!
