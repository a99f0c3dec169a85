//! General facts about generated sequences, stated over the same spec
//! functions the generators' contracts use.

use vstd::prelude::*;

use crate::bounds::f32_boundary_bits;
use crate::bounds::f64_boundary_bits;
use crate::generator::boundary_take;
use crate::generator::bounded_prefix_ok;
use crate::generator::f32_generation_ok;
use crate::generator::f64_generation_ok;
use crate::source::RandSource;

verus! {

/// Every boundary value appears, unmodified, somewhere in a sequence that
/// carries the boundary prefix: category post-processing touches only
/// freshly drawn values, never the prefix.
pub proof fn lemma_boundary_values_present<T>(bounds: Seq<T>, v: Seq<T>, len: int)
    requires
        len >= bounds.len(),
        bounded_prefix_ok(bounds, v, len),
    ensures
        forall|j: int| 0 <= j < bounds.len() ==> v.contains(bounds[j]),
{
    assert forall|j: int| 0 <= j < bounds.len() implies v.contains(bounds[j]) by {
        assert(v[j] == bounds[j]);
    }
}

/// Structural idempotence: two sequences generated for the same boundary set
/// and the same requested length agree in length and in their whole boundary
/// prefix, whatever random sources filled their suffixes.
pub proof fn lemma_structure_idempotent<T>(bounds: Seq<T>, a: Seq<T>, b: Seq<T>, len: int)
    requires
        bounded_prefix_ok(bounds, a, len),
        bounded_prefix_ok(bounds, b, len),
    ensures
        a.len() == b.len(),
        forall|i: int| 0 <= i < a.len() && i < bounds.len() ==> a[i] == b[i],
{
}

/// For the 32-bit floating domain, everything beyond the boundary prefix is
/// exactly what the source handed out, in draw order: random draws are
/// neither filtered nor modified.
pub proof fn lemma_f32_suffix_is_raw_draws(pre: RandSource, post: RandSource, v: Seq<u32>, len: int)
    requires
        f32_generation_ok(pre, post, v, len),
    ensures
        v.skip(boundary_take(f32_boundary_bits().len() as int, len)) == post.drawn_u32().skip(
            pre.drawn_u32().len() as int,
        ),
{
    assert(v.skip(boundary_take(f32_boundary_bits().len() as int, len)) =~= post.drawn_u32().skip(
        pre.drawn_u32().len() as int,
    ));
}

/// For the 64-bit floating domain, everything beyond the boundary prefix is
/// exactly what the source handed out, in draw order.
pub proof fn lemma_f64_suffix_is_raw_draws(pre: RandSource, post: RandSource, v: Seq<u64>, len: int)
    requires
        f64_generation_ok(pre, post, v, len),
    ensures
        v.skip(boundary_take(f64_boundary_bits().len() as int, len)) == post.drawn_u64().skip(
            pre.drawn_u64().len() as int,
        ),
{
    assert(v.skip(boundary_take(f64_boundary_bits().len() as int, len)) =~= post.drawn_u64().skip(
        pre.drawn_u64().len() as int,
    ));
}

} // verus!
