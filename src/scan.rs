//! Linear scans over the per-surface intersection results of one ray: the
//! nearest-hit search and the shadow test.
//!
//! Surfaces are identified by their index in the scene; `hits[i]` is what
//! surface `i` reported for the ray (the bit pattern of its hit distance).
use vstd::prelude::*;
use crate::scalar::{is_positive, less_eq, le, lt, positive, ZERO};

verus! {

/// Surface `i` is a candidate for the nearest hit: it is not the excluded
/// surface and reported a strictly positive distance.
pub open spec fn candidate(hits: Seq<Option<u32>>, excluding: Option<usize>, i: int) -> bool {
    0 <= i < hits.len() && excluding != Some(i as usize) && hits[i] is Some && positive(
        hits[i]->Some_0,
    )
}

/// Distance reported by surface `i`.
pub open spec fn distance(hits: Seq<Option<u32>>, i: int) -> u32 {
    hits[i]->Some_0
}

/// Surface `i` blocks the way to a light at `to_light`: it is not the shaded
/// surface and reported a hit no farther than the light.
pub open spec fn blocks(hits: Seq<Option<u32>>, shaded: usize, to_light: u32, i: int) -> bool {
    0 <= i < hits.len() && i != shaded as int && hits[i] is Some && le(hits[i]->Some_0, to_light)
}

pub open spec fn occluded(hits: Seq<Option<u32>>, shaded: usize, to_light: u32) -> bool {
    exists|i: int| blocks(hits, shaded, to_light, i)
}

/// Brightness that reaches the shaded point: zero when occluded, else the
/// light's full brightness (no fall-off with distance).
pub open spec fn attenuated(
    hits: Seq<Option<u32>>,
    shaded: usize,
    to_light: u32,
    brightness: u32,
) -> u32 {
    if occluded(hits, shaded, to_light) {
        ZERO
    } else {
        brightness
    }
}

/// Index of the surface with the smallest strictly positive hit distance,
/// skipping `excluding`; among equal distances the last one wins. `None` when
/// no surface qualifies, which means the ray sees the background.
pub fn nearest_hit(hits: &Vec<Option<u32>>, excluding: Option<usize>) -> (r: Option<usize>)
    ensures
        r is None <==> (forall|j: int| !candidate(hits@, excluding, j)),
        r matches Some(k) ==> {
            &&& candidate(hits@, excluding, k as int)
            &&& forall|j: int|
                candidate(hits@, excluding, j) ==> le(
                    distance(hits@, k as int),
                    distance(hits@, j),
                )
            &&& forall|j: int|
                k < j && candidate(hits@, excluding, j) ==> lt(
                    distance(hits@, k as int),
                    distance(hits@, j),
                )
        },
{
    let mut best: Option<usize> = None;
    let mut best_d: u32 = ZERO;
    let mut i: usize = 0;
    while i < hits.len()
        invariant
            i <= hits.len(),
            best is None ==> forall|j: int| 0 <= j < i ==> !candidate(hits@, excluding, j),
            best matches Some(k) ==> {
                &&& k < i
                &&& candidate(hits@, excluding, k as int)
                &&& distance(hits@, k as int) == best_d
                &&& forall|j: int|
                    0 <= j < i && candidate(hits@, excluding, j) ==> le(best_d, distance(hits@, j))
                &&& forall|j: int|
                    k < j < i && candidate(hits@, excluding, j) ==> lt(best_d, distance(hits@, j))
            },
        decreases hits.len() - i,
    {
        if excluding != Some(i) {
            if let Some(s) = hits[i] {
                if is_positive(s) {
                    let closer = match best {
                        None => true,
                        Some(_) => less_eq(s, best_d),
                    };
                    if closer {
                        best = Some(i);
                        best_d = s;
                    }
                }
            }
        }
        i += 1;
    }
    best
}

/// Whether any surface other than `shaded` reports a hit along the ray toward
/// a light no farther than `to_light`, the distance to that light.
pub fn is_occluded(hits: &Vec<Option<u32>>, shaded: usize, to_light: u32) -> (r: bool)
    ensures
        r == occluded(hits@, shaded, to_light),
{
    let mut i: usize = 0;
    while i < hits.len()
        invariant
            i <= hits.len(),
            forall|j: int| 0 <= j < i ==> !blocks(hits@, shaded, to_light, j),
        decreases hits.len() - i,
    {
        if i != shaded {
            if let Some(s) = hits[i] {
                if less_eq(s, to_light) {
                    assert(blocks(hits@, shaded, to_light, i as int));
                    return true;
                }
            }
        }
        i += 1;
    }
    false
}

/// Brightness of a point light at a shaded point of surface `shaded`: zero
/// when another surface lies between them, the full `brightness` otherwise.
/// `hits` are the results of the ray from the point toward the light, and
/// `to_light` the distance to it, both taken for this point.
pub fn light_brightness(
    hits: &Vec<Option<u32>>,
    shaded: usize,
    to_light: u32,
    brightness: u32,
) -> (r: u32)
    ensures
        r == attenuated(hits@, shaded, to_light, brightness),
{
    if is_occluded(hits, shaded, to_light) {
        ZERO
    } else {
        brightness
    }
}

/// A surface between the shaded point and the light puts the point in shadow;
/// when it was the only one, taking it out of the scene restores the light's
/// full brightness.
pub proof fn lemma_shadow_by_occluder(
    hits: Seq<Option<u32>>,
    shaded: usize,
    occluder: int,
    to_light: u32,
    brightness: u32,
)
    requires
        blocks(hits, shaded, to_light, occluder),
    ensures
        attenuated(hits, shaded, to_light, brightness) == ZERO,
        (forall|j: int| j != occluder ==> !blocks(hits, shaded, to_light, j)) ==> attenuated(
            hits.update(occluder, None),
            shaded,
            to_light,
            brightness,
        ) == brightness,
{
    let removed = hits.update(occluder, None);
    if forall|j: int| j != occluder ==> !blocks(hits, shaded, to_light, j) {
        assert forall|j: int| !blocks(removed, shaded, to_light, j) by {
            if j != occluder {
                assert(!blocks(hits, shaded, to_light, j));
            }
        }
    }
}

} // verus!
