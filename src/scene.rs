//! Decisions of the per-pixel trace: which surface a ray sees, and whether a
//! light reaches a point.
//!
//! Distances along a ray are given here by their keys: the bit pattern
//! (`f32::to_bits`) of a distance that is neither negative nor NaN. For such
//! values the keys are ordered exactly as the distances are, so a comparison
//! of keys is the comparison of the distances.
use vstd::prelude::*;

verus! {

/// Index of each body in the scene's surface list; the order is fixed.
pub const STAR: usize = 0;
pub const ROCKY: usize = 1;
pub const MOON: usize = 2;
pub const GAS_GIANT: usize = 3;

/// What a camera ray ends on.
#[derive(Clone, Copy, Debug, PartialEq, Eq, Structural)]
pub enum HitTarget {
    /// Nothing: the sky gradient is drawn.
    Sky,
    /// The sphere with this index in the surface list.
    Sphere(usize),
    /// The ring plane of the gas giant, inside its annulus.
    Ring,
}

/// `i` holds the nearest hit of `keys`: a hit no farther than any other, and
/// strictly nearer than every hit before it (the first of equal hits wins).
pub open spec fn is_nearest(keys: Seq<Option<u32>>, i: int) -> bool {
    &&& 0 <= i < keys.len()
    &&& keys[i] is Some
    &&& forall|j: int| 0 <= j < keys.len() && #[trigger] keys[j] is Some
            ==> keys[i]->0 <= keys[j]->0
    &&& forall|j: int| 0 <= j < i && #[trigger] keys[j] is Some ==> keys[i]->0 < keys[j]->0
}

/// No entry of `keys` is a hit.
pub open spec fn no_hit(keys: Seq<Option<u32>>) -> bool {
    forall|j: int| 0 <= j < keys.len() ==> #[trigger] keys[j] is None
}

/// A ring hit at key `k` lies strictly nearer than every sphere hit.
pub open spec fn ring_in_front(keys: Seq<Option<u32>>, k: u32) -> bool {
    forall|j: int| 0 <= j < keys.len() && #[trigger] keys[j] is Some ==> k < keys[j]->0
}

/// Some surface other than `light` is hit strictly before `dist`.
pub open spec fn blocked(keys: Seq<Option<u32>>, light: int, dist: u32) -> bool {
    exists|j: int| 0 <= j < keys.len() && j != light && #[trigger] keys[j] is Some
        && keys[j]->0 < dist
}

/// An occluder other than the light, hit strictly before the light, puts the
/// point in shadow; take that occluder away, with nothing else in front of the
/// light, and the point is lit.
pub proof fn lemma_occluder_casts_shadow(keys: Seq<Option<u32>>, light: int, dist: u32, j: int)
    requires
        0 <= j < keys.len(),
        j != light,
        keys[j] is Some,
        keys[j]->0 < dist,
        forall|m: int|
            0 <= m < keys.len() && m != j && m != light && #[trigger] keys[m] is Some
                ==> dist <= keys[m]->0,
    ensures
        blocked(keys, light, dist),
        !blocked(keys.update(j, None), light, dist),
{
    let cleared = keys.update(j, None);
    assert forall|m: int|
        0 <= m < cleared.len() && m != light && #[trigger] cleared[m] is Some implies dist
        <= cleared[m]->0 by {
        assert(m != j);
    }
}

/// Index of the nearest sphere hit among `keys` (entry `i` is the distance
/// key at which sphere `i` is hit, if it is), or `None` when none is hit.
pub fn nearest_hit(keys: &Vec<Option<u32>>) -> (r: Option<usize>)
    ensures
        r is None <==> no_hit(keys@),
        r matches Some(i) ==> is_nearest(keys@, i as int),
{
    let mut best: Option<usize> = None;
    let mut i: usize = 0;
    while i < keys.len()
        invariant
            i <= keys.len(),
            best is None <==> no_hit(keys@.subrange(0, i as int)),
            best matches Some(b) ==> b < i && is_nearest(keys@.subrange(0, i as int), b as int),
        decreases keys.len() - i,
    {
        let ghost before = keys@.subrange(0, i as int);
        assert(keys@.subrange(0, i as int + 1) =~= before.push(keys@[i as int]));
        if let Some(k) = keys[i] {
            match best {
                None => {
                    best = Some(i);
                },
                Some(b) => {
                    if k < keys[b].unwrap() {
                        best = Some(i);
                    }
                },
            }
        }
        i += 1;
    }
    assert(keys@.subrange(0, keys.len() as int) =~= keys@);
    best
}

/// What a camera ray ends on, given the sphere hits `keys` and `ring`, the key
/// of a ring-plane hit that lies ahead of the camera inside the ring's annulus.
/// The ring wins only when it is strictly nearer than every sphere hit;
/// otherwise the nearest sphere, and the sky when nothing is hit.
pub fn resolve_hit(keys: &Vec<Option<u32>>, ring: Option<u32>) -> (r: HitTarget)
    ensures
        r == HitTarget::Ring <==> (ring matches Some(k) && ring_in_front(keys@, k)),
        r == HitTarget::Sky <==> (ring is None || !ring_in_front(keys@, ring->0)) && no_hit(
            keys@,
        ),
        r matches HitTarget::Sphere(i) ==> is_nearest(keys@, i as int),
{
    let nearest = nearest_hit(keys);
    let ring_wins = match (ring, nearest) {
        (Some(_), None) => true,
        (Some(k), Some(i)) => k < keys[i].unwrap(),
        (None, _) => false,
    };
    if ring_wins {
        HitTarget::Ring
    } else {
        match nearest {
            None => HitTarget::Sky,
            Some(i) => HitTarget::Sphere(i),
        }
    }
}

/// Whether a point is in the shadow of `light`: entry `j` of `keys` is the key
/// at which the shadow ray toward the light meets surface `j`, and `dist` is
/// the key of the distance to the light. The light itself never casts the
/// shadow, and a surface hit exactly at the light's distance does not either.
pub fn shadowed(keys: &Vec<Option<u32>>, light: usize, dist: u32) -> (r: bool)
    ensures
        r == blocked(keys@, light as int, dist),
{
    let mut i: usize = 0;
    while i < keys.len()
        invariant
            i <= keys.len(),
            !blocked(keys@.subrange(0, i as int), light as int, dist),
        decreases keys.len() - i,
    {
        if i != light {
            if let Some(k) = keys[i] {
                if k < dist {
                    assert(keys@[i as int] is Some);
                    return true;
                }
            }
        }
        assert(keys@.subrange(0, i as int + 1) =~= keys@.subrange(0, i as int).push(keys@[i as int]));
        i += 1;
    }
    assert(keys@.subrange(0, keys.len() as int) =~= keys@);
    false
}

} // verus!
