use vstd::prelude::*;

verus! {

/// What an entity with a position is, as far as culling cares.
#[derive(Clone, Copy, Debug, PartialEq, Eq, Structural)]
pub enum EntityKind {
    Camera,
    Light,
    UiNode,
    Other,
}

/// An entity seen by a culling pass: its kind, and whether it lies farther
/// from the camera than the render distance.
#[derive(Clone, Copy, Debug, PartialEq, Eq, Structural)]
pub struct CullCandidate {
    pub kind: EntityKind,
    pub beyond_range: bool,
}

/// Cameras, lights and interface nodes are never culled.
pub open spec fn eligible(kind: EntityKind) -> bool {
    kind == EntityKind::Other
}

/// Whether a pass removes this entity.
pub open spec fn culled(c: CullCandidate) -> bool {
    eligible(c.kind) && c.beyond_range
}

/// Whether an entity of this kind may be culled.
pub fn is_eligible(kind: EntityKind) -> (r: bool)
    ensures
        r == eligible(kind),
{
    match kind {
        EntityKind::Other => true,
        _ => false,
    }
}

/// The positions, in increasing order, of the entities that one culling pass
/// removes: exactly the eligible ones beyond the render distance.
pub fn cull_targets(entities: &Vec<CullCandidate>) -> (r: Vec<usize>)
    ensures
        forall|j: int| 0 <= j < r@.len() ==> r@[j] < entities@.len(),
        forall|j: int, k: int| 0 <= j < k < r@.len() ==> r@[j] < r@[k],
        forall|i: int| 0 <= i < entities@.len() ==> (culled(entities@[i]) <==> r@.contains(i as usize)),
{
    let mut r: Vec<usize> = Vec::new();
    let mut i: usize = 0;
    while i < entities.len()
        invariant
            i <= entities@.len(),
            forall|j: int| 0 <= j < r@.len() ==> r@[j] < i,
            forall|j: int, k: int| 0 <= j < k < r@.len() ==> r@[j] < r@[k],
            forall|m: int| 0 <= m < i ==> (culled(entities@[m]) <==> r@.contains(m as usize)),
        decreases entities@.len() - i,
    {
        let c = entities[i];
        let ghost before = r@;
        if c.beyond_range && is_eligible(c.kind) {
            r.push(i);
        }
        proof {
            assert forall|m: int| 0 <= m < i + 1 implies (culled(entities@[m]) <==> r@.contains(m as usize)) by {
                if r@.contains(m as usize) {
                    let j = choose|j: int| 0 <= j < r@.len() && r@[j] == m as usize;
                    if j < before.len() {
                        assert(before[j] == m as usize);
                    }
                } else if m < i && before.contains(m as usize) {
                    let j = choose|j: int| 0 <= j < before.len() && before[j] == m as usize;
                    assert(r@[j] == m as usize);
                }
                if m == i && culled(entities@[m]) {
                    assert(r@[r@.len() - 1] == m as usize);
                }
            }
        }
        i = i + 1;
    }
    r
}

} // verus!
