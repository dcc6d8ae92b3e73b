//! Physical-device selection and graphics queue-family choice.
//!
//! Candidates are ranked by a total order over their device class
//! (discrete GPU first, then integrated, then virtual; CPU and other
//! hardware share the last class), with the original enumeration index as a
//! stable tie-break within a class, and the best-ranked candidate that
//! exposes a graphics-capable queue family is selected.

use vstd::prelude::*;

use crate::error::InitError;

verus! {

/// Class of a physical device as the driver reports it.
#[derive(Clone, Copy, PartialEq, Eq, Structural, Debug)]
pub enum DeviceClass {
    Discrete,
    Integrated,
    Virtual,
    Cpu,
    Other,
}

/// What the selector reads of one enumerated physical device.
#[derive(Clone, Copy, PartialEq, Eq, Structural, Debug)]
pub struct DeviceCandidate {
    /// The candidate's device class.
    pub class: DeviceClass,
    /// Whether the candidate exposes at least one graphics-capable queue family.
    pub has_graphics_queue: bool,
}

/// Rank of a device class: lower ranks are preferred. CPU and other
/// hardware form one class, within which only the enumeration index
/// decides.
pub open spec fn spec_class_rank(c: DeviceClass) -> int {
    match c {
        DeviceClass::Discrete => 0,
        DeviceClass::Integrated => 1,
        DeviceClass::Virtual => 2,
        DeviceClass::Cpu => 3,
        DeviceClass::Other => 3,
    }
}

/// Executable rank, equal to [`spec_class_rank`].
pub fn class_rank(c: DeviceClass) -> (r: u32)
    ensures
        r == spec_class_rank(c),
{
    match c {
        DeviceClass::Discrete => 0,
        DeviceClass::Integrated => 1,
        DeviceClass::Virtual => 2,
        DeviceClass::Cpu => 3,
        DeviceClass::Other => 3,
    }
}

/// Candidate `i` of `cs` is strictly preferred over candidate `j`:
/// better class rank, or the same rank and a lower enumeration index.
pub open spec fn preferred(cs: Seq<DeviceCandidate>, i: int, j: int) -> bool {
    ||| spec_class_rank(cs[i].class) < spec_class_rank(cs[j].class)
    ||| (spec_class_rank(cs[i].class) == spec_class_rank(cs[j].class) && i < j)
}

/// Index `i` is the selection result for `cs`: it names a graphics-capable
/// candidate preferred over every other graphics-capable candidate.
pub open spec fn is_selected(cs: Seq<DeviceCandidate>, i: int) -> bool {
    &&& 0 <= i < cs.len()
    &&& cs[i].has_graphics_queue
    &&& forall|j: int|
        0 <= j < cs.len() && j != i && cs[j].has_graphics_queue ==> preferred(cs, i, j)
}

/// Selects the physical device to use: the best-ranked candidate, with
/// enumeration order as the tie-break, among those that expose a
/// graphics-capable queue family. Fails when no candidate qualifies
/// (in particular when the enumeration is empty).
pub fn select_physical_device(candidates: &Vec<DeviceCandidate>) -> (r: Result<usize, InitError>)
    ensures
        match r {
            Ok(i) => is_selected(candidates@, i as int),
            Err(e) => {
                &&& e is NoSuitableDevice
                &&& forall|j: int|
                    0 <= j < candidates@.len() ==> !candidates@[j].has_graphics_queue
            },
        },
{
    let mut best: Option<usize> = None;
    let mut k: usize = 0;
    while k < candidates.len()
        invariant
            k <= candidates@.len(),
            match best {
                Some(b) => {
                    &&& b < k
                    &&& candidates@[b as int].has_graphics_queue
                    &&& forall|j: int|
                        0 <= j < k && j != b && candidates@[j].has_graphics_queue
                            ==> preferred(candidates@, b as int, j)
                },
                None => forall|j: int| 0 <= j < k ==> !candidates@[j].has_graphics_queue,
            },
        decreases candidates@.len() - k,
    {
        if candidates[k].has_graphics_queue {
            match best {
                None => {
                    best = Some(k);
                },
                Some(b) => {
                    if class_rank(candidates[k].class) < class_rank(candidates[b].class) {
                        proof {
                            let cs = candidates@;
                            assert forall|j: int|
                                0 <= j < k && j != k && cs[j].has_graphics_queue
                                    implies preferred(cs, k as int, j) by {
                                if j != b {
                                    assert(preferred(cs, b as int, j));
                                }
                            }
                        }
                        best = Some(k);
                    } else {
                        proof {
                            assert(preferred(candidates@, b as int, k as int));
                        }
                    }
                },
            }
        }
        k = k + 1;
    }
    match best {
        Some(b) => Ok(b),
        None => Err(InitError::NoSuitableDevice),
    }
}

/// When a graphics-capable discrete candidate is enumerated, selection
/// returns a discrete candidate, whatever the enumeration order. (A discrete
/// candidate without a graphics-capable queue family may lose to another
/// class, so the law asks graphics capability of the witness.)
pub proof fn lemma_discrete_always_wins(cs: Seq<DeviceCandidate>, i: int, d: int)
    requires
        is_selected(cs, i),
        0 <= d < cs.len(),
        cs[d].class is Discrete,
        cs[d].has_graphics_queue,
    ensures
        cs[i].class is Discrete,
{
    if i != d {
        assert(preferred(cs, i, d));
    }
}

/// Over an enumeration whose candidates all share one class, selection
/// returns the lowest enumeration index among the graphics-capable ones.
pub proof fn lemma_same_class_stability(cs: Seq<DeviceCandidate>, i: int)
    requires
        is_selected(cs, i),
        forall|j: int, k: int|
            0 <= j < cs.len() && 0 <= k < cs.len() ==> cs[j].class == cs[k].class,
    ensures
        forall|j: int| 0 <= j < i ==> !cs[j].has_graphics_queue,
{
    assert forall|j: int| 0 <= j < i implies !cs[j].has_graphics_queue by {
        if cs[j].has_graphics_queue {
            assert(preferred(cs, i, j));
        }
    }
}

/// What the device creator reads of one queue family.
#[derive(Clone, Copy, PartialEq, Eq, Structural, Debug)]
pub struct QueueFamilyInfo {
    /// Whether the family advertises graphics capability.
    pub supports_graphics: bool,
}

/// Scans queue families in enumeration order and picks the first one that
/// advertises graphics capability; fails when none exists.
pub fn find_graphics_family(families: &Vec<QueueFamilyInfo>) -> (r: Result<usize, InitError>)
    ensures
        match r {
            Ok(i) => {
                &&& i < families@.len()
                &&& families@[i as int].supports_graphics
                &&& forall|j: int| 0 <= j < i ==> !families@[j].supports_graphics
            },
            Err(e) => {
                &&& e is NoGraphicsQueue
                &&& forall|j: int| 0 <= j < families@.len() ==> !families@[j].supports_graphics
            },
        },
{
    let mut k: usize = 0;
    while k < families.len()
        invariant
            k <= families@.len(),
            forall|j: int| 0 <= j < k ==> !families@[j].supports_graphics,
        decreases families@.len() - k,
    {
        if families[k].supports_graphics {
            return Ok(k);
        }
        k = k + 1;
    }
    Err(InitError::NoGraphicsQueue)
}

} // verus!
