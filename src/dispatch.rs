//! Runtime selection of the best specialization of a function.
//!
//! A dispatch-tagged function exists once per candidate extension, best first, and always
//! includes the portable fallback. A `Dispatcher` resolves, once, the first candidate that the
//! machine supports and then keeps that choice; static selection picks, without detection, the
//! variant that a caller already running under some extension should use.

use crate::arch::{grants, supports, CpuFeatures, Extension};
use vstd::prelude::*;

verus! {

/// The architectures whose candidate lists differ.
#[derive(Clone, Copy, Debug, PartialEq, Eq, Structural)]
pub enum TargetArch {
    X86,
    Arm,
    Wasm32,
    Other,
}

/// The candidate extensions compiled in for `arch`, best first.
pub open spec fn spec_candidates(arch: TargetArch) -> Seq<Extension> {
    match arch {
        TargetArch::X86 => seq![Extension::Avx, Extension::Sse, Extension::Generic],
        TargetArch::Arm => seq![Extension::Neon, Extension::Generic],
        TargetArch::Wasm32 => seq![Extension::Simd128, Extension::Generic],
        TargetArch::Other => seq![Extension::Generic],
    }
}

/// Returns the candidate extensions compiled in for `arch`, best first.
pub fn candidates_for(arch: TargetArch) -> (r: Vec<Extension>)
    ensures
        r@ == spec_candidates(arch),
{
    match arch {
        TargetArch::X86 => vec![Extension::Avx, Extension::Sse, Extension::Generic],
        TargetArch::Arm => vec![Extension::Neon, Extension::Generic],
        TargetArch::Wasm32 => vec![Extension::Simd128, Extension::Generic],
        TargetArch::Other => vec![Extension::Generic],
    }
}

/// `i` is the first candidate that a machine with `features` supports.
pub open spec fn is_best(candidates: Seq<Extension>, features: CpuFeatures, i: int) -> bool {
    &&& 0 <= i < candidates.len()
    &&& supports(features, candidates[i])
    &&& forall|j: int| 0 <= j < i ==> !supports(features, candidates[j])
}

/// `i` is the first candidate that `held` implies.
pub open spec fn is_closest(candidates: Seq<Extension>, held: Extension, i: int) -> bool {
    &&& 0 <= i < candidates.len()
    &&& grants(held, candidates[i])
    &&& forall|j: int| 0 <= j < i ==> !grants(held, candidates[j])
}

/// Dynamic and static dispatch agree: the candidate that resolution picks is supported by the
/// machine, it is the only candidate that resolution can pick (so a cached choice equals a
/// fresh one), and a caller already running under its extension statically selects that same
/// candidate.
pub proof fn lemma_dispatch_consistency(
    candidates: Seq<Extension>,
    features: CpuFeatures,
    i: int,
    j: int,
)
    requires
        is_best(candidates, features, i),
    ensures
        supports(features, candidates[i]),
        is_best(candidates, features, j) ==> j == i,
        is_closest(candidates, candidates[i], i),
{
    assert forall|k: int| 0 <= k < i implies !grants(candidates[i], candidates[k]) by {
        if grants(candidates[i], candidates[k]) {
            crate::arch::lemma_supports_implied(features, candidates[i], candidates[k]);
        }
    }
    if is_best(candidates, features, j) {
        if j < i {
            assert(!supports(features, candidates[j]));
        } else if i < j {
            assert(!supports(features, candidates[i]));
        }
    }
}

/// Returns the first candidate that a machine with `features` supports, or `None` if there
/// is none.
pub fn select(candidates: &[Extension], features: &CpuFeatures) -> (r: Option<usize>)
    ensures
        r matches Some(i) ==> is_best(candidates@, *features, i as int),
        r is None ==> forall|j: int|
            0 <= j < candidates@.len() ==> !supports(*features, candidates@[j]),
{
    let mut i: usize = 0;
    while i < candidates.len()
        invariant
            i <= candidates@.len(),
            forall|j: int| 0 <= j < i ==> !supports(*features, candidates@[j]),
        decreases candidates@.len() - i,
    {
        if features.supports(candidates[i]) {
            return Some(i);
        }
        i = i + 1;
    }
    None
}

/// Returns the first candidate that `held` implies, or `None` if there is none.
pub fn select_static(candidates: &[Extension], held: Extension) -> (r: Option<usize>)
    ensures
        r matches Some(i) ==> is_closest(candidates@, held, i as int),
        r is None ==> forall|j: int|
            0 <= j < candidates@.len() ==> !grants(held, candidates@[j]),
{
    let mut i: usize = 0;
    while i < candidates.len()
        invariant
            i <= candidates@.len(),
            forall|j: int| 0 <= j < i ==> !grants(held, candidates@[j]),
        decreases candidates@.len() - i,
    {
        if held.grants(candidates[i]) {
            return Some(i);
        }
        i = i + 1;
    }
    None
}

/// The phases of a dispatcher.
#[derive(Clone, Copy, Debug, PartialEq, Eq, Structural)]
pub enum Resolution {
    /// No specialization has been chosen yet.
    Unresolved,
    /// The candidate at this index has been chosen; every later call reuses it.
    Resolved(usize),
}

/// Chooses, once, which specialization of a dispatch-tagged function runs.
pub struct Dispatcher {
    candidates: Vec<Extension>,
    state: Resolution,
}

impl Dispatcher {
    /// The candidate extensions, best first.
    pub closed spec fn candidates(&self) -> Seq<Extension> {
        self.candidates@
    }

    /// The current phase.
    pub closed spec fn state(&self) -> Resolution {
        self.state
    }

    /// The portable fallback is a candidate, and a resolved index names a candidate.
    pub open spec fn wf(&self) -> bool {
        &&& self.candidates().contains(Extension::Generic)
        &&& self.state() matches Resolution::Resolved(i) ==> i < self.candidates().len()
    }

    /// A dispatcher over `candidates`, best first; the portable fallback must be among them.
    pub fn new(candidates: Vec<Extension>) -> (r: Dispatcher)
        requires
            candidates@.contains(Extension::Generic),
        ensures
            r.wf(),
            r.candidates() == candidates@,
            r.state() == Resolution::Unresolved,
    {
        Dispatcher { candidates, state: Resolution::Unresolved }
    }

    /// A dispatcher over the candidates compiled in for `arch`.
    pub fn for_arch(arch: TargetArch) -> (r: Dispatcher)
        ensures
            r.wf(),
            r.candidates() == spec_candidates(arch),
            r.state() == Resolution::Unresolved,
    {
        let candidates = candidates_for(arch);
        proof {
            let last = (candidates@.len() - 1) as int;
            assert(candidates@[last] == Extension::Generic);
        }
        Dispatcher::new(candidates)
    }

    /// Returns the current phase.
    pub fn resolution(&self) -> (r: Resolution)
        ensures
            r == self.state(),
    {
        self.state
    }

    /// Returns the candidate extension at `index`.
    pub fn extension(&self, index: usize) -> (r: Extension)
        requires
            index < self.candidates().len(),
        ensures
            r == self.candidates()[index as int],
    {
        self.candidates[index]
    }

    /// Returns the index of the specialization to run. On the first call this is the first
    /// candidate that `features` supports, which is then kept: later calls return it again
    /// without looking at `features`.
    pub fn resolve(&mut self, features: &CpuFeatures) -> (r: usize)
        requires
            old(self).wf(),
        ensures
            final(self).wf(),
            final(self).candidates() == old(self).candidates(),
            final(self).state() == Resolution::Resolved(r),
            old(self).state() == Resolution::Unresolved ==> is_best(
                old(self).candidates(),
                *features,
                r as int,
            ),
            old(self).state() matches Resolution::Resolved(k) ==> r == k,
    {
        match self.state {
            Resolution::Resolved(k) => k,
            Resolution::Unresolved => {
                let chosen = select(self.candidates.as_slice(), features);
                match chosen {
                    Some(i) => {
                        self.state = Resolution::Resolved(i);
                        i
                    },
                    None => {
                        proof {
                            let g = self.candidates@.index_of(Extension::Generic);
                            assert(supports(*features, self.candidates@[g]));
                        }
                        0
                    },
                }
            },
        }
    }

    /// Returns the index of the specialization that a caller already running under `held`
    /// should call: the first candidate that `held` implies. No detection takes place.
    pub fn resolve_static(&self, held: Extension) -> (r: usize)
        requires
            self.wf(),
        ensures
            is_closest(self.candidates(), held, r as int),
    {
        match select_static(self.candidates.as_slice(), held) {
            Some(i) => i,
            None => {
                proof {
                    let g = self.candidates@.index_of(Extension::Generic);
                    assert(grants(held, self.candidates@[g]));
                }
                0
            },
        }
    }
}

} // verus!
