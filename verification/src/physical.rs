use vstd::prelude::*;

verus! {

/// The terms of a physical spring as a caller sets them: a mass, and a
/// stiffness and damping that may be left unset.
///
/// Stiffness and damping are only meaningful next to a mass, so an unset term
/// is not fixed up front but derived when the spring is built, from the terms
/// that were set.
#[derive(Debug, Clone, Copy)]
pub struct PhysicalTerms<N> {
    pub mass: N,
    pub stiffness: Option<N>,
    pub damping: Option<N>,
}

impl<N> PhysicalTerms<N> {
    /// The stiffness a build uses when `derived` is what an unset one becomes.
    pub open spec fn built_stiffness(self, derived: N) -> N {
        match self.stiffness {
            Some(k) => k,
            None => derived,
        }
    }

    /// The damping a build uses when `derived` is what an unset one becomes.
    pub open spec fn built_damping(self, derived: N) -> N {
        match self.damping {
            Some(c) => c,
            None => derived,
        }
    }
}

impl<N: Copy> PhysicalTerms<N> {
    /// Only a mass; stiffness and damping unset.
    pub fn new(mass: N) -> (terms: Self)
        ensures
            terms == (PhysicalTerms { mass, stiffness: None::<N>, damping: None::<N> }),
    {
        PhysicalTerms { mass, stiffness: None, damping: None }
    }

    pub fn with_mass(self, mass: N) -> (terms: Self)
        ensures
            terms == (PhysicalTerms { mass, ..self }),
    {
        PhysicalTerms { mass, ..self }
    }

    pub fn with_stiffness(self, stiffness: N) -> (terms: Self)
        ensures
            terms == (PhysicalTerms { stiffness: Some(stiffness), ..self }),
    {
        PhysicalTerms { stiffness: Some(stiffness), ..self }
    }

    pub fn with_damping(self, damping: N) -> (terms: Self)
        ensures
            terms == (PhysicalTerms { damping: Some(damping), ..self }),
    {
        PhysicalTerms { damping: Some(damping), ..self }
    }

    /// The stiffness the spring is built with: the one set, or else `derived`
    /// (what the mass needs to oscillate at the default duration).
    pub fn stiffness_or(&self, derived: N) -> (stiffness: N)
        ensures
            stiffness == self.built_stiffness(derived),
            self.stiffness matches Some(k) ==> stiffness == k,
            self.stiffness is None ==> stiffness == derived,
    {
        match self.stiffness {
            Some(k) => k,
            None => derived,
        }
    }

    /// The damping the spring is built with: the one set, or else `derived`
    /// (the default bounce at the frequency the mass and the built stiffness
    /// produce).
    pub fn damping_or(&self, derived: N) -> (damping: N)
        ensures
            damping == self.built_damping(derived),
            self.damping matches Some(c) ==> damping == c,
            self.damping is None ==> damping == derived,
    {
        match self.damping {
            Some(c) => c,
            None => derived,
        }
    }
}

/// A term that was set is built as set, whatever an unset one would have
/// been derived as; a term left unset is built as derived.
pub proof fn lemma_set_terms_pass_through<N>(terms: PhysicalTerms<N>, derived_stiffness: N, derived_damping: N)
    ensures
        terms.stiffness matches Some(k) ==> terms.built_stiffness(derived_stiffness) == k,
        terms.damping matches Some(c) ==> terms.built_damping(derived_damping) == c,
        terms.stiffness is None ==> terms.built_stiffness(derived_stiffness) == derived_stiffness,
        terms.damping is None ==> terms.built_damping(derived_damping) == derived_damping,
{
}

} // verus!
