//! Molecules: ordered formulas of elements with repeat counts, and their
//! exact masses.

use vstd::prelude::*;

verus! {

use crate::chemistry::carbon::CarbonIsotope;
use crate::chemistry::elements::Element;
use crate::chemistry::helium::HeliumIsotope;
use crate::chemistry::hydrogen::HydrogenIsotope;
use crate::chemistry::oxygen::OxygenIsotope;

/// A molecule may hold at most this many formula components.
pub const MAX_MOLECULE_COMPONENTS: usize = 100;

/// A single formula component may repeat its element at most this many times.
pub const MAX_COMPONENT_COUNT: usize = 10_000;

/// A molecule: an ordered formula of elemental isotopes, each with the number
/// of times it occurs.
#[derive(Debug)]
pub struct Molecule(Vec<(Element, usize)>);

impl View for Molecule {
    type V = Seq<(Element, usize)>;

    closed spec fn view(&self) -> Seq<(Element, usize)> {
        self.0@
    }
}

/// Every repeat count in the formula stays within the supported range.
pub open spec fn counts_bounded(s: Seq<(Element, usize)>) -> bool {
    forall|i: int| 0 <= i < s.len() ==> (#[trigger] s[i]).1 <= MAX_COMPONENT_COUNT
}

/// Sum of the component masses: each element's atomic mass times its repeat
/// count, in ten-thousandths of a dalton.
pub open spec fn formula_mass_of(s: Seq<(Element, usize)>) -> int
    decreases s.len(),
{
    if s.len() == 0 {
        0
    } else {
        formula_mass_of(s.drop_last()) + s.last().0.atomic_mass_number_spec() * s.last().1
    }
}

/// The formula mass of a bounded formula is non-negative and at most the
/// number of components times the largest possible single-component mass.
proof fn lemma_formula_mass_bounds(s: Seq<(Element, usize)>)
    requires
        counts_bounded(s),
    ensures
        0 <= formula_mass_of(s) <= s.len() * 42_949_672_950_000,
    decreases s.len(),
{
    if s.len() > 0 {
        assert(counts_bounded(s.drop_last())) by {
            assert(forall|i: int| 0 <= i < s.len() - 1 ==> s.drop_last()[i] == s[i]);
        }
        lemma_formula_mass_bounds(s.drop_last());
        let m = s.last().0.atomic_mass_number_spec();
        let c = s.last().1;
        assert(0 <= m * c <= 42_949_672_950_000) by (nonlinear_arith)
            requires 0 <= m < 4_294_967_296, 0 <= c <= 10_000;
    }
}

impl Molecule {
    /// Every repeat count of this molecule stays within the supported range,
    /// and the formula is not longer than the supported maximum.
    pub open spec fn wf(&self) -> bool {
        self@.len() <= MAX_MOLECULE_COMPONENTS && counts_bounded(self@)
    }

    /// Create a new molecule from a provided vector of formula components.
    pub fn new(elements: Vec<(Element, usize)>) -> (r: Molecule)
        requires
            elements@.len() <= MAX_MOLECULE_COMPONENTS,
            counts_bounded(elements@),
        ensures
            r@ == elements@,
            r.wf(),
    {
        Molecule(elements)
    }

    /// Helper function for creating an instance of a molecular hydrogen molecule.
    pub fn molecular_hydrogen() -> (r: Molecule)
        ensures
            r@ == seq![(Element::Hydrogen(HydrogenIsotope::Hydrogen), 2usize)],
            r.wf(),
    {
        Molecule::new(vec![(Element::Hydrogen(HydrogenIsotope::Hydrogen), 2)])
    }

    /// Helper function for creating an instance of an atomic hydrogen molecule.
    pub fn atomic_hydrogen() -> (r: Molecule)
        ensures
            r@ == seq![(Element::Hydrogen(HydrogenIsotope::Hydrogen), 1usize)],
            r.wf(),
    {
        Molecule::new(vec![(Element::Hydrogen(HydrogenIsotope::Hydrogen), 1)])
    }

    /// Helper function for creating an instance of a water molecule.
    pub fn water() -> (r: Molecule)
        ensures
            r@ == seq![
                (Element::Hydrogen(HydrogenIsotope::Hydrogen), 2usize),
                (Element::Oxygen(OxygenIsotope::Oxygen), 1usize),
            ],
            r.wf(),
    {
        Molecule::new(vec![
            (Element::Hydrogen(HydrogenIsotope::Hydrogen), 2),
            (Element::Oxygen(OxygenIsotope::Oxygen), 1),
        ])
    }

    /// Helper function for creating an instance of a carbon monoxide molecule.
    pub fn carbon_monoxide() -> (r: Molecule)
        ensures
            r@ == seq![
                (Element::Carbon(CarbonIsotope::Carbon), 1usize),
                (Element::Oxygen(OxygenIsotope::Oxygen), 1usize),
            ],
            r.wf(),
    {
        Molecule::new(vec![
            (Element::Carbon(CarbonIsotope::Carbon), 1),
            (Element::Oxygen(OxygenIsotope::Oxygen), 1),
        ])
    }

    /// Helper function for creating an instance of a carbon dioxide molecule.
    pub fn carbon_dioxide() -> (r: Molecule)
        ensures
            r@ == seq![
                (Element::Carbon(CarbonIsotope::Carbon), 1usize),
                (Element::Oxygen(OxygenIsotope::Oxygen), 2usize),
            ],
            r.wf(),
    {
        Molecule::new(vec![
            (Element::Carbon(CarbonIsotope::Carbon), 1),
            (Element::Oxygen(OxygenIsotope::Oxygen), 2),
        ])
    }

    /// Helper function for creating an instance of an O2 molecule.
    pub fn molecular_oxygen() -> (r: Molecule)
        ensures
            r@ == seq![(Element::Oxygen(OxygenIsotope::Oxygen), 2usize)],
            r.wf(),
    {
        Molecule::new(vec![(Element::Oxygen(OxygenIsotope::Oxygen), 2)])
    }

    /// Helper function for creating an instance of an atomic helium molecule.
    pub fn atomic_helium() -> (r: Molecule)
        ensures
            r@ == seq![(Element::Helium(HeliumIsotope::Helium), 1usize)],
            r.wf(),
    {
        Molecule::new(vec![(Element::Helium(HeliumIsotope::Helium), 1)])
    }

    fn relative_formula_mass(&self) -> (m: u64)
        requires
            self.wf(),
        ensures
            m == formula_mass_of(self@),
    {
        let mut acc: u64 = 0;
        let mut i: usize = 0;
        while i < self.0.len()
            invariant
                self.wf(),
                i <= self@.len(),
                acc == formula_mass_of(self@.subrange(0, i as int)),
                acc <= i * 42_949_672_950_000,
            decreases self@.len() - i,
        {
            let (element, count) = self.0[i];
            let mass = element.atomic_mass_number();
            assert(0 <= (mass as u64) * (count as u64) <= 42_949_672_950_000) by (nonlinear_arith)
                requires 0 <= mass < 4_294_967_296, 0 <= count <= 10_000;
            proof {
                let prefix = self@.subrange(0, i + 1);
                assert(prefix.drop_last() =~= self@.subrange(0, i as int));
                assert(prefix.last() == self@[i as int]);
            }
            acc = acc + (mass as u64) * (count as u64);
            i = i + 1;
        }
        proof {
            assert(self@.subrange(0, self@.len() as int) =~= self@);
        }
        acc
    }

    /// Get the molecular weight of a given molecule, in ten-thousandths of a
    /// dalton.
    pub fn molecular_weight(&self) -> (w: u64)
        requires
            self.wf(),
        ensures
            w == formula_mass_of(self@),
    {
        self.relative_formula_mass()
    }

    /// Get the molar mass of a given molecule, in ten-thousandths of a gram
    /// per mole (numerically equal to the molecular weight in ten-thousandths
    /// of a dalton).
    pub fn molar_mass(&self) -> (w: u64)
        requires
            self.wf(),
        ensures
            w == formula_mass_of(self@),
    {
        self.relative_formula_mass()
    }
}

impl Clone for Molecule {
    /// The clone of a molecule has exactly the same formula.
    fn clone(&self) -> (r: Molecule)
        ensures
            r@ == self@,
    {
        let mut components: Vec<(Element, usize)> = Vec::new();
        let mut i: usize = 0;
        while i < self.0.len()
            invariant
                i <= self@.len(),
                components@ =~= self@.subrange(0, i as int),
            decreases self@.len() - i,
        {
            components.push(self.0[i]);
            i = i + 1;
        }
        proof {
            assert(self@.subrange(0, self@.len() as int) =~= self@);
        }
        Molecule(components)
    }
}

impl PartialEq for Molecule {
    /// Two molecules are equal exactly when their formulas are equal.
    fn eq(&self, other: &Molecule) -> (r: bool) {
        if self.0.len() != other.0.len() {
            return false;
        }
        let mut i: usize = 0;
        while i < self.0.len()
            invariant
                self@.len() == other@.len(),
                i <= self@.len(),
                forall|j: int| 0 <= j < i ==> self@[j] == other@[j],
            decreases self@.len() - i,
        {
            let (element_a, count_a) = self.0[i];
            let (element_b, count_b) = other.0[i];
            if element_a != element_b || count_a != count_b {
                proof {
                    assert(self@[i as int] != other@[i as int]);
                }
                return false;
            }
            i = i + 1;
        }
        proof {
            assert(self@ =~= other@);
        }
        true
    }
}

impl Eq for Molecule {

}

impl vstd::std_specs::cmp::PartialEqSpecImpl for Molecule {
    open spec fn obeys_eq_spec() -> bool {
        true
    }

    open spec fn eq_spec(&self, other: &Molecule) -> bool {
        self@ == other@
    }
}

} // verus!
