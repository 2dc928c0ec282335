//! The elements of the model, each carrying its isotope, together with the
//! kinds of radioactive decay that isotope data can refer to.

use vstd::prelude::*;

verus! {

use crate::chemistry::carbon::CarbonIsotope;
use crate::chemistry::helium::HeliumIsotope;
use crate::chemistry::hydrogen::HydrogenIsotope;
use crate::chemistry::oxygen::OxygenIsotope;
use crate::chemistry::silicon::SiliconIsotope;

/// The mode of a radioactive decay process.
#[derive(Clone, Copy, Debug, PartialEq, Eq, Structural)]
pub enum DecayType {
    WithNucleonEmission(WithNucleonEmission),
    Beta(Beta),
}

/// Decay modes that emit nucleons.
#[derive(Clone, Copy, Debug, PartialEq, Eq, Structural)]
pub enum WithNucleonEmission {
    AlphaDecay,
    ProtonEmission,
    DoubleProtonEmission,
    NeutronEmission,
    DoubleNeutronEmission,
    TripleNeutronEmission,
    SpontaneousFission,
    ClusterDecay,
}

/// Beta decay modes.
#[derive(Clone, Copy, Debug, PartialEq, Eq, Structural)]
pub enum Beta {
    BetaMinus,
    BetaPlus,
    ElectronCapture,
    BoundState,
    Double,
    DoubleElectronCapture,
    ElectronCaptureWithProtonEmission,
    DoublePositron,
}

/// An element together with the isotope at hand.
#[derive(Clone, Copy, Debug, PartialEq, Eq, Hash, Structural)]
pub enum Element {
    Hydrogen(HydrogenIsotope),
    Helium(HeliumIsotope),
    Oxygen(OxygenIsotope),
    Carbon(CarbonIsotope),
    Silicon(SiliconIsotope),
}

impl Element {
    /// Atomic mass of the element's isotope, in ten-thousandths of a dalton.
    pub open spec fn atomic_mass_number_spec(&self) -> u32 {
        match self {
            Element::Hydrogen(isotope) => isotope.atomic_mass_number_spec(),
            Element::Helium(isotope) => isotope.atomic_mass_number_spec(),
            Element::Oxygen(isotope) => isotope.atomic_mass_number_spec(),
            Element::Carbon(isotope) => isotope.atomic_mass_number_spec(),
            Element::Silicon(isotope) => isotope.atomic_mass_number_spec(),
        }
    }

    /// Atomic mass of the element's isotope, in ten-thousandths of a dalton.
    pub fn atomic_mass_number(&self) -> (m: u32)
        ensures
            m == self.atomic_mass_number_spec(),
    {
        match self {
            Element::Hydrogen(isotope) => isotope.atomic_mass_number(),
            Element::Helium(isotope) => isotope.atomic_mass_number(),
            Element::Oxygen(isotope) => isotope.atomic_mass_number(),
            Element::Carbon(isotope) => isotope.atomic_mass_number(),
            Element::Silicon(isotope) => isotope.atomic_mass_number(),
        }
    }

    /// The chemical symbol of the element.
    pub open spec fn symbol_spec(&self) -> Seq<char> {
        match self {
            Element::Hydrogen(_) => "H"@,
            Element::Helium(_) => "He"@,
            Element::Oxygen(_) => "O"@,
            Element::Carbon(_) => "C"@,
            Element::Silicon(_) => "Si"@,
        }
    }

    /// The chemical symbol of the element.
    pub fn symbol(&self) -> (s: &str)
        ensures
            s@ == self.symbol_spec(),
    {
        match self {
            Element::Hydrogen(_) => "H",
            Element::Helium(_) => "He",
            Element::Oxygen(_) => "O",
            Element::Carbon(_) => "C",
            Element::Silicon(_) => "Si",
        }
    }
}

} // verus!
