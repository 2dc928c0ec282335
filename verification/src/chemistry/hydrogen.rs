//! Isotopes of hydrogen and their atomic masses.

use vstd::prelude::*;

verus! {

#[derive(Clone, Copy, Debug, PartialEq, Eq, Hash, Structural)]
pub enum HydrogenIsotope {
    Hydrogen,
    Deuterium,
    Tritium,
    Hydrogen4,
    Hydrogen5,
    Hydrogen6,
    Hydrogen7,
}

impl HydrogenIsotope {
    /// Atomic mass of the isotope, in ten-thousandths of a dalton.
    pub open spec fn atomic_mass_number_spec(&self) -> u32 {
        match self {
            HydrogenIsotope::Hydrogen => 10078,
            HydrogenIsotope::Deuterium => 20141,
            HydrogenIsotope::Tritium => 30160,
            HydrogenIsotope::Hydrogen4 => 40264,
            HydrogenIsotope::Hydrogen5 => 50351,
            HydrogenIsotope::Hydrogen6 => 60449,
            HydrogenIsotope::Hydrogen7 => 70527,
        }
    }

    /// Atomic mass of the isotope, in ten-thousandths of a dalton.
    pub fn atomic_mass_number(&self) -> (m: u32)
        ensures
            m == self.atomic_mass_number_spec(),
    {
        match self {
            HydrogenIsotope::Hydrogen => 10078,
            HydrogenIsotope::Deuterium => 20141,
            HydrogenIsotope::Tritium => 30160,
            HydrogenIsotope::Hydrogen4 => 40264,
            HydrogenIsotope::Hydrogen5 => 50351,
            HydrogenIsotope::Hydrogen6 => 60449,
            HydrogenIsotope::Hydrogen7 => 70527,
        }
    }
}

} // verus!
