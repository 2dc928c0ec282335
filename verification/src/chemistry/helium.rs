//! Isotopes of helium and their atomic masses.

use vstd::prelude::*;

verus! {

#[derive(Clone, Copy, Debug, PartialEq, Eq, Hash, Structural)]
pub enum HeliumIsotope {
    Helium,
    Helium2,
    Helium3,
    Helium5,
    Helium6,
    Helium7,
    Helium8,
    Helium9,
    Helium10,
}

impl HeliumIsotope {
    /// Atomic mass of the isotope, in ten-thousandths of a dalton.
    pub open spec fn atomic_mass_number_spec(&self) -> u32 {
        match self {
            HeliumIsotope::Helium => 40026,
            HeliumIsotope::Helium2 => 20158,
            HeliumIsotope::Helium3 => 30160,
            HeliumIsotope::Helium5 => 50120,
            HeliumIsotope::Helium6 => 60188,
            HeliumIsotope::Helium7 => 70279,
            HeliumIsotope::Helium8 => 80339,
            HeliumIsotope::Helium9 => 90439,
            HeliumIsotope::Helium10 => 100528,
        }
    }

    /// Atomic mass of the isotope, in ten-thousandths of a dalton.
    pub fn atomic_mass_number(&self) -> (m: u32)
        ensures
            m == self.atomic_mass_number_spec(),
    {
        match self {
            HeliumIsotope::Helium => 40026,
            HeliumIsotope::Helium2 => 20158,
            HeliumIsotope::Helium3 => 30160,
            HeliumIsotope::Helium5 => 50120,
            HeliumIsotope::Helium6 => 60188,
            HeliumIsotope::Helium7 => 70279,
            HeliumIsotope::Helium8 => 80339,
            HeliumIsotope::Helium9 => 90439,
            HeliumIsotope::Helium10 => 100528,
        }
    }
}

} // verus!
