//! Isotopes of oxygen and their atomic masses.

use vstd::prelude::*;

verus! {

#[derive(Clone, Copy, Debug, PartialEq, Eq, Hash, Structural)]
pub enum OxygenIsotope {
    Oxygen11,
    Oxygen12,
    Oxygen13,
    Oxygen14,
    Oxygen15,
    Oxygen,
    Oxygen17,
    Oxygen18,
    Oxygen19,
    Oxygen20,
    Oxygen21,
    Oxygen22,
    Oxygen23,
    Oxygen24,
    Oxygen25,
    Oxygen26,
    Oxygen27,
    Oxygen28,
}

impl OxygenIsotope {
    /// Atomic mass of the isotope, in ten-thousandths of a dalton.
    pub open spec fn atomic_mass_number_spec(&self) -> u32 {
        match self {
            OxygenIsotope::Oxygen11 => 110512,
            OxygenIsotope::Oxygen12 => 120343,
            OxygenIsotope::Oxygen13 => 130248,
            OxygenIsotope::Oxygen14 => 140085,
            OxygenIsotope::Oxygen15 => 150030,
            OxygenIsotope::Oxygen => 159949,
            OxygenIsotope::Oxygen17 => 169991,
            OxygenIsotope::Oxygen18 => 179991,
            OxygenIsotope::Oxygen19 => 190035,
            OxygenIsotope::Oxygen20 => 200040,
            OxygenIsotope::Oxygen21 => 210086,
            OxygenIsotope::Oxygen22 => 220099,
            OxygenIsotope::Oxygen23 => 230157,
            OxygenIsotope::Oxygen24 => 240198,
            OxygenIsotope::Oxygen25 => 250293,
            OxygenIsotope::Oxygen26 => 260372,
            OxygenIsotope::Oxygen27 => 270479,
            OxygenIsotope::Oxygen28 => 280559,
        }
    }

    /// Atomic mass of the isotope, in ten-thousandths of a dalton.
    pub fn atomic_mass_number(&self) -> (m: u32)
        ensures
            m == self.atomic_mass_number_spec(),
    {
        match self {
            OxygenIsotope::Oxygen11 => 110512,
            OxygenIsotope::Oxygen12 => 120343,
            OxygenIsotope::Oxygen13 => 130248,
            OxygenIsotope::Oxygen14 => 140085,
            OxygenIsotope::Oxygen15 => 150030,
            OxygenIsotope::Oxygen => 159949,
            OxygenIsotope::Oxygen17 => 169991,
            OxygenIsotope::Oxygen18 => 179991,
            OxygenIsotope::Oxygen19 => 190035,
            OxygenIsotope::Oxygen20 => 200040,
            OxygenIsotope::Oxygen21 => 210086,
            OxygenIsotope::Oxygen22 => 220099,
            OxygenIsotope::Oxygen23 => 230157,
            OxygenIsotope::Oxygen24 => 240198,
            OxygenIsotope::Oxygen25 => 250293,
            OxygenIsotope::Oxygen26 => 260372,
            OxygenIsotope::Oxygen27 => 270479,
            OxygenIsotope::Oxygen28 => 280559,
        }
    }
}

} // verus!
