//! Isotopes of carbon and their atomic masses.

use vstd::prelude::*;

verus! {

#[derive(Clone, Copy, Debug, PartialEq, Eq, Hash, Structural)]
pub enum CarbonIsotope {
    Carbon8,
    Carbon9,
    Carbon10,
    Carbon11,
    Carbon,
    Caron13,
    Carbon14,
    Carbon15,
    Carbon16,
    Carbon17,
    Carbon18,
    Carbon19,
    Carbon20,
    Carbon21,
    Carbon22,
}

impl CarbonIsotope {
    /// Atomic mass of the isotope, in ten-thousandths of a dalton.
    pub open spec fn atomic_mass_number_spec(&self) -> u32 {
        match self {
            CarbonIsotope::Carbon8 => 80376,
            CarbonIsotope::Carbon9 => 90310,
            CarbonIsotope::Carbon10 => 100168,
            CarbonIsotope::Carbon11 => 110114,
            CarbonIsotope::Carbon => 120000,
            CarbonIsotope::Caron13 => 130035,
            CarbonIsotope::Carbon14 => 140032,
            CarbonIsotope::Carbon15 => 150105,
            CarbonIsotope::Carbon16 => 160147,
            CarbonIsotope::Carbon17 => 170225,
            CarbonIsotope::Carbon18 => 180267,
            CarbonIsotope::Carbon19 => 190348,
            CarbonIsotope::Carbon20 => 200402,
            CarbonIsotope::Carbon21 => 210490,
            CarbonIsotope::Carbon22 => 220575,
        }
    }

    /// Atomic mass of the isotope, in ten-thousandths of a dalton.
    pub fn atomic_mass_number(&self) -> (m: u32)
        ensures
            m == self.atomic_mass_number_spec(),
    {
        match self {
            CarbonIsotope::Carbon8 => 80376,
            CarbonIsotope::Carbon9 => 90310,
            CarbonIsotope::Carbon10 => 100168,
            CarbonIsotope::Carbon11 => 110114,
            CarbonIsotope::Carbon => 120000,
            CarbonIsotope::Caron13 => 130035,
            CarbonIsotope::Carbon14 => 140032,
            CarbonIsotope::Carbon15 => 150105,
            CarbonIsotope::Carbon16 => 160147,
            CarbonIsotope::Carbon17 => 170225,
            CarbonIsotope::Carbon18 => 180267,
            CarbonIsotope::Carbon19 => 190348,
            CarbonIsotope::Carbon20 => 200402,
            CarbonIsotope::Carbon21 => 210490,
            CarbonIsotope::Carbon22 => 220575,
        }
    }
}

} // verus!
