//! Isotopes of silicon and their atomic masses.

use vstd::prelude::*;

verus! {

#[derive(Clone, Copy, Debug, PartialEq, Eq, Hash, Structural)]
pub enum SiliconIsotope {
    Silicon22,
    Silicon23,
    Silicon24,
    Silicon25,
    Silicon26,
    Silicon27,
    Silicon,
    Silicon29,
    Silicon30,
    Silicon31,
    Silicon32,
    Silicon33,
    Silicon34,
    Silicon35,
    Silicon36,
    Silicon37,
    Silicon38,
    Silicon39,
    Silicon40,
    Silicon41,
    Silicon42,
    Silicon43,
    Silicon44,
}

impl SiliconIsotope {
    /// Atomic mass of the isotope, in ten-thousandths of a dalton.
    pub open spec fn atomic_mass_number_spec(&self) -> u32 {
        match self {
            SiliconIsotope::Silicon22 => 220357,
            SiliconIsotope::Silicon23 => 230254,
            SiliconIsotope::Silicon24 => 240115,
            SiliconIsotope::Silicon25 => 250041,
            SiliconIsotope::Silicon26 => 259923,
            SiliconIsotope::Silicon27 => 269867,
            SiliconIsotope::Silicon => 279769,
            SiliconIsotope::Silicon29 => 289764,
            SiliconIsotope::Silicon30 => 299737,
            SiliconIsotope::Silicon31 => 309753,
            SiliconIsotope::Silicon32 => 319741,
            SiliconIsotope::Silicon33 => 329779,
            SiliconIsotope::Silicon34 => 339785,
            SiliconIsotope::Silicon35 => 349845,
            SiliconIsotope::Silicon36 => 359866,
            SiliconIsotope::Silicon37 => 369929,
            SiliconIsotope::Silicon38 => 379955,
            SiliconIsotope::Silicon39 => 390024,
            SiliconIsotope::Silicon40 => 400058,
            SiliconIsotope::Silicon41 => 410130,
            SiliconIsotope::Silicon42 => 420176,
            SiliconIsotope::Silicon43 => 430248,
            SiliconIsotope::Silicon44 => 440306,
        }
    }

    /// Atomic mass of the isotope, in ten-thousandths of a dalton.
    pub fn atomic_mass_number(&self) -> (m: u32)
        ensures
            m == self.atomic_mass_number_spec(),
    {
        match self {
            SiliconIsotope::Silicon22 => 220357,
            SiliconIsotope::Silicon23 => 230254,
            SiliconIsotope::Silicon24 => 240115,
            SiliconIsotope::Silicon25 => 250041,
            SiliconIsotope::Silicon26 => 259923,
            SiliconIsotope::Silicon27 => 269867,
            SiliconIsotope::Silicon => 279769,
            SiliconIsotope::Silicon29 => 289764,
            SiliconIsotope::Silicon30 => 299737,
            SiliconIsotope::Silicon31 => 309753,
            SiliconIsotope::Silicon32 => 319741,
            SiliconIsotope::Silicon33 => 329779,
            SiliconIsotope::Silicon34 => 339785,
            SiliconIsotope::Silicon35 => 349845,
            SiliconIsotope::Silicon36 => 359866,
            SiliconIsotope::Silicon37 => 369929,
            SiliconIsotope::Silicon38 => 379955,
            SiliconIsotope::Silicon39 => 390024,
            SiliconIsotope::Silicon40 => 400058,
            SiliconIsotope::Silicon41 => 410130,
            SiliconIsotope::Silicon42 => 420176,
            SiliconIsotope::Silicon43 => 430248,
            SiliconIsotope::Silicon44 => 440306,
        }
    }
}

} // verus!
