//! Chemical data: elements with their isotope tables, and molecules built
//! from them.

pub mod carbon;
pub mod elements;
pub mod helium;
pub mod hydrogen;
pub mod molecules;
pub mod oxygen;
pub mod silicon;
