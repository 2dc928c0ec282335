use nebula::chemistry::elements::Element;
use nebula::chemistry::helium::HeliumIsotope;
use nebula::chemistry::hydrogen::HydrogenIsotope;
use nebula::chemistry::molecules::Molecule;
use nebula::chemistry::oxygen::OxygenIsotope;

#[test]
fn chemistry_test_test_molecular_weight() {}

#[test]
fn molecules_test_test_molecular_weight() {
    let molecular_hydrogen = Molecule::molecular_hydrogen();
    assert_eq!(molecular_hydrogen.molecular_weight(), 20156);
    assert_eq!(molecular_hydrogen.molar_mass(), 20156);

    let carbon_monoxide = Molecule::carbon_monoxide();
    assert_eq!(carbon_monoxide.molecular_weight(), 279949);
    assert_eq!(carbon_monoxide.molar_mass(), 279949);

    let water = Molecule::water();
    assert_eq!(water.molecular_weight(), 180105);
    assert_eq!(water.molar_mass(), 180105);
}

#[test]
fn atomic_mass_numbers_of_elements() {
    let hydrogen = Element::Hydrogen(HydrogenIsotope::Hydrogen);
    assert_eq!(hydrogen.atomic_mass_number(), 10078);

    let helium = Element::Helium(HeliumIsotope::Helium);
    assert_eq!(helium.atomic_mass_number(), 40026);

    let oxygen = Element::Oxygen(OxygenIsotope::Oxygen);
    assert_eq!(oxygen.atomic_mass_number(), 159949);
}

#[test]
fn atomic_mass_numbers_of_isotopes() {
    let deuterium = Element::Hydrogen(HydrogenIsotope::Deuterium);
    assert_eq!(deuterium.atomic_mass_number(), 20141);

    let tritium = Element::Hydrogen(HydrogenIsotope::Tritium);
    assert_eq!(tritium.atomic_mass_number(), 30160);
}

#[test]
fn element_symbols() {
    assert_eq!(Element::Hydrogen(HydrogenIsotope::Hydrogen).symbol(), "H");
    assert_eq!(Element::Helium(HeliumIsotope::Helium).symbol(), "He");
    assert_eq!(Element::Oxygen(OxygenIsotope::Oxygen).symbol(), "O");
    assert_eq!(
        Element::Carbon(nebula::chemistry::carbon::CarbonIsotope::Carbon).symbol(),
        "C"
    );
    assert_eq!(
        Element::Silicon(nebula::chemistry::silicon::SiliconIsotope::Silicon).symbol(),
        "Si"
    );
}

#[test]
fn molecule_equality_goes_by_formula() {
    let by_hand = Molecule::new(vec![(Element::Hydrogen(HydrogenIsotope::Hydrogen), 2)]);
    assert_eq!(by_hand, Molecule::molecular_hydrogen());
    assert_ne!(by_hand, Molecule::atomic_hydrogen());
    assert_ne!(Molecule::water(), Molecule::carbon_dioxide());
    assert_eq!(Molecule::water().clone(), Molecule::water());
}
