use passivate::crate_id::CrateId;
use passivate::hyp_id::HypId;
use passivate::hyp_name_strategy::HypNameStrategy;
use passivate::package_id::PackageId;

const UNIT_PACKAGE: &str = "passivate_hyp_names";
const UNIT_CRATE: &str = "passivate_hyp_names";
const INTEGRATION_CRATE: &str = "integration_tests";

fn unit_test_id(function: &str) -> HypId {
    HypId::from_test_path(UNIT_PACKAGE, UNIT_CRATE, &format!("passivate_hyp_names::hyp_id::tests::{}", function))
}

fn integration_test_id(path: &str) -> HypId {
    HypId::from_test_path(UNIT_PACKAGE, INTEGRATION_CRATE, &format!("integration_tests::{}", path))
}

#[test]
pub fn example_unit_test_id() {
    let id = unit_test_id("example_unit_test_id").fully_qualified("::");

    assert_eq!("passivate_hyp_names::passivate_hyp_names::hyp_id::tests::example_unit_test_id", id);
}

#[test]
pub fn id_as_name_only_from_unit_test() {
    let id = unit_test_id("id_as_name_only_from_unit_test");

    let name = id.name(&HypNameStrategy::NameOnly);

    assert_eq!("id_as_name_only_from_unit_test", name);
}

#[test]
pub fn id_as_fully_qualified_from_unit_test() {
    let id = unit_test_id("id_as_fully_qualified_from_unit_test");
    let strategy = HypNameStrategy::FullyQualified { separator: "+".to_string() };

    let name = id.name(&strategy);

    assert_eq!(
        "passivate_hyp_names+passivate_hyp_names+hyp_id+tests+id_as_fully_qualified_from_unit_test",
        name
    );
}

#[test]
pub fn id_as_qualified_without_crate_from_unit_test() {
    let id = unit_test_id("id_as_qualified_without_crate_from_unit_test");
    let strategy = HypNameStrategy::QualifiedWithoutCrate { separator: "+".to_string() };

    let name = id.name(&strategy);

    assert_eq!("hyp_id+tests+id_as_qualified_without_crate_from_unit_test", name);
}

#[test]
pub fn example_unit_test_name() {
    let name = unit_test_id("example_unit_test_name").name(&HypNameStrategy::Default);

    assert_eq!("example_unit_test_name", name);
}

#[test]
pub fn example_integration_test_id() {
    let id = integration_test_id("example_integration_test_id");
    let fully_qualified = id.fully_qualified("::");

    assert_eq!("passivate_hyp_names::integration_tests::example_integration_test_id", fully_qualified);
}

#[test]
pub fn example_integration_test_id_qualified_without_crate() {
    let id = integration_test_id("example_integration_test_id_qualified_without_crate");
    let name = id.name(&HypNameStrategy::QualifiedWithoutCrate { separator: String::from("::") });

    assert_eq!("example_integration_test_id_qualified_without_crate", name);
}

#[test]
pub fn get_package_and_crate_name_from_test_id() {
    let id = integration_test_id("get_package_and_crate_name_from_test_id");

    assert_eq!("passivate_hyp_names::integration_tests", id.package_crate_name().join("::").as_str());
}

#[test]
pub fn example_integration_test_in_sub_mod_id() {
    let id = integration_test_id("sub_mod::example_integration_test_in_sub_mod_id").fully_qualified("::");

    assert_eq!(
        "passivate_hyp_names::integration_tests::sub_mod::example_integration_test_in_sub_mod_id",
        id
    );
}

#[test]
pub fn new_splits_the_name_on_path_separators() {
    let id = HypId::new("example_package", "example_crate", "tests::nested::example_test");

    assert_eq!(
        vec!["example_package", "example_crate", "tests", "nested", "example_test"],
        id.to_vec()
    );
    assert_eq!(vec!["tests", "nested", "example_test"], id.without_package_crate().to_vec());
}

#[test]
pub fn a_trailing_separator_is_ignored_but_inner_empty_parts_are_kept() {
    let id = HypId::new("p", "c", "a::::b::");

    assert_eq!(vec!["p", "c", "a", "", "b"], id.to_vec());
}

#[test]
pub fn overlapping_separators_split_at_the_leftmost() {
    let id = HypId::new("p", "c", "a:::b");

    assert_eq!(vec!["p", "c", "a", ":b"], id.to_vec());
}

#[test]
pub fn an_empty_name_gives_only_package_and_crate() {
    let id = HypId::new("p", "c", "");

    assert_eq!(vec!["p", "c"], id.to_vec());
    assert_eq!("c", id.name(&HypNameStrategy::NameOnly));
    assert_eq!("", id.name(&HypNameStrategy::QualifiedWithoutCrate { separator: "::".to_string() }));
}

#[test]
pub fn package_and_crate_ids_come_from_the_chain() {
    let id = HypId::new("example_package", "example_crate", "example_test");

    assert_eq!(PackageId::from(String::from("example_package")), id.package_id());
    assert_eq!(CrateId::from(String::from("example_crate")), id.crate_id());
    assert_eq!("example_package", &*id.package_id());
    assert_eq!("example_crate", id.crate_id().as_str());
}

#[test]
pub fn a_function_path_outside_the_crate_keeps_its_first_segment() {
    let id = HypId::from_test_path("pkg", "my_crate", "other::tests::t");

    assert_eq!("pkg::my_crate::other::tests::t", id.fully_qualified("::"));
}

#[test]
pub fn a_clone_has_the_same_chain() {
    let id = HypId::new("p", "c", "m::t");

    assert_eq!(id, id.clone());
}
