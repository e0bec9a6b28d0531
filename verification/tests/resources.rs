use carbonium::planet::{basic_resources, complex_resources};
use carbonium::types::{BasicKind, ComplexKind};
use std::collections::HashSet;

#[test]
fn carbonium_basic_resources() {
    let basic_resources: HashSet<BasicKind> = basic_resources().into_iter().collect();
    assert!(basic_resources.contains(&BasicKind::Carbon));
    assert_eq!(basic_resources.len(), 1);
}

#[test]
fn carbonium_complex_resources() {
    let complex_resources: HashSet<ComplexKind> = complex_resources().into_iter().collect();
    assert!(complex_resources.is_empty());
}
