use policy_tracker::domain::{Region, SourceCategory};

#[test]
fn region_codes_are_stable() {
    assert_eq!(Region::UnitedStates.as_code(), "us");
    assert_eq!(Region::Canada.as_code(), "ca");
    assert_eq!(Region::Global.as_code(), "global");
    assert_eq!(Region::from_code("global"), Some(Region::Global));
    assert_eq!(Region::from_code("unknown"), None);
}

#[test]
fn source_category_codes_are_stable() {
    assert_eq!(SourceCategory::Policy.as_code(), "policy");
    assert_eq!(SourceCategory::News.as_code(), "news");
    assert_eq!(SourceCategory::from_code("news"), Some(SourceCategory::News));
    assert_eq!(SourceCategory::from_code("unknown"), None);
}

#[test]
fn codes_read_back_as_the_same_value() {
    for region in [Region::UnitedStates, Region::Canada, Region::Global] {
        assert_eq!(Region::from_code(region.as_code()), Some(region));
    }
    for category in [SourceCategory::Policy, SourceCategory::News] {
        assert_eq!(SourceCategory::from_code(category.as_code()), Some(category));
    }
    assert_eq!(Region::from_code("US"), None);
    assert_eq!(SourceCategory::from_code(" news"), None);
}
