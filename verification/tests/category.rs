use spending::category::Category;

#[test]
fn names_match_tags() {
    assert_eq!(Category::Dining.name(), "Dining");
    assert_eq!(Category::Grocery.name(), "Grocery");
    assert_eq!(Category::Travel.name(), "Travel");
    assert_eq!(Category::Merchandise.name(), "Merchandise");
    assert_eq!(Category::Entertainment.name(), "Entertainment");
    assert_eq!(Category::Other.name(), "Other");
}

#[test]
fn from_name_round_trip() {
    let all = [
        Category::Dining,
        Category::Grocery,
        Category::Travel,
        Category::Merchandise,
        Category::Entertainment,
        Category::Other,
    ];
    for c in all {
        assert_eq!(Category::from_name(c.name()), Some(c));
    }
}

#[test]
fn from_name_rejects_unknown() {
    assert_eq!(Category::from_name("Fuel"), None);
    assert_eq!(Category::from_name(""), None);
    assert_eq!(Category::from_name("dining"), None);
    assert_eq!(Category::from_name("OTHER"), None);
    assert_eq!(Category::from_name("Dining "), None);
}
