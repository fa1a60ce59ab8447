use smart_desk::settings::PersistentData;

#[test]
fn defaults_are_zero() {
    let d = PersistentData::new();
    assert_eq!((d.upper_height(), d.lower_height()), (0, 0));
}

#[test]
fn heights_are_kept() {
    let d = PersistentData::with_heights(120, 65);
    assert_eq!(d.upper_height(), 120);
    assert_eq!(d.lower_height(), 65);
}

#[test]
fn stored_configuration_is_used_as_is() {
    let (d, rewrite) = PersistentData::from_stored(Some(PersistentData::with_heights(120, 65)));
    assert_eq!((d.upper_height(), d.lower_height()), (120, 65));
    assert!(!rewrite);
}

#[test]
fn missing_configuration_falls_back_and_is_rewritten() {
    let (d, rewrite) = PersistentData::from_stored(None);
    assert_eq!((d.upper_height(), d.lower_height()), (0, 0));
    assert!(rewrite);
}
