use mujs::{PropertyAttributes, StateFlags};

#[test]
fn attribute_bits_are_the_c_values() {
    assert_eq!(PropertyAttributes::empty().bits(), 0);
    assert_eq!(PropertyAttributes::readonly().bits(), 1);
    assert_eq!(PropertyAttributes::dontenum().bits(), 2);
    assert_eq!(PropertyAttributes::dontconf().bits(), 4);
    assert_eq!(PropertyAttributes::all().bits(), 7);
}

#[test]
fn attributes_from_known_bits() {
    let a = PropertyAttributes::from_bits(5).unwrap();
    assert!(a.contains(&PropertyAttributes::readonly()));
    assert!(a.contains(&PropertyAttributes::dontconf()));
    assert!(!a.contains(&PropertyAttributes::dontenum()));
    assert_eq!(a.bits(), 5);
}

#[test]
fn attributes_from_unknown_bits_are_refused() {
    assert_eq!(PropertyAttributes::from_bits(8), None);
    assert_eq!(PropertyAttributes::from_bits(-1), None);
}

#[test]
fn attributes_truncate_unknown_bits() {
    assert_eq!(PropertyAttributes::from_bits_truncate(0x0f), PropertyAttributes::all());
    assert_eq!(PropertyAttributes::from_bits_truncate(0x12), PropertyAttributes::dontenum());
    assert_eq!(PropertyAttributes::from_bits_truncate(-1).bits(), 7);
}

#[test]
fn attribute_union_holds_both() {
    let u = PropertyAttributes::readonly().union(&PropertyAttributes::dontenum());
    assert_eq!(u.bits(), 3);
    assert!(u.contains(&PropertyAttributes::readonly()));
    assert!(u.contains(&PropertyAttributes::dontenum()));
    assert!(!u.contains(&PropertyAttributes::all()));
    assert!(PropertyAttributes::all().contains(&u));
    assert!(u.contains(&PropertyAttributes::empty()));
}

#[test]
fn attribute_bits_round_trip() {
    for b in 0..8 {
        let a = PropertyAttributes::from_bits(b).unwrap();
        assert_eq!(PropertyAttributes::from_bits(a.bits()), Some(a));
    }
}

#[test]
fn state_flags_bits() {
    assert_eq!(StateFlags::empty().bits(), 0);
    assert_eq!(StateFlags::strict().bits(), 1);
    assert_eq!(StateFlags::from_bits(1), Some(StateFlags::strict()));
    assert_eq!(StateFlags::from_bits(0), Some(StateFlags::empty()));
    assert_eq!(StateFlags::from_bits(2), None);
    assert_eq!(StateFlags::from_bits_truncate(3), StateFlags::strict());
    assert_eq!(StateFlags::from_bits_truncate(2), StateFlags::empty());
}

#[test]
fn state_flags_contains() {
    assert!(StateFlags::strict().contains(&StateFlags::strict()));
    assert!(StateFlags::strict().contains(&StateFlags::empty()));
    assert!(!StateFlags::empty().contains(&StateFlags::strict()));
}
