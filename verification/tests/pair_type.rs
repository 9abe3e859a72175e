use wyndex_test_helpers::pair_type::PairType;

#[test]
fn pair_type_to_string() {
    assert_eq!(PairType::Xyk {}.to_string(), "xyk");
    assert_eq!(PairType::Stable {}.to_string(), "stable");
    assert_eq!(PairType::Lsd {}.to_string(), "lsd");
}

#[test]
fn pair_type_names_are_distinct() {
    let names = [
        PairType::Xyk {}.to_string(),
        PairType::Stable {}.to_string(),
        PairType::Lsd {}.to_string(),
    ];
    assert_ne!(names[0], names[1]);
    assert_ne!(names[0], names[2]);
    assert_ne!(names[1], names[2]);
}
