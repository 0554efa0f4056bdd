use sysgen::generators::tech::{
    atmmosphere_tech, government_tech, hydrographics_tech, population_tech, port_tech, size_tech,
    tech_mod,
};
use sysgen::world::is_port;

#[test]
fn test_tech_low_pop_mod() {
    for i in 1..=5 {
        assert_eq!(population_tech(i), 1)
    }
}

#[test]
fn test_tech_9_pop_mod() {
    assert_eq!(population_tech(9), 2)
}

#[test]
fn test_tech_huge_pop_mod() {
    for i in 10..=15 {
        assert_eq!(population_tech(i), 4)
    }
}

#[test]
fn population_tech_is_zero_elsewhere() {
    for population in [-3, -1, 0, 6, 7, 8, 16, 17, 100, i32::MIN, i32::MAX] {
        assert_eq!(population_tech(population), 0);
    }
}

#[test]
fn port_tech_by_class() {
    assert_eq!(port_tech("A"), 6);
    assert_eq!(port_tech("B"), 4);
    assert_eq!(port_tech("C"), 2);
    assert_eq!(port_tech("D"), 0);
    assert_eq!(port_tech("E"), 0);
    assert_eq!(port_tech("F"), 1);
    assert_eq!(port_tech("X"), -4);
}

#[test]
fn port_tech_of_unknown_codes_is_zero() {
    assert_eq!(port_tech(""), 0);
    assert_eq!(port_tech("a"), 0);
    assert_eq!(port_tech("AA"), 0);
    assert_eq!(port_tech("XA"), 0);
    assert_eq!(port_tech("\u{c4}"), 0);
}

#[test]
fn is_port_compares_the_whole_code() {
    assert!(is_port("A", 'A'));
    assert!(!is_port("A", 'B'));
    assert!(!is_port("", 'A'));
    assert!(!is_port("AB", 'A'));
    assert!(is_port("\u{e9}", '\u{e9}'));
}

#[test]
fn size_tech_by_range() {
    let expected = [2, 2, 1, 1, 1, 0, 0, 0, 0, 0, 0, 0, 0, 0, 0, 0];
    for (size, modifier) in expected.iter().enumerate() {
        assert_eq!(size_tech(size as i32), *modifier);
    }
    assert_eq!(size_tech(-1), 0);
    assert_eq!(size_tech(i32::MIN), 0);
    assert_eq!(size_tech(i32::MAX), 0);
}

#[test]
fn atmosphere_tech_by_range() {
    let expected = [1, 1, 1, 1, 0, 0, 0, 0, 0, 0, 1, 1, 1, 1, 1, 1];
    for (atmosphere, modifier) in expected.iter().enumerate() {
        assert_eq!(atmmosphere_tech(atmosphere as i32), *modifier);
    }
    assert_eq!(atmmosphere_tech(-1), 0);
    assert_eq!(atmmosphere_tech(16), 0);
}

#[test]
fn hydrographics_tech_by_value() {
    let expected = [0, 0, 0, 0, 0, 0, 0, 0, 0, 1, 2];
    for (hydrographics, modifier) in expected.iter().enumerate() {
        assert_eq!(hydrographics_tech(hydrographics as i32), *modifier);
    }
    assert_eq!(hydrographics_tech(-1), 0);
    assert_eq!(hydrographics_tech(11), 0);
}

#[test]
fn government_tech_by_value() {
    let expected = [1, 0, 0, 0, 0, 1, 0, 0, 0, 0, 0, 0, 0, -2, 0, 0];
    for (government, modifier) in expected.iter().enumerate() {
        assert_eq!(government_tech(government as i32), *modifier);
    }
    assert_eq!(government_tech(-5), 0);
    assert_eq!(government_tech(-13), 0);
    assert_eq!(government_tech(16), 0);
}

#[test]
fn tech_mod_sums_the_tables() {
    assert_eq!(tech_mod("A", 0, 0, 10, 10, 0), 16);
    assert_eq!(tech_mod("X", 5, 5, 0, 0, 13), -6);
    assert_eq!(tech_mod("A", 6, 8, 5, 7, 2), 6);
    assert_eq!(tech_mod("C", 3, 11, 9, 9, 5), 2 + 1 + 1 + 1 + 2 + 1);
    assert_eq!(tech_mod("E", 7, 6, 3, 8, 7), 0);
}

#[test]
fn tech_mod_gives_the_same_for_the_same() {
    let port = String::from("B");
    let first = tech_mod(port.as_str(), 4, 2, 9, 3, 5);
    let second = tech_mod("B", 4, 2, 9, 3, 5);
    assert_eq!(first, second);
    assert_eq!(first, 4 + 1 + 1 + 1 + 1 + 1);
}
