use simple_calculator::temperature::{parse_unit, Unit};

#[test]
fn test_parse_unit() {
    assert_eq!(parse_unit('C'), Some(Unit::Celsius));
    assert_eq!(parse_unit('F'), Some(Unit::Fahrenheit));
    assert_eq!(parse_unit('K'), Some(Unit::Kelvin));
    assert_eq!(parse_unit('X'), None);
}

#[test]
fn test_parse_unit_lower_case() {
    assert_eq!(parse_unit('c'), Some(Unit::Celsius));
    assert_eq!(parse_unit('f'), Some(Unit::Fahrenheit));
    assert_eq!(parse_unit('k'), Some(Unit::Kelvin));
    assert_eq!(parse_unit('x'), None);
}
