use lattice::automate::{KindName, Mode, Shape};

#[test]
fn shape_parses_regardless_of_case() {
    assert_eq!(Shape::from_str("sine"), Ok(Shape::Sine));
    assert_eq!(Shape::from_str("Triangle"), Ok(Shape::Triangle));
    assert_eq!(Shape::from_str("SQUARE"), Ok(Shape::Square));
}

#[test]
fn shape_unknown_name_is_an_error() {
    assert_eq!(Shape::from_str("Cube"), Err("No shape Cube exists.".to_string()));
    assert_eq!(Shape::from_str(""), Err("No shape  exists.".to_string()));
}

#[test]
fn shape_from_lowercase_uses_the_lowercase_form() {
    assert_eq!(Shape::from_lowercase("SiNe", "sine"), Ok(Shape::Sine));
    assert_eq!(
        Shape::from_lowercase("SINE", "SINE"),
        Err("No shape SINE exists.".to_string())
    );
}

#[test]
fn mode_parses_and_rejects() {
    assert_eq!(Mode::from_str("Loop"), Ok(Mode::Loop));
    assert_eq!(Mode::from_str("once"), Ok(Mode::Once));
    assert_eq!(Mode::from_str("twice"), Err("No mode twice exists.".to_string()));
    assert_eq!(Mode::from_lowercase("X", "loop"), Ok(Mode::Loop));
}

#[test]
fn kind_names_parse() {
    assert_eq!(KindName::from_str("step"), Ok(KindName::Step));
    assert_eq!(KindName::from_str("Ramp"), Ok(KindName::Ramp));
    assert_eq!(KindName::from_str("RANDOM"), Ok(KindName::Random));
    assert_eq!(KindName::from_str("RandomSmooth"), Ok(KindName::RandomSmooth));
    assert_eq!(KindName::from_str("wave"), Ok(KindName::Wave));
    assert_eq!(KindName::from_str("End"), Ok(KindName::End));
    assert_eq!(
        KindName::from_str("spline"),
        Err("Unknown breakpoint kind variant: spline".to_string())
    );
    assert_eq!(KindName::from_lowercase("Q", "wave"), Ok(KindName::Wave));
}

#[test]
fn names_parse_through_from_str_trait() {
    let s: Shape = "Square".parse().unwrap();
    assert_eq!(s, Shape::Square);
    let m: Result<Mode, String> = "sometimes".parse();
    assert!(m.is_err());
}
