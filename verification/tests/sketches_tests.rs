use lattice::controls::ControlValue;
use lattice::patterns::{function_pairs, parse_dynamic_pattern, trig_fn_lookup, PatternError, TrigFn};
use lattice::sketches::displacement_2;
use lattice::sketches::displacement_2a::{self, QuadShape, TrigFnCache};
use lattice::sketches::vertical::{disabled_unless_modes, XMod, XMods};

#[test]
fn trig_function_lookup() {
    assert_eq!(trig_fn_lookup("sin"), Some(TrigFn::Sin));
    assert_eq!(trig_fn_lookup("coth"), Some(TrigFn::Coth));
    assert_eq!(trig_fn_lookup("Sin"), None);
    assert_eq!(trig_fn_lookup(""), None);
}

#[test]
fn all_function_pairs() {
    let pairs = function_pairs();
    assert_eq!(pairs.len(), 100);
    assert_eq!(pairs[0], "cos,cos");
    assert_eq!(pairs[1], "cos,sin");
    assert_eq!(pairs[10], "sin,cos");
    assert_eq!(pairs[23], "tan,tanh");
    assert_eq!(pairs[99], "coth,coth");
}

#[test]
fn pattern_menus() {
    let first = displacement_2::generate_pattern_options();
    assert_eq!(first.len(), 101);
    assert_eq!(first[0], "cos,cos");
    assert_eq!(first[100], "Comp1");

    let second = displacement_2a::generate_pattern_options();
    assert_eq!(second.len(), 107);
    assert_eq!(second[0], "Custo");
    assert_eq!(second[1], "Sprial");
    assert_eq!(second[6], "Quantum");
    assert_eq!(second[7], "cos,cos");
    assert_eq!(second[7 + 43], "sec,tanh");
    assert_eq!(second[106], "coth,coth");
}

#[test]
fn pattern_parsing() {
    assert_eq!(parse_dynamic_pattern("cos,sin"), Ok((TrigFn::Cos, TrigFn::Sin)));
    assert_eq!(parse_dynamic_pattern("csch,sech"), Ok((TrigFn::Csch, TrigFn::Sech)));
    assert_eq!(parse_dynamic_pattern("cos"), Err(PatternError::Invalid));
    assert_eq!(parse_dynamic_pattern("cos,sin,tan"), Err(PatternError::Invalid));
    assert_eq!(parse_dynamic_pattern(""), Err(PatternError::Invalid));
    assert_eq!(parse_dynamic_pattern("cos,foo"), Err(PatternError::UnknownFunction));
    assert_eq!(parse_dynamic_pattern(",sin"), Err(PatternError::UnknownFunction));
    for pattern in function_pairs() {
        assert!(parse_dynamic_pattern(&pattern).is_ok());
    }
}

#[test]
fn trig_fn_cache_follows_pattern() {
    let mut cache = TrigFnCache::new("cos,sin");
    assert_eq!(cache.cached_trig_fns, None);

    cache.refresh("cos,sin");
    assert_eq!(cache.cached_pattern, "cos,sin");
    assert_eq!(cache.cached_trig_fns, Some((TrigFn::Cos, TrigFn::Sin)));

    // Unknown function: the functions are dropped, the pattern stays.
    cache.refresh("tan,foo");
    assert_eq!(cache.cached_pattern, "cos,sin");
    assert_eq!(cache.cached_trig_fns, None);

    // A custom pattern is not two parts: it is cached without functions.
    cache.refresh("Ripple");
    assert_eq!(cache.cached_pattern, "Ripple");
    assert_eq!(cache.cached_trig_fns, None);

    cache.refresh("tan,tanh");
    cache.refresh("tan,tanh");
    assert_eq!(cache.cached_pattern, "tan,tanh");
    assert_eq!(cache.cached_trig_fns, Some((TrigFn::Tan, TrigFn::Tanh)));
}

#[test]
fn cache_update_reads_pattern_even_when_cached() {
    let mut cache = TrigFnCache::new("cos,sin");
    cache.update_trig_fns("sin,cos");
    assert_eq!(cache.cached_trig_fns, Some((TrigFn::Sin, TrigFn::Cos)));
    cache.update_trig_fns("sin,bar");
    assert_eq!(cache.cached_pattern, "sin,cos");
    assert_eq!(cache.cached_trig_fns, None);
}

#[test]
fn quad_shapes_by_name() {
    assert_eq!(QuadShape::from_str("Rectangle"), QuadShape::Rectangle);
    assert_eq!(QuadShape::from_str("Circle"), QuadShape::Circle);
    assert_eq!(QuadShape::from_str("Ripple"), QuadShape::Ripple);
    assert_eq!(QuadShape::from_str("Spiral"), QuadShape::Spiral);
    assert_eq!(QuadShape::from_str("circle"), QuadShape::Rectangle);
    assert_eq!(QuadShape::from_str(""), QuadShape::Rectangle);
}

#[test]
fn line_modulations() {
    let names = XMods::to_names();
    assert_eq!(names.len(), 10);
    assert_eq!(names[0], "per_line");
    assert_eq!(names[9], "quantum_ripples");
    assert_eq!(XMods::func_by_name("moire"), XMod::Moire);
    assert_eq!(XMods::func_by_name("per_line"), XMod::PerLine);
    let all = XMods::to_vec();
    assert_eq!(all.len(), 10);
    assert_eq!(all[3], XMod::Spiral);
    for (name, m) in names.iter().zip(all.iter()) {
        assert_eq!(XMods::func_by_name(name), *m);
    }
}

#[test]
fn controls_disabled_by_mode() {
    let values = vec![
        ("mode".to_string(), ControlValue::String("ripples".to_string())),
        ("amp".to_string(), ControlValue::Float(1.0f32.to_bits())),
    ];
    let ripples = vec!["ripples".to_string(), "moire".to_string()];
    assert!(!disabled_unless_modes(&ripples, &values));
    assert!(disabled_unless_modes(&vec!["moire".to_string()], &values));
    assert!(disabled_unless_modes(&Vec::new(), &values));

    let no_mode = vec![("amp".to_string(), ControlValue::Float(0))];
    assert!(disabled_unless_modes(&ripples, &no_mode));

    let not_string = vec![("mode".to_string(), ControlValue::Bool(true))];
    assert!(disabled_unless_modes(&ripples, &not_string));
}
