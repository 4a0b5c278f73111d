use pcb_toolkit::copper::{copper_weight, etch_factor, plating, CopperWeight, EtchFactor, PlatingThickness};
use pcb_toolkit::inductor::{spiral_shape, SpiralShape};
use pcb_toolkit::spacing::{device_type, DeviceType};

#[test]
fn plating_reads_every_thickness() {
    assert_eq!(plating("bare"), Ok(PlatingThickness::Bare));
    assert_eq!(plating("0"), Ok(PlatingThickness::Bare));
    assert_eq!(plating("0.5"), Ok(PlatingThickness::Oz05));
    assert_eq!(plating("1"), Ok(PlatingThickness::Oz1));
    assert_eq!(plating("1.5"), Ok(PlatingThickness::Oz15));
    assert_eq!(plating("2"), Ok(PlatingThickness::Oz2));
    assert_eq!(plating("2.5"), Ok(PlatingThickness::Oz25));
    assert_eq!(plating("3"), Ok(PlatingThickness::Oz3));
}

#[test]
fn plating_accepts_oz_suffix_case_and_padding() {
    assert_eq!(plating("1oz"), Ok(PlatingThickness::Oz1));
    assert_eq!(plating("1 oz"), Ok(PlatingThickness::Oz1));
    assert_eq!(plating("  1.5 OZ "), Ok(PlatingThickness::Oz15));
    assert_eq!(plating("BARE"), Ok(PlatingThickness::Bare));
    assert_eq!(plating("\t0.5oz\n"), Ok(PlatingThickness::Oz05));
}

#[test]
fn plating_rejects_unknown_with_normalised_key() {
    assert_eq!(plating("4"), Err("unknown plating thickness `4`".to_string()));
    assert_eq!(plating(" 4 OZ "), Err("unknown plating thickness `4`".to_string()));
    assert_eq!(plating("Heavy"), Err("unknown plating thickness `heavy`".to_string()));
    assert_eq!(plating(""), Err("unknown plating thickness ``".to_string()));
    // only one `oz` is removed
    assert_eq!(plating("1ozoz"), Err("unknown plating thickness `1oz`".to_string()));
}

#[test]
fn copper_weight_reads_every_weight() {
    assert_eq!(copper_weight("0.5"), Ok(CopperWeight::Oz05));
    assert_eq!(copper_weight("1"), Ok(CopperWeight::Oz1));
    assert_eq!(copper_weight("1.5oz"), Ok(CopperWeight::Oz15));
    assert_eq!(copper_weight(" 2 "), Ok(CopperWeight::Oz2));
    assert_eq!(copper_weight("2.5 OZ"), Ok(CopperWeight::Oz25));
    assert_eq!(copper_weight("3"), Ok(CopperWeight::Oz3));
    assert_eq!(CopperWeight::from_str_oz("1oz"), Some(CopperWeight::Oz1));
    assert_eq!(CopperWeight::from_str_oz("bare"), None);
}

#[test]
fn copper_weight_rejects_unknown_with_raw_text() {
    assert_eq!(copper_weight(" 7oz"), Err("unknown copper weight:  7oz".to_string()));
    assert_eq!(copper_weight("bare"), Err("unknown copper weight: bare".to_string()));
}

#[test]
fn etch_factor_reads_every_alias() {
    assert_eq!(etch_factor("none"), Ok(EtchFactor::NoEtch));
    assert_eq!(etch_factor("0"), Ok(EtchFactor::NoEtch));
    assert_eq!(etch_factor("1:1"), Ok(EtchFactor::OneToOne));
    assert_eq!(etch_factor("1to1"), Ok(EtchFactor::OneToOne));
    assert_eq!(etch_factor("2:1"), Ok(EtchFactor::TwoToOne));
    assert_eq!(etch_factor(" 2TO1 "), Ok(EtchFactor::TwoToOne));
    assert_eq!(etch_factor("NONE"), Ok(EtchFactor::NoEtch));
}

#[test]
fn etch_factor_rejects_unknown() {
    assert_eq!(etch_factor(" 3:1 "), Err("unknown etch factor `3:1`".to_string()));
    assert_eq!(etch_factor("Steep"), Err("unknown etch factor `steep`".to_string()));
}

#[test]
fn spiral_shape_reads_every_shape() {
    assert_eq!(spiral_shape("square"), Ok(SpiralShape::Square));
    assert_eq!(spiral_shape("Hexagonal"), Ok(SpiralShape::Hexagonal));
    assert_eq!(spiral_shape(" OCTAGONAL"), Ok(SpiralShape::Octagonal));
    assert_eq!(spiral_shape("circle"), Ok(SpiralShape::Circle));
    assert_eq!(spiral_shape("circular "), Ok(SpiralShape::Circle));
    assert_eq!(spiral_shape("Round"), Err("unknown spiral shape `round`".to_string()));
}

#[test]
fn device_type_reads_every_category() {
    assert_eq!(device_type("b1"), Ok(DeviceType::B1));
    assert_eq!(device_type("B2"), Ok(DeviceType::B2));
    assert_eq!(device_type(" b3 "), Ok(DeviceType::B3));
    assert_eq!(device_type("b4"), Ok(DeviceType::B4));
    assert_eq!(device_type("b5"), Ok(DeviceType::B5));
    assert_eq!(device_type("A6"), Ok(DeviceType::A6));
    assert_eq!(device_type("a7"), Ok(DeviceType::A7));
    assert_eq!(device_type("a8"), Ok(DeviceType::A8));
    assert_eq!(device_type("B9"), Err("unknown device type `b9`".to_string()));
    assert_eq!(device_type("b 1"), Err("unknown device type `b 1`".to_string()));
}
