//! Unit tables and the string utilities: exact conversion factors, the
//! density unit synonyms, whitespace collapsing and the `N.*` fixup.

use gdml_studio::text::{collapse_spaces, fix_gdml_expr, str_eq, str_ends_with};
use gdml_studio::units::{
    angle_unit_kind, default_angle_unit, default_length_unit, density_unit_divisor,
    length_unit_num, AngleUnit,
};

#[test]
fn length_factors_are_exact() {
    assert_eq!(length_unit_num("mm"), (1, 1));
    assert_eq!(length_unit_num("cm"), (10, 1));
    assert_eq!(length_unit_num("m"), (1000, 1));
    assert_eq!(length_unit_num("um"), (1, 1000));
    assert_eq!(length_unit_num("micrometer"), (1, 1000));
    assert_eq!(length_unit_num("nm"), (1, 1000000));
    assert_eq!(length_unit_num("km"), (1000000, 1));
    assert_eq!(length_unit_num("in"), (254, 10));
    assert_eq!(length_unit_num("inch"), (254, 10));
    assert_eq!(length_unit_num("ft"), (3048, 10));
    assert_eq!(length_unit_num("parsec"), (1, 1));
}

#[test]
fn length_round_trip_values() {
    // length_to_mm(v, "cm") == v * 10, "m" == v * 1000, "in" == v * 25.4
    let v = 7.25f64;
    let (n, d) = length_unit_num("cm");
    assert_eq!(v * n as f64 / d as f64, v * 10.0);
    let (n, d) = length_unit_num("m");
    assert_eq!(v * n as f64 / d as f64, v * 1000.0);
    let (n, d) = length_unit_num("in");
    assert!((v * n as f64 / d as f64 - v * 25.4).abs() < 1e-9);
}

#[test]
fn angle_units_classified() {
    assert_eq!(angle_unit_kind("deg"), AngleUnit::Degree);
    assert_eq!(angle_unit_kind("degree"), AngleUnit::Degree);
    assert_eq!(angle_unit_kind("rad"), AngleUnit::Radian);
    assert_eq!(angle_unit_kind("radian"), AngleUnit::Radian);
    assert_eq!(angle_unit_kind("mrad"), AngleUnit::Milliradian);
    assert_eq!(angle_unit_kind("gon"), AngleUnit::Radian);
    // angle_to_rad(180, "deg") is close to pi
    let rad = 180.0f64 * std::f64::consts::PI / 180.0;
    assert!((rad - std::f64::consts::PI).abs() < 1e-12);
}

#[test]
fn density_unit_synonyms() {
    assert_eq!(density_unit_divisor("kg/m3"), 1000);
    assert_eq!(density_unit_divisor("kg/m³"), 1000);
    assert_eq!(density_unit_divisor("mg/cm3"), 1000);
    assert_eq!(density_unit_divisor("mg/cm³"), 1000);
    assert_eq!(density_unit_divisor("g/cm3"), 1);
    assert_eq!(density_unit_divisor(""), 1);
}

#[test]
fn default_units() {
    assert_eq!(default_length_unit(), "mm");
    assert_eq!(default_angle_unit(), "rad");
}

#[test]
fn collapse_spaces_examples() {
    assert_eq!(collapse_spaces("  b \n +\t a "), "b + a");
    assert_eq!(collapse_spaces(""), "");
    assert_eq!(collapse_spaces("   "), "");
    assert_eq!(collapse_spaces("abc"), "abc");
    assert_eq!(collapse_spaces("a\r\n\r\nb"), "a b");
}

#[test]
fn fix_gdml_expr_examples() {
    assert_eq!(fix_gdml_expr("360.*deg"), "360.0*deg");
    assert_eq!(fix_gdml_expr("-1.*pi"), "-1.0*pi");
    assert_eq!(fix_gdml_expr("2.5*deg"), "2.5*deg");
    assert_eq!(fix_gdml_expr("a.*b"), "a.*b");
    assert_eq!(fix_gdml_expr("1.*x + 2.*y"), "1.0*x + 2.0*y");
    assert_eq!(fix_gdml_expr(""), "");
}

#[test]
fn string_helpers() {
    assert!(str_eq("abc", "abc"));
    assert!(!str_eq("abc", "abd"));
    assert!(!str_eq("abc", "ab"));
    assert!(str_ends_with("detector.gdml", ".gdml"));
    assert!(!str_ends_with("detector.xml", ".gdml"));
    assert!(!str_ends_with("ml", ".gdml"));
}
