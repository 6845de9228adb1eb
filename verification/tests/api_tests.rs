//! The request surface: the filename rule and the document summary.

use gdml_studio::api::{document_summary, is_gdml_filename};
use gdml_studio::parser::parse_gdml_from_bytes;

#[test]
fn gdml_filename_rule() {
    assert!(is_gdml_filename("detector.gdml"));
    assert!(is_gdml_filename(".gdml"));
    assert!(!is_gdml_filename("detector.xml"));
    assert!(!is_gdml_filename("gdml"));
    assert!(!is_gdml_filename(""));
}

#[test]
fn summary_counts() {
    let doc = parse_gdml_from_bytes(
        br#"<gdml>
          <define>
            <constant name="a" value="1"/>
            <quantity name="q" value="2"/>
            <variable name="v" value="3"/>
            <expression name="e">a</expression>
            <position name="p"/>
            <rotation name="r"/>
          </define>
          <materials>
            <element name="H"/>
            <material name="Air"><D value="0.0012"/></material>
          </materials>
          <solids><box name="b" x="1" y="1" z="1"/></solids>
          <structure><volume name="World"><solidref ref="b"/></volume></structure>
          <setup name="s"><world ref="World"/></setup>
        </gdml>"#,
        String::from("t.gdml"),
    )
    .unwrap();
    let s = document_summary(&doc);
    assert_eq!(s.defines_count, 4);
    assert_eq!(s.positions_count, 1);
    assert_eq!(s.rotations_count, 1);
    assert_eq!(s.elements_count, 1);
    assert_eq!(s.materials_count, 1);
    assert_eq!(s.solids_count, 1);
    assert_eq!(s.volumes_count, 1);
    assert_eq!(s.world_ref, "World");
}
