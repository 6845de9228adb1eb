//! Parser behaviour: section dispatch, both element forms, namespace
//! prefixes, unknown tags, text collapsing and failure reporting.

use gdml_studio::model::{MaterialComponent, PlacementPos, Solid};
use gdml_studio::parser::parse_gdml_from_bytes;

fn parse(xml: &str) -> gdml_studio::model::GdmlDocument {
    parse_gdml_from_bytes(xml.as_bytes(), String::from("test.gdml")).expect("parse failed")
}

#[test]
fn parse_box_document() {
    let doc = parse(
        r#"<?xml version="1.0"?>
        <gdml>
          <solids>
            <box name="WorldBox" x="100" y="200" z="300" lunit="mm"/>
          </solids>
          <structure>
            <volume name="World">
              <materialref ref="Air"/>
              <solidref ref="WorldBox"/>
            </volume>
          </structure>
          <setup name="Default" version="1.0">
            <world ref="World"/>
          </setup>
        </gdml>"#,
    );
    assert_eq!(doc.filename, "test.gdml");
    assert_eq!(doc.solids.solids.len(), 1);
    match &doc.solids.solids[0] {
        Solid::Box(b) => {
            assert_eq!(b.name, "WorldBox");
            assert_eq!(b.x, "100");
            assert_eq!(b.y, "200");
            assert_eq!(b.z, "300");
            assert_eq!(b.lunit.as_deref(), Some("mm"));
        }
        other => panic!("expected a box, got {:?}", other),
    }
    assert_eq!(doc.structure.volumes.len(), 1);
    assert_eq!(doc.structure.volumes[0].material_ref, "Air");
    assert_eq!(doc.structure.volumes[0].solid_ref, "WorldBox");
    assert_eq!(doc.setup.name, "Default");
    assert_eq!(doc.setup.world_ref, "World");
}

#[test]
fn parse_defines_and_expression_text() {
    let doc = parse(
        r#"<gdml>
          <define>
            <variable name="a" value="1"/>
            <constant name="b" value="a*2"/>
            <expression name="c">
               b +
               a
            </expression>
            <position name="p1" x="1" y="2" z="3" unit="cm"/>
            <rotation name="r1" z="90" unit="deg"/>
          </define>
        </gdml>"#,
    );
    assert_eq!(doc.defines.variables.len(), 1);
    assert_eq!(doc.defines.variables[0].name, "a");
    assert_eq!(doc.defines.variables[0].value, "1");
    assert_eq!(doc.defines.constants[0].name, "b");
    assert_eq!(doc.defines.constants[0].value, "a*2");
    // adjacent whitespace including newlines collapses to single spaces
    assert_eq!(doc.defines.expressions[0].name, "c");
    assert_eq!(doc.defines.expressions[0].value, "b + a");
    assert_eq!(doc.defines.positions[0].x.as_deref(), Some("1"));
    assert_eq!(doc.defines.positions[0].unit.as_deref(), Some("cm"));
    assert_eq!(doc.defines.rotations[0].x, None);
    assert_eq!(doc.defines.rotations[0].z.as_deref(), Some("90"));
}

#[test]
fn parse_expression_keeps_references() {
    // a general reference inside expression text stays as it stands in
    // the source
    let doc = parse(
        r#"<gdml><define><expression name="e">a &amp; b</expression></define></gdml>"#,
    );
    assert_eq!(doc.defines.expressions[0].value, "a &amp; b");
}

#[test]
fn parse_quantity_inside_materials_define() {
    let doc = parse(
        r#"<gdml>
          <materials>
            <define>
              <quantity name="t" type="length" value="5" unit="cm"/>
            </define>
            <element name="H" formula="H" Z="1">
              <atom value="1.008"/>
            </element>
          </materials>
        </gdml>"#,
    );
    assert_eq!(doc.defines.quantities.len(), 1);
    let q = &doc.defines.quantities[0];
    assert_eq!(q.name, "t");
    assert_eq!(q.qtype.as_deref(), Some("length"));
    assert_eq!(q.value, "5");
    assert_eq!(q.unit.as_deref(), Some("cm"));
    assert_eq!(doc.materials.elements.len(), 1);
    assert_eq!(doc.materials.elements[0].atom_value.as_deref(), Some("1.008"));
}

#[test]
fn parse_both_element_forms() {
    let doc = parse(
        r#"<gdml>
          <define>
            <constant name="a" value="1"/>
            <constant name="b" value="2"></constant>
          </define>
        </gdml>"#,
    );
    assert_eq!(doc.defines.constants.len(), 2);
    assert_eq!(doc.defines.constants[0].name, "a");
    assert_eq!(doc.defines.constants[1].name, "b");
}

#[test]
fn parse_namespace_prefixes_ignored() {
    let doc = parse(
        r#"<g:gdml xmlns:g="urn:x"><g:define><g:constant name="a" value="1"/></g:define></g:gdml>"#,
    );
    assert_eq!(doc.defines.constants.len(), 1);
    assert_eq!(doc.defines.constants[0].name, "a");
}

#[test]
fn parse_unknown_elements_skipped() {
    let doc = parse(
        r#"<gdml>
          <define>
            <wibble name="x"/>
            <constant name="a" value="1" wobble="ignored"/>
          </define>
          <frobnicate><deeply><nested/></deeply></frobnicate>
        </gdml>"#,
    );
    assert_eq!(doc.defines.constants.len(), 1);
}

#[test]
fn parse_material_body() {
    let doc = parse(
        r#"<gdml>
          <materials>
            <material name="Water" formula="H2O">
              <D value="1.0" unit="g/cm3"/>
              <T value="293.15" unit="K"/>
              <fraction n="0.112" ref="H"/>
              <composite n="1" ref="O"/>
            </material>
          </materials>
        </gdml>"#,
    );
    assert_eq!(doc.materials.materials.len(), 1);
    let m = &doc.materials.materials[0];
    assert_eq!(m.name, "Water");
    assert_eq!(m.density.as_ref().unwrap().value, "1.0");
    assert_eq!(m.density.as_ref().unwrap().unit.as_deref(), Some("g/cm3"));
    assert_eq!(m.temperature.as_ref().unwrap().value, "293.15");
    assert_eq!(m.components.len(), 2);
    match &m.components[0] {
        MaterialComponent::Fraction { n, ref_name } => {
            assert_eq!(n, "0.112");
            assert_eq!(ref_name, "H");
        }
        other => panic!("expected a fraction, got {:?}", other),
    }
}

#[test]
fn parse_physvol_placements() {
    let doc = parse(
        r##"<gdml>
          <structure>
            <volume name="World">
              <solidref ref="WorldBox"/>
              <physvol name="inner1">
                <volumeref ref="Inner"/>
                <position name="p" x="10" y="0" z="0" unit="mm"/>
              </physvol>
              <physvol>
                <volumeref ref="Inner"/>
                <positionref ref="shared_pos"/>
                <rotationref ref="shared_rot"/>
              </physvol>
              <physvol>
                <volumeref ref="Other"/>
                <file name="sub.gdml" volname="SubTarget"/>
              </physvol>
              <auxiliary auxtype="color" auxvalue="#ff0000"/>
            </volume>
          </structure>
        </gdml>"##,
    );
    let vol = &doc.structure.volumes[0];
    assert_eq!(vol.physvols.len(), 3);
    assert_eq!(vol.physvols[0].name.as_deref(), Some("inner1"));
    match vol.physvols[0].position.as_ref().unwrap() {
        PlacementPos::Inline(p) => assert_eq!(p.x.as_deref(), Some("10")),
        other => panic!("expected inline position, got {:?}", other),
    }
    match vol.physvols[1].position.as_ref().unwrap() {
        PlacementPos::Ref(r) => assert_eq!(r, "shared_pos"),
        other => panic!("expected position reference, got {:?}", other),
    }
    let fref = vol.physvols[2].file_ref.as_ref().unwrap();
    assert_eq!(fref.name, "sub.gdml");
    assert_eq!(fref.volname.as_deref(), Some("SubTarget"));
    assert_eq!(vol.auxiliaries.len(), 1);
    assert_eq!(vol.auxiliaries[0].auxtype, "color");
}

#[test]
fn parse_setup_empty_form() {
    let doc = parse(r#"<gdml><setup name="s" world="TheWorld"/></gdml>"#);
    assert_eq!(doc.setup.world_ref, "TheWorld");
    assert_eq!(doc.setup.version, "1.0");
}

#[test]
fn parse_missing_setup_defaults() {
    let doc = parse(r#"<gdml><define/></gdml>"#);
    assert_eq!(doc.setup.name, "default");
    assert_eq!(doc.setup.version, "1.0");
    assert_eq!(doc.setup.world_ref, "");
}

#[test]
fn parse_malformed_xml_reports_error() {
    let r = parse_gdml_from_bytes(b"<gdml><define", String::from("bad.gdml"));
    let e = r.expect_err("malformed input must fail");
    assert!(!e.message.is_empty());
}

#[test]
fn parse_well_formed_unknown_tags_never_fail() {
    let r = parse_gdml_from_bytes(
        b"<anything><at all=\"1\"/></anything>",
        String::from("odd.gdml"),
    );
    assert!(r.is_ok());
}
