//! The scene graph: structure, colors and densities, the missing-world
//! fallback, and the cycle guard.

use gdml_studio::model::PlacementPos;
use gdml_studio::parser::parse_gdml_from_bytes;
use gdml_studio::scene::build_scene_graph;

fn parse(xml: &str) -> gdml_studio::model::GdmlDocument {
    parse_gdml_from_bytes(xml.as_bytes(), String::from("t.gdml")).expect("parse failed")
}

#[test]
fn scene_two_level_tree() {
    let doc = parse(
        r##"<gdml>
          <materials>
            <material name="Air"><D value="0.0012" unit="g/cm3"/></material>
          </materials>
          <structure>
            <volume name="Inner">
              <materialref ref="Air"/>
              <solidref ref="SmallBox"/>
            </volume>
            <volume name="World">
              <materialref ref="Air"/>
              <solidref ref="WorldBox"/>
              <physvol>
                <volumeref ref="Inner"/>
                <position name="p" x="10" unit="mm"/>
              </physvol>
              <auxiliary auxtype="color" auxvalue="#00ff00"/>
            </volume>
          </structure>
          <setup name="s"><world ref="World"/></setup>
        </gdml>"##,
    );
    let mut warnings = Vec::new();
    let root = build_scene_graph(&doc, &mut warnings);
    assert!(warnings.is_empty());
    assert!(root.is_world);
    assert_eq!(root.name, "World");
    assert_eq!(root.solid_name, "WorldBox");
    assert_eq!(root.material_name, "Air");
    assert_eq!(root.color.as_deref(), Some("#00ff00"));
    let d = root.density.as_ref().expect("world density");
    assert_eq!(d.value, "0.0012");
    assert_eq!(root.children.len(), 1);
    let child = &root.children[0];
    assert!(!child.is_world);
    assert_eq!(child.name, "Inner");
    match child.position.as_ref().unwrap() {
        PlacementPos::Inline(p) => assert_eq!(p.x.as_deref(), Some("10")),
        other => panic!("expected inline position, got {:?}", other),
    }
    assert!(child.children.is_empty());
}

#[test]
fn scene_cycle_guard_terminates_and_warns() {
    // a volume that places itself: the back-edge is skipped with a warning
    let doc = parse(
        r#"<gdml>
          <structure>
            <volume name="World">
              <solidref ref="B"/>
              <physvol><volumeref ref="World"/></physvol>
            </volume>
          </structure>
          <setup name="s"><world ref="World"/></setup>
        </gdml>"#,
    );
    let mut warnings = Vec::new();
    let root = build_scene_graph(&doc, &mut warnings);
    assert_eq!(root.name, "World");
    assert!(root.children.is_empty());
    assert_eq!(warnings.len(), 1);
    assert_eq!(
        warnings[0],
        "Cycle detected in scene graph: volume 'World' references already-visited 'World'"
    );
}

#[test]
fn scene_mutual_cycle_guard() {
    let doc = parse(
        r#"<gdml>
          <structure>
            <volume name="A">
              <solidref ref="S"/>
              <physvol><volumeref ref="B"/></physvol>
            </volume>
            <volume name="B">
              <solidref ref="S"/>
              <physvol><volumeref ref="A"/></physvol>
            </volume>
          </structure>
          <setup name="s"><world ref="A"/></setup>
        </gdml>"#,
    );
    let mut warnings = Vec::new();
    let root = build_scene_graph(&doc, &mut warnings);
    assert_eq!(root.name, "A");
    assert_eq!(root.children.len(), 1);
    assert_eq!(root.children[0].name, "B");
    assert!(root.children[0].children.is_empty());
    assert_eq!(warnings.len(), 1);
}

#[test]
fn scene_missing_world_fallback() {
    let doc = parse(r#"<gdml><setup name="s"><world ref="Nowhere"/></setup></gdml>"#);
    let mut warnings = Vec::new();
    let root = build_scene_graph(&doc, &mut warnings);
    assert_eq!(root.name, "World");
    assert_eq!(root.volume_name, "Nowhere");
    assert!(root.is_world);
    assert!(root.children.is_empty());
    assert!(root.density.is_none());
}

#[test]
fn scene_unresolvable_child_skipped() {
    let doc = parse(
        r#"<gdml>
          <structure>
            <volume name="World">
              <solidref ref="S"/>
              <physvol><volumeref ref="Ghost"/></physvol>
            </volume>
          </structure>
          <setup name="s"><world ref="World"/></setup>
        </gdml>"#,
    );
    let mut warnings = Vec::new();
    let root = build_scene_graph(&doc, &mut warnings);
    assert!(root.children.is_empty());
    assert!(warnings.is_empty());
}
