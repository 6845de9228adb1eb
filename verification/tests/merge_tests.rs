//! The multi-file merger: file references resolve to the child's target
//! volume, sections come over deduplicated by name, defines concatenate.

use gdml_studio::merge::{collect_file_refs, merge_child_into_main, resolve_file_references};
use gdml_studio::parser::parse_gdml_from_bytes;

fn parse(xml: &str, name: &str) -> gdml_studio::model::GdmlDocument {
    parse_gdml_from_bytes(xml.as_bytes(), String::from(name)).expect("parse failed")
}

fn main_doc() -> gdml_studio::model::GdmlDocument {
    parse(
        r#"<gdml>
          <define><constant name="shared" value="1"/></define>
          <solids><box name="WorldBox" x="1" y="1" z="1"/></solids>
          <structure>
            <volume name="World">
              <solidref ref="WorldBox"/>
              <physvol>
                <volumeref ref=""/>
                <file name="sub.gdml"/>
              </physvol>
            </volume>
          </structure>
          <setup name="s"><world ref="World"/></setup>
        </gdml>"#,
        "main.gdml",
    )
}

fn sub_doc() -> gdml_studio::model::GdmlDocument {
    parse(
        r#"<gdml>
          <define><constant name="sub_const" value="2"/></define>
          <solids>
            <box name="WorldBox" x="9" y="9" z="9"/>
            <box name="SubBox" x="2" y="2" z="2"/>
          </solids>
          <structure>
            <volume name="SubWorld">
              <solidref ref="SubBox"/>
            </volume>
          </structure>
          <setup name="s"><world ref="SubWorld"/></setup>
        </gdml>"#,
        "sub.gdml",
    )
}

#[test]
fn collect_refs_finds_files() {
    let doc = main_doc();
    let refs = collect_file_refs(&doc);
    assert_eq!(refs, vec![(String::from("sub.gdml"), None)]);
}

#[test]
fn merge_resolves_file_ref() {
    let mut doc = main_doc();
    let sub = sub_doc();
    let mut warnings = Vec::new();
    merge_child_into_main(&mut doc, &sub, "sub.gdml", &None, &mut warnings);
    assert!(warnings.is_empty());
    // the physvol now points at the child's world and the file ref is gone
    let pv = &doc.structure.volumes[0].physvols[0];
    assert_eq!(pv.volume_ref, "SubWorld");
    assert!(pv.file_ref.is_none());
    // defines concatenated
    let cnames: Vec<&str> = doc.defines.constants.iter().map(|c| c.name.as_str()).collect();
    assert_eq!(cnames, vec!["shared", "sub_const"]);
    // solids deduplicated by name: the child's WorldBox is dropped
    let snames: Vec<&str> = doc.solids.solids.iter().map(|s| s.name()).collect();
    assert_eq!(snames, vec!["WorldBox", "SubBox"]);
    // the child's volume came over
    let vnames: Vec<&str> = doc.structure.volumes.iter().map(|v| v.name.as_str()).collect();
    assert_eq!(vnames, vec!["World", "SubWorld"]);
}

#[test]
fn merge_volname_override_wins() {
    let mut doc = main_doc();
    let sub = sub_doc();
    let mut warnings = Vec::new();
    merge_child_into_main(&mut doc, &sub, "sub.gdml", &Some(String::from("Elsewhere")), &mut warnings);
    assert_eq!(doc.structure.volumes[0].physvols[0].volume_ref, "Elsewhere");
}

#[test]
fn merge_without_world_warns_and_leaves_doc() {
    let mut doc = main_doc();
    let sub = parse(r#"<gdml><solids><box name="B" x="1" y="1" z="1"/></solids></gdml>"#, "sub.gdml");
    let mut warnings = Vec::new();
    merge_child_into_main(&mut doc, &sub, "sub.gdml", &None, &mut warnings);
    assert_eq!(warnings.len(), 1);
    assert_eq!(
        warnings[0],
        "Child file 'sub.gdml' has no world reference and no volname specified"
    );
    // nothing merged: the file ref is still there
    assert!(doc.structure.volumes[0].physvols[0].file_ref.is_some());
    assert_eq!(doc.solids.solids.len(), 1);
}

#[test]
fn resolve_references_merges_provided_children() {
    let mut doc = main_doc();
    let children = vec![sub_doc()];
    let mut warnings = Vec::new();
    resolve_file_references(&mut doc, &children, &mut warnings);
    assert!(warnings.is_empty());
    assert_eq!(doc.structure.volumes[0].physvols[0].volume_ref, "SubWorld");
    assert_eq!(doc.structure.volumes.len(), 2);
}

#[test]
fn resolve_references_warns_on_missing_file() {
    let mut doc = main_doc();
    let children: Vec<gdml_studio::model::GdmlDocument> = Vec::new();
    let mut warnings = Vec::new();
    resolve_file_references(&mut doc, &children, &mut warnings);
    assert_eq!(warnings.len(), 1);
    assert_eq!(warnings[0], "Referenced file 'sub.gdml' was not provided in the upload");
    // the reference stays intact
    assert!(doc.structure.volumes[0].physvols[0].file_ref.is_some());
}
