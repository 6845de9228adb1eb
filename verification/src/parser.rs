//! The GDML parser: a state machine over the XML event stream that
//! materializes a `GdmlDocument`.
//!
//! The machine's semantics is the spec function `parse_step`, folded over the
//! events by `parse_fold`; the executable parser is proved to compute exactly
//! that fold. Section dispatch follows the GDML layout: a `<define>` inside
//! `<materials>` still collects quantities, unknown elements and attributes
//! are skipped, and both the empty-element and the container form are
//! accepted everywhere no text content is required.

use vstd::prelude::*;
use crate::model::{
    Auxiliary, AuxiliaryV, BoxSolid, BoxSolidV, ConeSolid, ConeSolidV, Constant, ConstantV,
    DefineSection, DefineSectionV, Density, DensityV, Element, ElementV, Expression, ExpressionV,
    FileRef, FileRefV, GdmlDocument, GdmlDocumentV, Material, MaterialComponent,
    MaterialComponentV, MaterialSection, MaterialSectionV, MaterialV, PhysVol, PhysVolV,
    PlacementPos, PlacementPosV, PlacementRot, PlacementRotV, Position, PositionV, PropertyValue,
    PropertyValueV, Quantity, QuantityV, Rotation, RotationV, SetupSection, SetupSectionV, Solid,
    SolidSection, SolidSectionV, SolidV, SphereSolid, SphereSolidV, StructureSection,
    StructureSectionV, TubeSolid, TubeSolidV, Variable, VariableV, Volume, VolumeV,
    empty_define_section_v, empty_material_section_v, empty_solid_section_v,
    empty_structure_section_v, opt_view,
};
use crate::text::{collapse_spaces, collapse_spaces_spec, str_eq};
use crate::model::push_dv;
use crate::xml::{Attr, AttrV, XmlEvent, XmlEventV};

verus! {

// ─────────────────────────────────────────────────────────────────────────────
// Errors
// ─────────────────────────────────────────────────────────────────────────────

pub struct ParseErrorV {
    pub offset: u64,
    pub message: Seq<char>,
}

/// A malformed XML stream: byte offset and the lexer's message.
#[derive(Debug, PartialEq)]
pub struct ParseError {
    pub offset: u64,
    pub message: String,
}

impl DeepView for ParseError {
    type V = ParseErrorV;

    open spec fn deep_view(&self) -> ParseErrorV {
        ParseErrorV { offset: self.offset, message: self.message@ }
    }
}

// ─────────────────────────────────────────────────────────────────────────────
// Parser state
// ─────────────────────────────────────────────────────────────────────────────

/// Which top-level section the parser is inside.
#[derive(Debug, Clone, Copy, PartialEq, Eq, Structural)]
pub enum Section {
    Outside,
    Define,
    Materials,
    MaterialsDefine,
    Solids,
    Structure,
}

pub enum ContextV {
    Top,
    InExpression { name: Seq<char>, text: Seq<char> },
    InElement { e: ElementV },
    InMaterial { m: MaterialV },
    InVolume { v: VolumeV },
    InPhysVol { v: VolumeV, pv: PhysVolV },
    InSetup { name: Seq<char>, version: Seq<char>, world_ref: Seq<char> },
}

/// The element currently being filled, if its content spans several events.
#[derive(Debug)]
pub enum Context {
    Top,
    InExpression { name: String, text: String },
    InElement { e: Element },
    InMaterial { m: Material },
    InVolume { v: Volume },
    InPhysVol { v: Volume, pv: PhysVol },
    InSetup { name: String, version: String, world_ref: String },
}

impl DeepView for Context {
    type V = ContextV;

    open spec fn deep_view(&self) -> ContextV {
        match self {
            Context::Top => ContextV::Top,
            Context::InExpression { name, text } => ContextV::InExpression {
                name: name@,
                text: text@,
            },
            Context::InElement { e } => ContextV::InElement { e: e.deep_view() },
            Context::InMaterial { m } => ContextV::InMaterial { m: m.deep_view() },
            Context::InVolume { v } => ContextV::InVolume { v: v.deep_view() },
            Context::InPhysVol { v, pv } => ContextV::InPhysVol {
                v: v.deep_view(),
                pv: pv.deep_view(),
            },
            Context::InSetup { name, version, world_ref } => ContextV::InSetup {
                name: name@,
                version: version@,
                world_ref: world_ref@,
            },
        }
    }
}

pub struct ParseStateV {
    pub section: Section,
    pub context: ContextV,
    pub defines: DefineSectionV,
    pub materials: MaterialSectionV,
    pub solids: SolidSectionV,
    pub structure: StructureSectionV,
    pub setup: Option<SetupSectionV>,
    pub failure: Option<ParseErrorV>,
}

/// The whole parser state: the sections accumulated so far, the current
/// dispatch section, the open context, and the first failure if any.
#[derive(Debug)]
pub struct ParseState {
    pub section: Section,
    pub context: Context,
    pub defines: DefineSection,
    pub materials: MaterialSection,
    pub solids: SolidSection,
    pub structure: StructureSection,
    pub setup: Option<SetupSection>,
    pub failure: Option<ParseError>,
}

impl DeepView for ParseState {
    type V = ParseStateV;

    open spec fn deep_view(&self) -> ParseStateV {
        ParseStateV {
            section: self.section,
            context: self.context.deep_view(),
            defines: self.defines.deep_view(),
            materials: self.materials.deep_view(),
            solids: self.solids.deep_view(),
            structure: self.structure.deep_view(),
            setup: match &self.setup {
                Some(s) => Some(s.deep_view()),
                None => None,
            },
            failure: match &self.failure {
                Some(e) => Some(e.deep_view()),
                None => None,
            },
        }
    }
}

// ─────────────────────────────────────────────────────────────────────────────
// Attribute lookup
// ─────────────────────────────────────────────────────────────────────────────

/// The value of the first attribute whose (full) key matches.
pub open spec fn attr_of(attrs: Seq<AttrV>, key: Seq<char>) -> Option<Seq<char>>
    decreases attrs.len(),
{
    if attrs.len() == 0 {
        None
    } else if attrs[0].key == key {
        Some(attrs[0].value)
    } else {
        attr_of(attrs.drop_first(), key)
    }
}

pub open spec fn attr_or(attrs: Seq<AttrV>, key: Seq<char>, dflt: Seq<char>) -> Seq<char> {
    match attr_of(attrs, key) {
        Some(v) => v,
        None => dflt,
    }
}

pub open spec fn attr_or_empty(attrs: Seq<AttrV>, key: Seq<char>) -> Seq<char> {
    attr_or(attrs, key, Seq::empty())
}

proof fn lemma_attr_of_found(attrs: Seq<AttrV>, key: Seq<char>, i: int)
    requires
        0 <= i < attrs.len(),
        forall|k: int| 0 <= k < i ==> attrs[k].key != key,
        attrs[i].key == key,
    ensures
        attr_of(attrs, key) == Some(attrs[i].value),
    decreases i,
{
    if i > 0 {
        lemma_attr_of_found(attrs.drop_first(), key, i - 1);
    }
}

proof fn lemma_attr_of_none(attrs: Seq<AttrV>, key: Seq<char>)
    requires
        forall|k: int| 0 <= k < attrs.len() ==> attrs[k].key != key,
    ensures
        attr_of(attrs, key) is None,
    decreases attrs.len(),
{
    if attrs.len() > 0 {
        lemma_attr_of_none(attrs.drop_first(), key);
    }
}

/// Finds an attribute by key; absent attributes are `None`, empty values are
/// kept as empty strings.
pub fn get_attr(attrs: &Vec<Attr>, key: &str) -> (r: Option<String>)
    ensures
        opt_view(r) == attr_of(attrs.deep_view(), key@),
{
    let mut i: usize = 0;
    while i < attrs.len()
        invariant
            i <= attrs@.len(),
            forall|k: int| 0 <= k < i as int ==> attrs.deep_view()[k].key != key@,
        decreases attrs@.len() - i,
    {
        if str_eq(attrs[i].key.as_str(), key) {
            let v = attrs[i].value.clone();
            proof {
                lemma_attr_of_found(attrs.deep_view(), key@, i as int);
            }
            return Some(v);
        }
        i += 1;
    }
    proof {
        lemma_attr_of_none(attrs.deep_view(), key@);
    }
    None
}

/// Like `get_attr`, with the empty string for an absent attribute.
pub fn get_attr_or_empty(attrs: &Vec<Attr>, key: &str) -> (r: String)
    ensures
        r@ == attr_or_empty(attrs.deep_view(), key@),
{
    match get_attr(attrs, key) {
        Some(v) => v,
        None => String::new(),
    }
}

/// Like `get_attr`, with a caller-chosen default for an absent attribute.
pub fn get_attr_or(attrs: &Vec<Attr>, key: &str, dflt: &str) -> (r: String)
    ensures
        r@ == attr_or(attrs.deep_view(), key@, dflt@),
{
    match get_attr(attrs, key) {
        Some(v) => v,
        None => String::from_str(dflt),
    }
}

// ─────────────────────────────────────────────────────────────────────────────
// The transition function (spec)
// ─────────────────────────────────────────────────────────────────────────────

pub open spec fn material_child(m: MaterialV, tag: Seq<char>, attrs: Seq<AttrV>) -> MaterialV {
    if tag == "D"@ {
        MaterialV {
            density: Some(
                DensityV {
                    value: attr_or_empty(attrs, "value"@),
                    unit: attr_of(attrs, "unit"@),
                },
            ),
            ..m
        }
    } else if tag == "Dref"@ {
        MaterialV { density_ref: attr_of(attrs, "ref"@), ..m }
    } else if tag == "T"@ {
        MaterialV {
            temperature: Some(
                PropertyValueV {
                    value: attr_or_empty(attrs, "value"@),
                    unit: attr_of(attrs, "unit"@),
                },
            ),
            ..m
        }
    } else if tag == "P"@ {
        MaterialV {
            pressure: Some(
                PropertyValueV {
                    value: attr_or_empty(attrs, "value"@),
                    unit: attr_of(attrs, "unit"@),
                },
            ),
            ..m
        }
    } else if tag == "atom"@ {
        MaterialV { atom_value: attr_of(attrs, "value"@), ..m }
    } else if tag == "fraction"@ {
        MaterialV {
            components: m.components.push(
                MaterialComponentV::Fraction {
                    n: attr_or_empty(attrs, "n"@),
                    ref_name: attr_or_empty(attrs, "ref"@),
                },
            ),
            ..m
        }
    } else if tag == "composite"@ {
        MaterialV {
            components: m.components.push(
                MaterialComponentV::Composite {
                    n: attr_or_empty(attrs, "n"@),
                    ref_name: attr_or_empty(attrs, "ref"@),
                },
            ),
            ..m
        }
    } else {
        m
    }
}

pub open spec fn inline_position(attrs: Seq<AttrV>) -> PositionV {
    PositionV {
        name: attr_or_empty(attrs, "name"@),
        x: attr_of(attrs, "x"@),
        y: attr_of(attrs, "y"@),
        z: attr_of(attrs, "z"@),
        unit: attr_of(attrs, "unit"@),
    }
}

pub open spec fn inline_rotation(attrs: Seq<AttrV>) -> RotationV {
    RotationV {
        name: attr_or_empty(attrs, "name"@),
        x: attr_of(attrs, "x"@),
        y: attr_of(attrs, "y"@),
        z: attr_of(attrs, "z"@),
        unit: attr_of(attrs, "unit"@),
    }
}

pub open spec fn physvol_child(pv: PhysVolV, tag: Seq<char>, attrs: Seq<AttrV>) -> PhysVolV {
    if tag == "volumeref"@ {
        PhysVolV { volume_ref: attr_or_empty(attrs, "ref"@), ..pv }
    } else if tag == "position"@ {
        PhysVolV { position: Some(PlacementPosV::Inline(inline_position(attrs))), ..pv }
    } else if tag == "positionref"@ {
        PhysVolV { position: Some(PlacementPosV::Ref(attr_or_empty(attrs, "ref"@))), ..pv }
    } else if tag == "rotation"@ {
        PhysVolV { rotation: Some(PlacementRotV::Inline(inline_rotation(attrs))), ..pv }
    } else if tag == "rotationref"@ {
        PhysVolV { rotation: Some(PlacementRotV::Ref(attr_or_empty(attrs, "ref"@))), ..pv }
    } else if tag == "file"@ {
        PhysVolV {
            file_ref: Some(
                FileRefV { name: attr_or_empty(attrs, "name"@), volname: attr_of(attrs, "volname"@) },
            ),
            ..pv
        }
    } else {
        pv
    }
}

pub open spec fn volume_ref_child(v: VolumeV, tag: Seq<char>, attrs: Seq<AttrV>) -> VolumeV {
    if tag == "materialref"@ {
        VolumeV { material_ref: attr_or_empty(attrs, "ref"@), ..v }
    } else if tag == "solidref"@ {
        VolumeV { solid_ref: attr_or_empty(attrs, "ref"@), ..v }
    } else {
        v
    }
}

pub open spec fn solid_from_attrs(tag: Seq<char>, attrs: Seq<AttrV>) -> SolidV
    recommends
        tag == "box"@ || tag == "tube"@ || tag == "cone"@ || tag == "sphere"@,
{
    if tag == "box"@ {
        SolidV::Box(
            BoxSolidV {
                name: attr_or_empty(attrs, "name"@),
                x: attr_or(attrs, "x"@, "0"@),
                y: attr_or(attrs, "y"@, "0"@),
                z: attr_or(attrs, "z"@, "0"@),
                lunit: attr_of(attrs, "lunit"@),
            },
        )
    } else if tag == "tube"@ {
        SolidV::Tube(
            TubeSolidV {
                name: attr_or_empty(attrs, "name"@),
                rmin: attr_of(attrs, "rmin"@),
                rmax: attr_or(attrs, "rmax"@, "0"@),
                z: attr_or(attrs, "z"@, "0"@),
                startphi: attr_of(attrs, "startphi"@),
                deltaphi: attr_of(attrs, "deltaphi"@),
                aunit: attr_of(attrs, "aunit"@),
                lunit: attr_of(attrs, "lunit"@),
            },
        )
    } else if tag == "cone"@ {
        SolidV::Cone(
            ConeSolidV {
                name: attr_or_empty(attrs, "name"@),
                rmin1: attr_of(attrs, "rmin1"@),
                rmax1: attr_or(attrs, "rmax1"@, "0"@),
                rmin2: attr_of(attrs, "rmin2"@),
                rmax2: attr_or(attrs, "rmax2"@, "0"@),
                z: attr_or(attrs, "z"@, "0"@),
                startphi: attr_of(attrs, "startphi"@),
                deltaphi: attr_of(attrs, "deltaphi"@),
                aunit: attr_of(attrs, "aunit"@),
                lunit: attr_of(attrs, "lunit"@),
            },
        )
    } else {
        SolidV::Sphere(
            SphereSolidV {
                name: attr_or_empty(attrs, "name"@),
                rmin: attr_of(attrs, "rmin"@),
                rmax: attr_or(attrs, "rmax"@, "0"@),
                startphi: attr_of(attrs, "startphi"@),
                deltaphi: attr_of(attrs, "deltaphi"@),
                starttheta: attr_of(attrs, "starttheta"@),
                deltatheta: attr_of(attrs, "deltatheta"@),
                aunit: attr_of(attrs, "aunit"@),
                lunit: attr_of(attrs, "lunit"@),
            },
        )
    }
}

pub open spec fn is_solid_tag(tag: Seq<char>) -> bool {
    tag == "box"@ || tag == "tube"@ || tag == "cone"@ || tag == "sphere"@
}

/// Dispatch for an opening or empty tag seen at top level (no open context).
/// `empty_form` tells the two apart: an empty `<element/>` or `<setup/>` is
/// complete on its own, while the container form opens a context.
pub open spec fn step_tag_top(
    st: ParseStateV,
    tag: Seq<char>,
    attrs: Seq<AttrV>,
    empty_form: bool,
) -> ParseStateV {
    if !empty_form && tag == "define"@ {
        if st.section == Section::Materials {
            ParseStateV { section: Section::MaterialsDefine, ..st }
        } else {
            ParseStateV { section: Section::Define, ..st }
        }
    } else if !empty_form && tag == "materials"@ {
        ParseStateV { section: Section::Materials, ..st }
    } else if !empty_form && tag == "solids"@ {
        ParseStateV { section: Section::Solids, ..st }
    } else if !empty_form && tag == "structure"@ {
        ParseStateV { section: Section::Structure, ..st }
    } else if tag == "constant"@ && st.section == Section::Define {
        ParseStateV {
            defines: DefineSectionV {
                constants: st.defines.constants.push(
                    ConstantV {
                        name: attr_or_empty(attrs, "name"@),
                        value: attr_or_empty(attrs, "value"@),
                    },
                ),
                ..st.defines
            },
            ..st
        }
    } else if tag == "quantity"@ && (st.section == Section::Define || st.section
        == Section::MaterialsDefine) {
        ParseStateV {
            defines: DefineSectionV {
                quantities: st.defines.quantities.push(
                    QuantityV {
                        name: attr_or_empty(attrs, "name"@),
                        qtype: attr_of(attrs, "type"@),
                        value: attr_or_empty(attrs, "value"@),
                        unit: attr_of(attrs, "unit"@),
                    },
                ),
                ..st.defines
            },
            ..st
        }
    } else if tag == "variable"@ && st.section == Section::Define {
        ParseStateV {
            defines: DefineSectionV {
                variables: st.defines.variables.push(
                    VariableV {
                        name: attr_or_empty(attrs, "name"@),
                        value: attr_or_empty(attrs, "value"@),
                    },
                ),
                ..st.defines
            },
            ..st
        }
    } else if !empty_form && tag == "expression"@ && st.section == Section::Define {
        ParseStateV {
            context: ContextV::InExpression {
                name: attr_or_empty(attrs, "name"@),
                text: Seq::empty(),
            },
            ..st
        }
    } else if tag == "position"@ && st.section == Section::Define {
        ParseStateV {
            defines: DefineSectionV {
                positions: st.defines.positions.push(inline_position(attrs)),
                ..st.defines
            },
            ..st
        }
    } else if tag == "rotation"@ && st.section == Section::Define {
        ParseStateV {
            defines: DefineSectionV {
                rotations: st.defines.rotations.push(inline_rotation(attrs)),
                ..st.defines
            },
            ..st
        }
    } else if tag == "element"@ && st.section == Section::Materials {
        if empty_form {
            ParseStateV {
                materials: MaterialSectionV {
                    elements: st.materials.elements.push(
                        ElementV {
                            name: attr_or_empty(attrs, "name"@),
                            formula: attr_of(attrs, "formula"@),
                            z: attr_of(attrs, "Z"@),
                            atom_value: None,
                        },
                    ),
                    ..st.materials
                },
                ..st
            }
        } else {
            ParseStateV {
                context: ContextV::InElement {
                    e: ElementV {
                        name: attr_or_empty(attrs, "name"@),
                        formula: attr_of(attrs, "formula"@),
                        z: attr_of(attrs, "Z"@),
                        atom_value: None,
                    },
                },
                ..st
            }
        }
    } else if !empty_form && tag == "material"@ && st.section == Section::Materials {
        ParseStateV {
            context: ContextV::InMaterial {
                m: MaterialV {
                    name: attr_or_empty(attrs, "name"@),
                    formula: attr_of(attrs, "formula"@),
                    z: attr_of(attrs, "Z"@),
                    density: None,
                    density_ref: None,
                    temperature: None,
                    pressure: None,
                    atom_value: None,
                    components: Seq::empty(),
                },
            },
            ..st
        }
    } else if is_solid_tag(tag) && st.section == Section::Solids {
        ParseStateV {
            solids: SolidSectionV { solids: st.solids.solids.push(solid_from_attrs(tag, attrs)) },
            ..st
        }
    } else if !empty_form && tag == "volume"@ && st.section == Section::Structure {
        ParseStateV {
            context: ContextV::InVolume {
                v: VolumeV {
                    name: attr_or_empty(attrs, "name"@),
                    material_ref: Seq::empty(),
                    solid_ref: Seq::empty(),
                    physvols: Seq::empty(),
                    auxiliaries: Seq::empty(),
                },
            },
            ..st
        }
    } else if tag == "setup"@ {
        if empty_form {
            ParseStateV {
                setup: Some(
                    SetupSectionV {
                        name: attr_or_empty(attrs, "name"@),
                        version: attr_or(attrs, "version"@, "1.0"@),
                        world_ref: attr_or_empty(attrs, "world"@),
                    },
                ),
                ..st
            }
        } else {
            ParseStateV {
                context: ContextV::InSetup {
                    name: attr_or_empty(attrs, "name"@),
                    version: attr_or(attrs, "version"@, "1.0"@),
                    world_ref: Seq::empty(),
                },
                ..st
            }
        }
    } else {
        st
    }
}

/// Dispatch for an opening or empty tag inside an open context.
pub open spec fn step_tag(
    st: ParseStateV,
    tag: Seq<char>,
    attrs: Seq<AttrV>,
    empty_form: bool,
) -> ParseStateV {
    match st.context {
        ContextV::Top => step_tag_top(st, tag, attrs, empty_form),
        ContextV::InExpression { .. } => st,
        ContextV::InElement { e } => {
            if empty_form && tag == "atom"@ {
                ParseStateV {
                    context: ContextV::InElement {
                        e: ElementV { atom_value: attr_of(attrs, "value"@), ..e },
                    },
                    ..st
                }
            } else {
                st
            }
        },
        ContextV::InMaterial { m } => ParseStateV {
            context: ContextV::InMaterial { m: material_child(m, tag, attrs) },
            ..st
        },
        ContextV::InVolume { v } => {
            if !empty_form && tag == "physvol"@ {
                ParseStateV {
                    context: ContextV::InPhysVol {
                        v,
                        pv: PhysVolV {
                            name: attr_of(attrs, "name"@),
                            volume_ref: Seq::empty(),
                            position: None,
                            rotation: None,
                            file_ref: None,
                        },
                    },
                    ..st
                }
            } else if empty_form && tag == "auxiliary"@ {
                ParseStateV {
                    context: ContextV::InVolume {
                        v: VolumeV {
                            auxiliaries: v.auxiliaries.push(
                                AuxiliaryV {
                                    auxtype: attr_or_empty(attrs, "auxtype"@),
                                    auxvalue: attr_or_empty(attrs, "auxvalue"@),
                                },
                            ),
                            ..v
                        },
                    },
                    ..st
                }
            } else {
                ParseStateV { context: ContextV::InVolume { v: volume_ref_child(v, tag, attrs) }, ..st }
            }
        },
        ContextV::InPhysVol { v, pv } => ParseStateV {
            context: ContextV::InPhysVol { v, pv: physvol_child(pv, tag, attrs) },
            ..st
        },
        ContextV::InSetup { name, version, world_ref } => {
            if tag == "world"@ {
                ParseStateV {
                    context: ContextV::InSetup {
                        name,
                        version,
                        world_ref: attr_or_empty(attrs, "ref"@),
                    },
                    ..st
                }
            } else {
                st
            }
        },
    }
}

/// Dispatch for a closing tag.
pub open spec fn step_close(st: ParseStateV, tag: Seq<char>) -> ParseStateV {
    match st.context {
        ContextV::Top => {
            if tag == "define"@ {
                if st.section == Section::MaterialsDefine {
                    ParseStateV { section: Section::Materials, ..st }
                } else if st.section == Section::Define {
                    ParseStateV { section: Section::Outside, ..st }
                } else {
                    st
                }
            } else if tag == "materials"@ || tag == "solids"@ || tag == "structure"@ {
                ParseStateV { section: Section::Outside, ..st }
            } else {
                st
            }
        },
        ContextV::InExpression { name, text } => {
            if tag == "expression"@ {
                ParseStateV {
                    context: ContextV::Top,
                    defines: DefineSectionV {
                        expressions: st.defines.expressions.push(
                            ExpressionV { name, value: collapse_spaces_spec(text) },
                        ),
                        ..st.defines
                    },
                    ..st
                }
            } else {
                st
            }
        },
        ContextV::InElement { e } => {
            if tag == "element"@ {
                ParseStateV {
                    context: ContextV::Top,
                    materials: MaterialSectionV {
                        elements: st.materials.elements.push(e),
                        ..st.materials
                    },
                    ..st
                }
            } else {
                st
            }
        },
        ContextV::InMaterial { m } => {
            if tag == "material"@ {
                ParseStateV {
                    context: ContextV::Top,
                    materials: MaterialSectionV {
                        materials: st.materials.materials.push(m),
                        ..st.materials
                    },
                    ..st
                }
            } else {
                st
            }
        },
        ContextV::InVolume { v } => {
            if tag == "volume"@ {
                ParseStateV {
                    context: ContextV::Top,
                    structure: StructureSectionV { volumes: st.structure.volumes.push(v) },
                    ..st
                }
            } else {
                st
            }
        },
        ContextV::InPhysVol { v, pv } => {
            if tag == "physvol"@ {
                ParseStateV {
                    context: ContextV::InVolume {
                        v: VolumeV { physvols: v.physvols.push(pv), ..v },
                    },
                    ..st
                }
            } else {
                st
            }
        },
        ContextV::InSetup { name, version, world_ref } => {
            if tag == "setup"@ {
                ParseStateV {
                    context: ContextV::Top,
                    setup: Some(SetupSectionV { name, version, world_ref }),
                    ..st
                }
            } else {
                st
            }
        },
    }
}

/// One transition of the parser; after a failure everything is absorbed.
pub open spec fn parse_step(st: ParseStateV, ev: XmlEventV) -> ParseStateV {
    if st.failure is Some {
        st
    } else {
        match ev {
            XmlEventV::Fault { offset, message } => ParseStateV {
                failure: Some(ParseErrorV { offset, message }),
                ..st
            },
            XmlEventV::Text { content } => match st.context {
                ContextV::InExpression { name, text } => ParseStateV {
                    context: ContextV::InExpression { name, text: text + content },
                    ..st
                },
                _ => st,
            },
            XmlEventV::Open { tag, attrs } => step_tag(st, tag, attrs, false),
            XmlEventV::Empty { tag, attrs } => step_tag(st, tag, attrs, true),
            XmlEventV::Close { tag } => step_close(st, tag),
        }
    }
}

pub open spec fn init_state_v() -> ParseStateV {
    ParseStateV {
        section: Section::Outside,
        context: ContextV::Top,
        defines: empty_define_section_v(),
        materials: empty_material_section_v(),
        solids: empty_solid_section_v(),
        structure: empty_structure_section_v(),
        setup: None,
        failure: None,
    }
}

pub open spec fn parse_fold(evs: Seq<XmlEventV>, st: ParseStateV) -> ParseStateV
    decreases evs.len(),
{
    if evs.len() == 0 {
        st
    } else {
        parse_fold(evs.drop_first(), parse_step(st, evs[0]))
    }
}

/// A context still open when the stream ends is completed, as the original
/// nested readers complete on end of input.
pub open spec fn flush_context(st: ParseStateV) -> ParseStateV {
    match st.context {
        ContextV::Top => st,
        ContextV::InExpression { name, text } => ParseStateV {
            context: ContextV::Top,
            defines: DefineSectionV {
                expressions: st.defines.expressions.push(
                    ExpressionV { name, value: collapse_spaces_spec(text) },
                ),
                ..st.defines
            },
            ..st
        },
        ContextV::InElement { e } => ParseStateV {
            context: ContextV::Top,
            materials: MaterialSectionV { elements: st.materials.elements.push(e), ..st.materials },
            ..st
        },
        ContextV::InMaterial { m } => ParseStateV {
            context: ContextV::Top,
            materials: MaterialSectionV { materials: st.materials.materials.push(m), ..st.materials },
            ..st
        },
        ContextV::InVolume { v } => ParseStateV {
            context: ContextV::Top,
            structure: StructureSectionV { volumes: st.structure.volumes.push(v) },
            ..st
        },
        ContextV::InPhysVol { v, pv } => ParseStateV {
            context: ContextV::Top,
            structure: StructureSectionV {
                volumes: st.structure.volumes.push(VolumeV { physvols: v.physvols.push(pv), ..v }),
            },
            ..st
        },
        ContextV::InSetup { name, version, world_ref } => ParseStateV {
            context: ContextV::Top,
            setup: Some(SetupSectionV { name, version, world_ref }),
            ..st
        },
    }
}

pub open spec fn default_setup_v() -> SetupSectionV {
    SetupSectionV { name: "default"@, version: "1.0"@, world_ref: Seq::empty() }
}

pub open spec fn assemble_document(st: ParseStateV, filename: Seq<char>) -> GdmlDocumentV {
    GdmlDocumentV {
        filename,
        defines: st.defines,
        materials: st.materials,
        solids: st.solids,
        structure: st.structure,
        setup: match st.setup {
            Some(s) => s,
            None => default_setup_v(),
        },
    }
}

/// What parsing an event stream yields: the document built by the fold, or
/// the first lexing fault.
pub open spec fn spec_parse(evs: Seq<XmlEventV>, filename: Seq<char>) -> Result<
    GdmlDocumentV,
    ParseErrorV,
> {
    let st = flush_context(parse_fold(evs, init_state_v()));
    match st.failure {
        Some(e) => Err(e),
        None => Ok(assemble_document(st, filename)),
    }
}

// ─────────────────────────────────────────────────────────────────────────────
// The executable parser
// ─────────────────────────────────────────────────────────────────────────────

fn build_inline_position(attrs: &Vec<Attr>) -> (r: Position)
    ensures
        r.deep_view() == inline_position(attrs.deep_view()),
{
    Position {
        name: get_attr_or_empty(attrs, "name"),
        x: get_attr(attrs, "x"),
        y: get_attr(attrs, "y"),
        z: get_attr(attrs, "z"),
        unit: get_attr(attrs, "unit"),
    }
}

fn build_inline_rotation(attrs: &Vec<Attr>) -> (r: Rotation)
    ensures
        r.deep_view() == inline_rotation(attrs.deep_view()),
{
    Rotation {
        name: get_attr_or_empty(attrs, "name"),
        x: get_attr(attrs, "x"),
        y: get_attr(attrs, "y"),
        z: get_attr(attrs, "z"),
        unit: get_attr(attrs, "unit"),
    }
}

fn build_solid(tag: &str, attrs: &Vec<Attr>) -> (r: Solid)
    requires
        is_solid_tag(tag@),
    ensures
        r.deep_view() == solid_from_attrs(tag@, attrs.deep_view()),
{
    if str_eq(tag, "box") {
        Solid::Box(
            BoxSolid {
                name: get_attr_or_empty(attrs, "name"),
                x: get_attr_or(attrs, "x", "0"),
                y: get_attr_or(attrs, "y", "0"),
                z: get_attr_or(attrs, "z", "0"),
                lunit: get_attr(attrs, "lunit"),
            },
        )
    } else if str_eq(tag, "tube") {
        Solid::Tube(
            TubeSolid {
                name: get_attr_or_empty(attrs, "name"),
                rmin: get_attr(attrs, "rmin"),
                rmax: get_attr_or(attrs, "rmax", "0"),
                z: get_attr_or(attrs, "z", "0"),
                startphi: get_attr(attrs, "startphi"),
                deltaphi: get_attr(attrs, "deltaphi"),
                aunit: get_attr(attrs, "aunit"),
                lunit: get_attr(attrs, "lunit"),
            },
        )
    } else if str_eq(tag, "cone") {
        Solid::Cone(
            ConeSolid {
                name: get_attr_or_empty(attrs, "name"),
                rmin1: get_attr(attrs, "rmin1"),
                rmax1: get_attr_or(attrs, "rmax1", "0"),
                rmin2: get_attr(attrs, "rmin2"),
                rmax2: get_attr_or(attrs, "rmax2", "0"),
                z: get_attr_or(attrs, "z", "0"),
                startphi: get_attr(attrs, "startphi"),
                deltaphi: get_attr(attrs, "deltaphi"),
                aunit: get_attr(attrs, "aunit"),
                lunit: get_attr(attrs, "lunit"),
            },
        )
    } else {
        Solid::Sphere(
            SphereSolid {
                name: get_attr_or_empty(attrs, "name"),
                rmin: get_attr(attrs, "rmin"),
                rmax: get_attr_or(attrs, "rmax", "0"),
                startphi: get_attr(attrs, "startphi"),
                deltaphi: get_attr(attrs, "deltaphi"),
                starttheta: get_attr(attrs, "starttheta"),
                deltatheta: get_attr(attrs, "deltatheta"),
                aunit: get_attr(attrs, "aunit"),
                lunit: get_attr(attrs, "lunit"),
            },
        )
    }
}

fn apply_material_child(m: &mut Material, tag: &str, attrs: &Vec<Attr>)
    ensures
        final(m).deep_view() == material_child(old(m).deep_view(), tag@, attrs.deep_view()),
{
    if str_eq(tag, "D") {
        m.density = Some(
            Density { value: get_attr_or_empty(attrs, "value"), unit: get_attr(attrs, "unit") },
        );
    } else if str_eq(tag, "Dref") {
        m.density_ref = get_attr(attrs, "ref");
    } else if str_eq(tag, "T") {
        m.temperature = Some(
            PropertyValue { value: get_attr_or_empty(attrs, "value"), unit: get_attr(attrs, "unit") },
        );
    } else if str_eq(tag, "P") {
        m.pressure = Some(
            PropertyValue { value: get_attr_or_empty(attrs, "value"), unit: get_attr(attrs, "unit") },
        );
    } else if str_eq(tag, "atom") {
        m.atom_value = get_attr(attrs, "value");
    } else if str_eq(tag, "fraction") {
        push_dv(
            &mut m.components,
            MaterialComponent::Fraction {
                n: get_attr_or_empty(attrs, "n"),
                ref_name: get_attr_or_empty(attrs, "ref"),
            },
        );
    } else if str_eq(tag, "composite") {
        push_dv(
            &mut m.components,
            MaterialComponent::Composite {
                n: get_attr_or_empty(attrs, "n"),
                ref_name: get_attr_or_empty(attrs, "ref"),
            },
        );
    }
}

fn apply_physvol_child(pv: &mut PhysVol, tag: &str, attrs: &Vec<Attr>)
    ensures
        final(pv).deep_view() == physvol_child(old(pv).deep_view(), tag@, attrs.deep_view()),
{
    if str_eq(tag, "volumeref") {
        pv.volume_ref = get_attr_or_empty(attrs, "ref");
    } else if str_eq(tag, "position") {
        pv.position = Some(PlacementPos::Inline(build_inline_position(attrs)));
    } else if str_eq(tag, "positionref") {
        pv.position = Some(PlacementPos::Ref(get_attr_or_empty(attrs, "ref")));
    } else if str_eq(tag, "rotation") {
        pv.rotation = Some(PlacementRot::Inline(build_inline_rotation(attrs)));
    } else if str_eq(tag, "rotationref") {
        pv.rotation = Some(PlacementRot::Ref(get_attr_or_empty(attrs, "ref")));
    } else if str_eq(tag, "file") {
        pv.file_ref = Some(
            FileRef { name: get_attr_or_empty(attrs, "name"), volname: get_attr(attrs, "volname") },
        );
    }
}

fn apply_volume_ref_child(v: &mut Volume, tag: &str, attrs: &Vec<Attr>)
    ensures
        final(v).deep_view() == volume_ref_child(old(v).deep_view(), tag@, attrs.deep_view()),
{
    if str_eq(tag, "materialref") {
        v.material_ref = get_attr_or_empty(attrs, "ref");
    } else if str_eq(tag, "solidref") {
        v.solid_ref = get_attr_or_empty(attrs, "ref");
    }
}

fn apply_tag_top(st: &mut ParseState, tag: &str, attrs: &Vec<Attr>, empty_form: bool)
    requires
        old(st).context is Top,
        old(st).failure is None,
    ensures
        final(st).deep_view() == step_tag_top(old(st).deep_view(), tag@, attrs.deep_view(), empty_form),
{
    if !empty_form && str_eq(tag, "define") {
        if st.section == Section::Materials {
            st.section = Section::MaterialsDefine;
        } else {
            st.section = Section::Define;
        }
    } else if !empty_form && str_eq(tag, "materials") {
        st.section = Section::Materials;
    } else if !empty_form && str_eq(tag, "solids") {
        st.section = Section::Solids;
    } else if !empty_form && str_eq(tag, "structure") {
        st.section = Section::Structure;
    } else if str_eq(tag, "constant") && st.section == Section::Define {
        push_dv(
            &mut st.defines.constants,
            Constant { name: get_attr_or_empty(attrs, "name"), value: get_attr_or_empty(attrs, "value") },
        );
    } else if str_eq(tag, "quantity") && (st.section == Section::Define || st.section
        == Section::MaterialsDefine) {
        push_dv(
            &mut st.defines.quantities,
            Quantity {
                name: get_attr_or_empty(attrs, "name"),
                qtype: get_attr(attrs, "type"),
                value: get_attr_or_empty(attrs, "value"),
                unit: get_attr(attrs, "unit"),
            },
        );
    } else if str_eq(tag, "variable") && st.section == Section::Define {
        push_dv(
            &mut st.defines.variables,
            Variable { name: get_attr_or_empty(attrs, "name"), value: get_attr_or_empty(attrs, "value") },
        );
    } else if !empty_form && str_eq(tag, "expression") && st.section == Section::Define {
        st.context = Context::InExpression { name: get_attr_or_empty(attrs, "name"), text: String::new() };
    } else if str_eq(tag, "position") && st.section == Section::Define {
        push_dv(&mut st.defines.positions, build_inline_position(attrs));
    } else if str_eq(tag, "rotation") && st.section == Section::Define {
        push_dv(&mut st.defines.rotations, build_inline_rotation(attrs));
    } else if str_eq(tag, "element") && st.section == Section::Materials {
        let e = Element {
            name: get_attr_or_empty(attrs, "name"),
            formula: get_attr(attrs, "formula"),
            z: get_attr(attrs, "Z"),
            atom_value: None,
        };
        if empty_form {
            push_dv(&mut st.materials.elements, e);
        } else {
            st.context = Context::InElement { e };
        }
    } else if !empty_form && str_eq(tag, "material") && st.section == Section::Materials {
        st.context = Context::InMaterial {
            m: Material {
                name: get_attr_or_empty(attrs, "name"),
                formula: get_attr(attrs, "formula"),
                z: get_attr(attrs, "Z"),
                density: None,
                density_ref: None,
                temperature: None,
                pressure: None,
                atom_value: None,
                components: Vec::new(),
            },
        };
        proof {
            assert(st.context.deep_view()->InMaterial_m.components =~= Seq::<MaterialComponentV>::empty());
        }
    } else if (str_eq(tag, "box") || str_eq(tag, "tube") || str_eq(tag, "cone") || str_eq(
        tag,
        "sphere",
    )) && st.section == Section::Solids {
        let s = build_solid(tag, attrs);
        push_dv(&mut st.solids.solids, s);
    } else if !empty_form && str_eq(tag, "volume") && st.section == Section::Structure {
        st.context = Context::InVolume {
            v: Volume {
                name: get_attr_or_empty(attrs, "name"),
                material_ref: String::new(),
                solid_ref: String::new(),
                physvols: Vec::new(),
                auxiliaries: Vec::new(),
            },
        };
        proof {
            assert(st.context.deep_view()->InVolume_v.physvols =~= Seq::<PhysVolV>::empty());
            assert(st.context.deep_view()->InVolume_v.auxiliaries =~= Seq::<AuxiliaryV>::empty());
        }
    } else if str_eq(tag, "setup") {
        let name = get_attr_or_empty(attrs, "name");
        let version = get_attr_or(attrs, "version", "1.0");
        if empty_form {
            st.setup = Some(
                SetupSection { name, version, world_ref: get_attr_or_empty(attrs, "world") },
            );
        } else {
            st.context = Context::InSetup { name, version, world_ref: String::new() };
        }
    }
}

fn apply_tag(st: &mut ParseState, tag: &str, attrs: &Vec<Attr>, empty_form: bool)
    requires
        old(st).failure is None,
    ensures
        final(st).deep_view() == step_tag(old(st).deep_view(), tag@, attrs.deep_view(), empty_form),
{
    let mut ctx = Context::Top;
    core::mem::swap(&mut ctx, &mut st.context);
    match ctx {
        Context::Top => {
            apply_tag_top(st, tag, attrs, empty_form);
        },
        Context::InExpression { name, text } => {
            st.context = Context::InExpression { name, text };
        },
        Context::InElement { mut e } => {
            if empty_form && str_eq(tag, "atom") {
                e.atom_value = get_attr(attrs, "value");
            }
            st.context = Context::InElement { e };
        },
        Context::InMaterial { mut m } => {
            apply_material_child(&mut m, tag, attrs);
            st.context = Context::InMaterial { m };
        },
        Context::InVolume { mut v } => {
            if !empty_form && str_eq(tag, "physvol") {
                let pv = PhysVol {
                    name: get_attr(attrs, "name"),
                    volume_ref: String::new(),
                    position: None,
                    rotation: None,
                    file_ref: None,
                };
                st.context = Context::InPhysVol { v, pv };
            } else if empty_form && str_eq(tag, "auxiliary") {
                push_dv(
                    &mut v.auxiliaries,
                    Auxiliary {
                        auxtype: get_attr_or_empty(attrs, "auxtype"),
                        auxvalue: get_attr_or_empty(attrs, "auxvalue"),
                    },
                );
                st.context = Context::InVolume { v };
            } else {
                apply_volume_ref_child(&mut v, tag, attrs);
                st.context = Context::InVolume { v };
            }
        },
        Context::InPhysVol { v, mut pv } => {
            apply_physvol_child(&mut pv, tag, attrs);
            st.context = Context::InPhysVol { v, pv };
        },
        Context::InSetup { name, version, world_ref } => {
            if str_eq(tag, "world") {
                st.context = Context::InSetup {
                    name,
                    version,
                    world_ref: get_attr_or_empty(attrs, "ref"),
                };
            } else {
                st.context = Context::InSetup { name, version, world_ref };
            }
        },
    }
}

fn apply_close(st: &mut ParseState, tag: &str)
    requires
        old(st).failure is None,
    ensures
        final(st).deep_view() == step_close(old(st).deep_view(), tag@),
{
    let mut ctx = Context::Top;
    core::mem::swap(&mut ctx, &mut st.context);
    match ctx {
        Context::Top => {
            if str_eq(tag, "define") {
                if st.section == Section::MaterialsDefine {
                    st.section = Section::Materials;
                } else if st.section == Section::Define {
                    st.section = Section::Outside;
                }
            } else if str_eq(tag, "materials") || str_eq(tag, "solids") || str_eq(tag, "structure") {
                st.section = Section::Outside;
            }
        },
        Context::InExpression { name, text } => {
            if str_eq(tag, "expression") {
                let value = collapse_spaces(text.as_str());
                push_dv(&mut st.defines.expressions, Expression { name, value });
            } else {
                st.context = Context::InExpression { name, text };
            }
        },
        Context::InElement { e } => {
            if str_eq(tag, "element") {
                push_dv(&mut st.materials.elements, e);
            } else {
                st.context = Context::InElement { e };
            }
        },
        Context::InMaterial { m } => {
            if str_eq(tag, "material") {
                push_dv(&mut st.materials.materials, m);
            } else {
                st.context = Context::InMaterial { m };
            }
        },
        Context::InVolume { v } => {
            if str_eq(tag, "volume") {
                push_dv(&mut st.structure.volumes, v);
            } else {
                st.context = Context::InVolume { v };
            }
        },
        Context::InPhysVol { mut v, pv } => {
            if str_eq(tag, "physvol") {
                push_dv(&mut v.physvols, pv);
                st.context = Context::InVolume { v };
            } else {
                st.context = Context::InPhysVol { v, pv };
            }
        },
        Context::InSetup { name, version, world_ref } => {
            if str_eq(tag, "setup") {
                st.setup = Some(SetupSection { name, version, world_ref });
            } else {
                st.context = Context::InSetup { name, version, world_ref };
            }
        },
    }
}

/// One transition of the executable parser; it computes exactly `parse_step`.
pub fn apply_event(st: &mut ParseState, ev: &XmlEvent)
    ensures
        final(st).deep_view() == parse_step(old(st).deep_view(), ev.deep_view()),
{
    if st.failure.is_some() {
        return;
    }
    match ev {
        XmlEvent::Fault { offset, message } => {
            st.failure = Some(ParseError { offset: *offset, message: message.clone() });
        },
        XmlEvent::Text { content } => {
            match &mut st.context {
                Context::InExpression { name: _, text } => {
                    text.append(content.as_str());
                },
                _ => {},
            }
        },
        XmlEvent::Open { tag, attrs } => {
            apply_tag(st, tag.as_str(), attrs, false);
        },
        XmlEvent::Empty { tag, attrs } => {
            apply_tag(st, tag.as_str(), attrs, true);
        },
        XmlEvent::Close { tag } => {
            apply_close(st, tag.as_str());
        },
    }
}

fn flush_open_context(st: &mut ParseState)
    ensures
        final(st).deep_view() == flush_context(old(st).deep_view()),
{
    let mut ctx = Context::Top;
    core::mem::swap(&mut ctx, &mut st.context);
    match ctx {
        Context::Top => {},
        Context::InExpression { name, text } => {
            let value = collapse_spaces(text.as_str());
            push_dv(&mut st.defines.expressions, Expression { name, value });
        },
        Context::InElement { e } => {
            push_dv(&mut st.materials.elements, e);
        },
        Context::InMaterial { m } => {
            push_dv(&mut st.materials.materials, m);
        },
        Context::InVolume { v } => {
            push_dv(&mut st.structure.volumes, v);
        },
        Context::InPhysVol { mut v, pv } => {
            push_dv(&mut v.physvols, pv);
            push_dv(&mut st.structure.volumes, v);
        },
        Context::InSetup { name, version, world_ref } => {
            st.setup = Some(SetupSection { name, version, world_ref });
        },
    }
}

fn init_parse_state() -> (st: ParseState)
    ensures
        st.deep_view() == init_state_v(),
{
    ParseState {
        section: Section::Outside,
        context: Context::Top,
        defines: DefineSection::default(),
        materials: MaterialSection::default(),
        solids: SolidSection::default(),
        structure: StructureSection::default(),
        setup: None,
        failure: None,
    }
}

proof fn lemma_parse_fold_push(evs: Seq<XmlEventV>, st: ParseStateV, ev: XmlEventV)
    ensures
        parse_fold(evs.push(ev), st) == parse_step(parse_fold(evs, st), ev),
    decreases evs.len(),
{
    if evs.len() == 0 {
        assert(evs.push(ev)[0] == ev);
        assert(evs.push(ev).drop_first() =~= Seq::<XmlEventV>::empty());
        assert(parse_fold(evs.push(ev), st) == parse_fold(
            Seq::<XmlEventV>::empty(),
            parse_step(st, ev),
        ));
        assert(parse_fold(Seq::<XmlEventV>::empty(), parse_step(st, ev)) == parse_step(st, ev));
        assert(parse_fold(evs, st) == st);
    } else {
        assert(evs.push(ev)[0] == evs[0]);
        assert(evs.push(ev).drop_first() =~= evs.drop_first().push(ev));
        assert(parse_fold(evs.push(ev), st) == parse_fold(
            evs.drop_first().push(ev),
            parse_step(st, evs[0]),
        ));
        assert(parse_fold(evs, st) == parse_fold(evs.drop_first(), parse_step(st, evs[0])));
        lemma_parse_fold_push(evs.drop_first(), parse_step(st, evs[0]), ev);
    }
}

/// Builds a document from an event stream: exactly the fold of `parse_step`
/// over the events, with any context still open completed, or the first
/// lexing fault as the error.
pub fn build_document(events: &Vec<XmlEvent>, filename: String) -> (r: Result<
    GdmlDocument,
    ParseError,
>)
    ensures
        ({
            let outcome = spec_parse(events.deep_view(), filename@);
            match r {
                Ok(doc) => outcome matches Ok(d) && doc.deep_view() == d,
                Err(e) => outcome matches Err(pe) && e.deep_view() == pe,
            }
        }),
{
    let ghost evs = events.deep_view();
    let mut st = init_parse_state();
    let mut i: usize = 0;
    proof {
        assert(evs.take(0) =~= Seq::<XmlEventV>::empty());
    }
    while i < events.len()
        invariant
            i <= events@.len(),
            evs == events.deep_view(),
            evs.len() == events@.len(),
            st.deep_view() == parse_fold(evs.take(i as int), init_state_v()),
        decreases events@.len() - i,
    {
        apply_event(&mut st, &events[i]);
        proof {
            assert(evs.take(i as int).push(evs[i as int]) =~= evs.take(i as int + 1));
            lemma_parse_fold_push(evs.take(i as int), init_state_v(), evs[i as int]);
        }
        i += 1;
    }
    proof {
        assert(evs.take(evs.len() as int) =~= evs);
    }
    flush_open_context(&mut st);
    let ParseState { section: _, context: _, defines, materials, solids, structure, setup, failure } =
        st;
    match failure {
        Some(e) => Err(e),
        None => {
            let setup_out = match setup {
                Some(s) => s,
                None => SetupSection {
                    name: String::from_str("default"),
                    version: String::from_str("1.0"),
                    world_ref: String::new(),
                },
            };
            Ok(GdmlDocument { filename, defines, materials, solids, structure, setup: setup_out })
        },
    }
}

pub open spec fn outcome_matches(
    outcome: Result<GdmlDocumentV, ParseErrorV>,
    r: Result<GdmlDocument, ParseError>,
) -> bool {
    match r {
        Ok(doc) => outcome matches Ok(d) && doc.deep_view() == d,
        Err(e) => outcome matches Err(pe) && e.deep_view() == pe,
    }
}

/// Parses raw GDML bytes: the bytes are lexed into events by the trusted
/// XML layer, and the result is exactly the verified fold of the bytes'
/// lexed event stream.
pub fn parse_gdml_from_bytes(raw: &[u8], filename: String) -> (r: Result<GdmlDocument, ParseError>)
    ensures
        outcome_matches(spec_parse(crate::xml::lexed_events(raw@), filename@), r),
{
    let events = crate::xml::tokenize(raw);
    let r = build_document(&events, filename);
    r
}

} // verus!
