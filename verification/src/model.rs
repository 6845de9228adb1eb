//! The GDML document model: a parsed file is a `GdmlDocument` holding five
//! sections of plain data (strings for every expression and reference).
//!
//! Every type has a ghost mirror (suffix `V`) over `Seq<char>`, reached
//! through `DeepView`; all contracts in this crate speak of those mirrors.

use vstd::prelude::*;

verus! {

// ─────────────────────────────────────────────────────────────────────────────
// Ghost mirrors
// ─────────────────────────────────────────────────────────────────────────────

pub struct ConstantV {
    pub name: Seq<char>,
    pub value: Seq<char>,
}

pub struct QuantityV {
    pub name: Seq<char>,
    pub qtype: Option<Seq<char>>,
    pub value: Seq<char>,
    pub unit: Option<Seq<char>>,
}

pub struct VariableV {
    pub name: Seq<char>,
    pub value: Seq<char>,
}

pub struct ExpressionV {
    pub name: Seq<char>,
    pub value: Seq<char>,
}

pub struct PositionV {
    pub name: Seq<char>,
    pub x: Option<Seq<char>>,
    pub y: Option<Seq<char>>,
    pub z: Option<Seq<char>>,
    pub unit: Option<Seq<char>>,
}

pub struct RotationV {
    pub name: Seq<char>,
    pub x: Option<Seq<char>>,
    pub y: Option<Seq<char>>,
    pub z: Option<Seq<char>>,
    pub unit: Option<Seq<char>>,
}

pub struct DefineSectionV {
    pub constants: Seq<ConstantV>,
    pub quantities: Seq<QuantityV>,
    pub variables: Seq<VariableV>,
    pub expressions: Seq<ExpressionV>,
    pub positions: Seq<PositionV>,
    pub rotations: Seq<RotationV>,
}

pub struct ElementV {
    pub name: Seq<char>,
    pub formula: Option<Seq<char>>,
    pub z: Option<Seq<char>>,
    pub atom_value: Option<Seq<char>>,
}

pub struct PropertyValueV {
    pub value: Seq<char>,
    pub unit: Option<Seq<char>>,
}

pub struct DensityV {
    pub value: Seq<char>,
    pub unit: Option<Seq<char>>,
}

pub enum MaterialComponentV {
    Fraction { n: Seq<char>, ref_name: Seq<char> },
    Composite { n: Seq<char>, ref_name: Seq<char> },
}

pub struct MaterialV {
    pub name: Seq<char>,
    pub formula: Option<Seq<char>>,
    pub z: Option<Seq<char>>,
    pub density: Option<DensityV>,
    pub density_ref: Option<Seq<char>>,
    pub temperature: Option<PropertyValueV>,
    pub pressure: Option<PropertyValueV>,
    pub atom_value: Option<Seq<char>>,
    pub components: Seq<MaterialComponentV>,
}

pub struct MaterialSectionV {
    pub elements: Seq<ElementV>,
    pub materials: Seq<MaterialV>,
}

pub struct BoxSolidV {
    pub name: Seq<char>,
    pub x: Seq<char>,
    pub y: Seq<char>,
    pub z: Seq<char>,
    pub lunit: Option<Seq<char>>,
}

pub struct TubeSolidV {
    pub name: Seq<char>,
    pub rmin: Option<Seq<char>>,
    pub rmax: Seq<char>,
    pub z: Seq<char>,
    pub startphi: Option<Seq<char>>,
    pub deltaphi: Option<Seq<char>>,
    pub aunit: Option<Seq<char>>,
    pub lunit: Option<Seq<char>>,
}

pub struct ConeSolidV {
    pub name: Seq<char>,
    pub rmin1: Option<Seq<char>>,
    pub rmax1: Seq<char>,
    pub rmin2: Option<Seq<char>>,
    pub rmax2: Seq<char>,
    pub z: Seq<char>,
    pub startphi: Option<Seq<char>>,
    pub deltaphi: Option<Seq<char>>,
    pub aunit: Option<Seq<char>>,
    pub lunit: Option<Seq<char>>,
}

pub struct SphereSolidV {
    pub name: Seq<char>,
    pub rmin: Option<Seq<char>>,
    pub rmax: Seq<char>,
    pub startphi: Option<Seq<char>>,
    pub deltaphi: Option<Seq<char>>,
    pub starttheta: Option<Seq<char>>,
    pub deltatheta: Option<Seq<char>>,
    pub aunit: Option<Seq<char>>,
    pub lunit: Option<Seq<char>>,
}

pub enum SolidV {
    Box(BoxSolidV),
    Tube(TubeSolidV),
    Cone(ConeSolidV),
    Sphere(SphereSolidV),
}

pub struct SolidSectionV {
    pub solids: Seq<SolidV>,
}

pub struct AuxiliaryV {
    pub auxtype: Seq<char>,
    pub auxvalue: Seq<char>,
}

pub struct FileRefV {
    pub name: Seq<char>,
    pub volname: Option<Seq<char>>,
}

pub enum PlacementPosV {
    Inline(PositionV),
    Ref(Seq<char>),
}

pub enum PlacementRotV {
    Inline(RotationV),
    Ref(Seq<char>),
}

pub struct PhysVolV {
    pub name: Option<Seq<char>>,
    pub volume_ref: Seq<char>,
    pub position: Option<PlacementPosV>,
    pub rotation: Option<PlacementRotV>,
    pub file_ref: Option<FileRefV>,
}

pub struct VolumeV {
    pub name: Seq<char>,
    pub material_ref: Seq<char>,
    pub solid_ref: Seq<char>,
    pub physvols: Seq<PhysVolV>,
    pub auxiliaries: Seq<AuxiliaryV>,
}

pub struct StructureSectionV {
    pub volumes: Seq<VolumeV>,
}

pub struct SetupSectionV {
    pub name: Seq<char>,
    pub version: Seq<char>,
    pub world_ref: Seq<char>,
}

pub struct GdmlDocumentV {
    pub filename: Seq<char>,
    pub defines: DefineSectionV,
    pub materials: MaterialSectionV,
    pub solids: SolidSectionV,
    pub structure: StructureSectionV,
    pub setup: SetupSectionV,
}

// ─────────────────────────────────────────────────────────────────────────────
// Executable types
// ─────────────────────────────────────────────────────────────────────────────

/// A named constant: `value` is an expression string.
#[derive(Debug, PartialEq)]
pub struct Constant {
    pub name: String,
    pub value: String,
}

/// A constant with an optional type hint and unit; `type="length"` quantities
/// are converted to millimetres when evaluated.
#[derive(Debug, PartialEq)]
pub struct Quantity {
    pub name: String,
    pub qtype: Option<String>,
    pub value: String,
    pub unit: Option<String>,
}

#[derive(Debug, PartialEq)]
pub struct Variable {
    pub name: String,
    pub value: String,
}

#[derive(Debug, PartialEq)]
pub struct Expression {
    pub name: String,
    pub value: String,
}

/// A named vector; missing components default to 0 at evaluation time.
#[derive(Debug, PartialEq)]
pub struct Position {
    pub name: String,
    pub x: Option<String>,
    pub y: Option<String>,
    pub z: Option<String>,
    pub unit: Option<String>,
}

#[derive(Debug, PartialEq)]
pub struct Rotation {
    pub name: String,
    pub x: Option<String>,
    pub y: Option<String>,
    pub z: Option<String>,
    pub unit: Option<String>,
}

/// The `<define>` section: six ordered lists, source order preserved.
#[derive(Debug, PartialEq)]
pub struct DefineSection {
    pub constants: Vec<Constant>,
    pub quantities: Vec<Quantity>,
    pub variables: Vec<Variable>,
    pub expressions: Vec<Expression>,
    pub positions: Vec<Position>,
    pub rotations: Vec<Rotation>,
}

#[derive(Debug, PartialEq)]
pub struct Element {
    pub name: String,
    pub formula: Option<String>,
    pub z: Option<String>,
    pub atom_value: Option<String>,
}

#[derive(Debug, PartialEq)]
pub struct PropertyValue {
    pub value: String,
    pub unit: Option<String>,
}

#[derive(Debug, PartialEq)]
pub struct Density {
    pub value: String,
    pub unit: Option<String>,
}

#[derive(Debug, PartialEq)]
pub enum MaterialComponent {
    Fraction { n: String, ref_name: String },
    Composite { n: String, ref_name: String },
}

#[derive(Debug, PartialEq)]
pub struct Material {
    pub name: String,
    pub formula: Option<String>,
    pub z: Option<String>,
    pub density: Option<Density>,
    pub density_ref: Option<String>,
    pub temperature: Option<PropertyValue>,
    pub pressure: Option<PropertyValue>,
    pub atom_value: Option<String>,
    pub components: Vec<MaterialComponent>,
}

#[derive(Debug, PartialEq)]
pub struct MaterialSection {
    pub elements: Vec<Element>,
    pub materials: Vec<Material>,
}

/// GDML box: x/y/z are full extents (expression strings).
#[derive(Debug, PartialEq)]
pub struct BoxSolid {
    pub name: String,
    pub x: String,
    pub y: String,
    pub z: String,
    pub lunit: Option<String>,
}

#[derive(Debug, PartialEq)]
pub struct TubeSolid {
    pub name: String,
    pub rmin: Option<String>,
    pub rmax: String,
    pub z: String,
    pub startphi: Option<String>,
    pub deltaphi: Option<String>,
    pub aunit: Option<String>,
    pub lunit: Option<String>,
}

#[derive(Debug, PartialEq)]
pub struct ConeSolid {
    pub name: String,
    pub rmin1: Option<String>,
    pub rmax1: String,
    pub rmin2: Option<String>,
    pub rmax2: String,
    pub z: String,
    pub startphi: Option<String>,
    pub deltaphi: Option<String>,
    pub aunit: Option<String>,
    pub lunit: Option<String>,
}

#[derive(Debug, PartialEq)]
pub struct SphereSolid {
    pub name: String,
    pub rmin: Option<String>,
    pub rmax: String,
    pub startphi: Option<String>,
    pub deltaphi: Option<String>,
    pub starttheta: Option<String>,
    pub deltatheta: Option<String>,
    pub aunit: Option<String>,
    pub lunit: Option<String>,
}

/// The closed set of supported primitives.
#[derive(Debug, PartialEq)]
pub enum Solid {
    Box(BoxSolid),
    Tube(TubeSolid),
    Cone(ConeSolid),
    Sphere(SphereSolid),
}

#[derive(Debug, PartialEq)]
pub struct SolidSection {
    pub solids: Vec<Solid>,
}

#[derive(Debug, PartialEq)]
pub struct Auxiliary {
    pub auxtype: String,
    pub auxvalue: String,
}

/// A reference to an external GDML file, resolved by the merger.
#[derive(Debug, PartialEq)]
pub struct FileRef {
    pub name: String,
    pub volname: Option<String>,
}

#[derive(Debug, PartialEq)]
pub enum PlacementPos {
    Inline(Position),
    Ref(String),
}

#[derive(Debug, PartialEq)]
pub enum PlacementRot {
    Inline(Rotation),
    Ref(String),
}

/// A placed child volume inside a `Volume`.
#[derive(Debug, PartialEq)]
pub struct PhysVol {
    pub name: Option<String>,
    pub volume_ref: String,
    pub position: Option<PlacementPos>,
    pub rotation: Option<PlacementRot>,
    pub file_ref: Option<FileRef>,
}

#[derive(Debug, PartialEq)]
pub struct Volume {
    pub name: String,
    pub material_ref: String,
    pub solid_ref: String,
    pub physvols: Vec<PhysVol>,
    pub auxiliaries: Vec<Auxiliary>,
}

#[derive(Debug, PartialEq)]
pub struct StructureSection {
    pub volumes: Vec<Volume>,
}

#[derive(Debug, PartialEq)]
pub struct SetupSection {
    pub name: String,
    pub version: String,
    pub world_ref: String,
}

/// A parsed GDML file.
#[derive(Debug, PartialEq)]
pub struct GdmlDocument {
    pub filename: String,
    pub defines: DefineSection,
    pub materials: MaterialSection,
    pub solids: SolidSection,
    pub structure: StructureSection,
    pub setup: SetupSection,
}

// ─────────────────────────────────────────────────────────────────────────────
// DeepView impls
// ─────────────────────────────────────────────────────────────────────────────

pub open spec fn opt_view(o: Option<String>) -> Option<Seq<char>> {
    match o {
        Some(s) => Some(s@),
        None => None,
    }
}

impl DeepView for Constant {
    type V = ConstantV;

    open spec fn deep_view(&self) -> ConstantV {
        ConstantV { name: self.name@, value: self.value@ }
    }
}

impl DeepView for Quantity {
    type V = QuantityV;

    open spec fn deep_view(&self) -> QuantityV {
        QuantityV {
            name: self.name@,
            qtype: opt_view(self.qtype),
            value: self.value@,
            unit: opt_view(self.unit),
        }
    }
}

impl DeepView for Variable {
    type V = VariableV;

    open spec fn deep_view(&self) -> VariableV {
        VariableV { name: self.name@, value: self.value@ }
    }
}

impl DeepView for Expression {
    type V = ExpressionV;

    open spec fn deep_view(&self) -> ExpressionV {
        ExpressionV { name: self.name@, value: self.value@ }
    }
}

impl DeepView for Position {
    type V = PositionV;

    open spec fn deep_view(&self) -> PositionV {
        PositionV {
            name: self.name@,
            x: opt_view(self.x),
            y: opt_view(self.y),
            z: opt_view(self.z),
            unit: opt_view(self.unit),
        }
    }
}

impl DeepView for Rotation {
    type V = RotationV;

    open spec fn deep_view(&self) -> RotationV {
        RotationV {
            name: self.name@,
            x: opt_view(self.x),
            y: opt_view(self.y),
            z: opt_view(self.z),
            unit: opt_view(self.unit),
        }
    }
}

impl DeepView for DefineSection {
    type V = DefineSectionV;

    open spec fn deep_view(&self) -> DefineSectionV {
        DefineSectionV {
            constants: self.constants.deep_view(),
            quantities: self.quantities.deep_view(),
            variables: self.variables.deep_view(),
            expressions: self.expressions.deep_view(),
            positions: self.positions.deep_view(),
            rotations: self.rotations.deep_view(),
        }
    }
}

impl DeepView for Element {
    type V = ElementV;

    open spec fn deep_view(&self) -> ElementV {
        ElementV {
            name: self.name@,
            formula: opt_view(self.formula),
            z: opt_view(self.z),
            atom_value: opt_view(self.atom_value),
        }
    }
}

impl DeepView for PropertyValue {
    type V = PropertyValueV;

    open spec fn deep_view(&self) -> PropertyValueV {
        PropertyValueV { value: self.value@, unit: opt_view(self.unit) }
    }
}

impl DeepView for Density {
    type V = DensityV;

    open spec fn deep_view(&self) -> DensityV {
        DensityV { value: self.value@, unit: opt_view(self.unit) }
    }
}

impl DeepView for MaterialComponent {
    type V = MaterialComponentV;

    open spec fn deep_view(&self) -> MaterialComponentV {
        match self {
            MaterialComponent::Fraction { n, ref_name } => MaterialComponentV::Fraction {
                n: n@,
                ref_name: ref_name@,
            },
            MaterialComponent::Composite { n, ref_name } => MaterialComponentV::Composite {
                n: n@,
                ref_name: ref_name@,
            },
        }
    }
}

impl DeepView for Material {
    type V = MaterialV;

    open spec fn deep_view(&self) -> MaterialV {
        MaterialV {
            name: self.name@,
            formula: opt_view(self.formula),
            z: opt_view(self.z),
            density: match self.density {
                Some(d) => Some(d.deep_view()),
                None => None,
            },
            density_ref: opt_view(self.density_ref),
            temperature: match self.temperature {
                Some(t) => Some(t.deep_view()),
                None => None,
            },
            pressure: match self.pressure {
                Some(p) => Some(p.deep_view()),
                None => None,
            },
            atom_value: opt_view(self.atom_value),
            components: self.components.deep_view(),
        }
    }
}

impl DeepView for MaterialSection {
    type V = MaterialSectionV;

    open spec fn deep_view(&self) -> MaterialSectionV {
        MaterialSectionV {
            elements: self.elements.deep_view(),
            materials: self.materials.deep_view(),
        }
    }
}

impl DeepView for BoxSolid {
    type V = BoxSolidV;

    open spec fn deep_view(&self) -> BoxSolidV {
        BoxSolidV {
            name: self.name@,
            x: self.x@,
            y: self.y@,
            z: self.z@,
            lunit: opt_view(self.lunit),
        }
    }
}

impl DeepView for TubeSolid {
    type V = TubeSolidV;

    open spec fn deep_view(&self) -> TubeSolidV {
        TubeSolidV {
            name: self.name@,
            rmin: opt_view(self.rmin),
            rmax: self.rmax@,
            z: self.z@,
            startphi: opt_view(self.startphi),
            deltaphi: opt_view(self.deltaphi),
            aunit: opt_view(self.aunit),
            lunit: opt_view(self.lunit),
        }
    }
}

impl DeepView for ConeSolid {
    type V = ConeSolidV;

    open spec fn deep_view(&self) -> ConeSolidV {
        ConeSolidV {
            name: self.name@,
            rmin1: opt_view(self.rmin1),
            rmax1: self.rmax1@,
            rmin2: opt_view(self.rmin2),
            rmax2: self.rmax2@,
            z: self.z@,
            startphi: opt_view(self.startphi),
            deltaphi: opt_view(self.deltaphi),
            aunit: opt_view(self.aunit),
            lunit: opt_view(self.lunit),
        }
    }
}

impl DeepView for SphereSolid {
    type V = SphereSolidV;

    open spec fn deep_view(&self) -> SphereSolidV {
        SphereSolidV {
            name: self.name@,
            rmin: opt_view(self.rmin),
            rmax: self.rmax@,
            startphi: opt_view(self.startphi),
            deltaphi: opt_view(self.deltaphi),
            starttheta: opt_view(self.starttheta),
            deltatheta: opt_view(self.deltatheta),
            aunit: opt_view(self.aunit),
            lunit: opt_view(self.lunit),
        }
    }
}

impl DeepView for Solid {
    type V = SolidV;

    open spec fn deep_view(&self) -> SolidV {
        match self {
            Solid::Box(s) => SolidV::Box(s.deep_view()),
            Solid::Tube(s) => SolidV::Tube(s.deep_view()),
            Solid::Cone(s) => SolidV::Cone(s.deep_view()),
            Solid::Sphere(s) => SolidV::Sphere(s.deep_view()),
        }
    }
}

impl DeepView for SolidSection {
    type V = SolidSectionV;

    open spec fn deep_view(&self) -> SolidSectionV {
        SolidSectionV { solids: self.solids.deep_view() }
    }
}

impl DeepView for Auxiliary {
    type V = AuxiliaryV;

    open spec fn deep_view(&self) -> AuxiliaryV {
        AuxiliaryV { auxtype: self.auxtype@, auxvalue: self.auxvalue@ }
    }
}

impl DeepView for FileRef {
    type V = FileRefV;

    open spec fn deep_view(&self) -> FileRefV {
        FileRefV { name: self.name@, volname: opt_view(self.volname) }
    }
}

impl DeepView for PlacementPos {
    type V = PlacementPosV;

    open spec fn deep_view(&self) -> PlacementPosV {
        match self {
            PlacementPos::Inline(p) => PlacementPosV::Inline(p.deep_view()),
            PlacementPos::Ref(r) => PlacementPosV::Ref(r@),
        }
    }
}

impl DeepView for PlacementRot {
    type V = PlacementRotV;

    open spec fn deep_view(&self) -> PlacementRotV {
        match self {
            PlacementRot::Inline(p) => PlacementRotV::Inline(p.deep_view()),
            PlacementRot::Ref(r) => PlacementRotV::Ref(r@),
        }
    }
}

impl DeepView for PhysVol {
    type V = PhysVolV;

    open spec fn deep_view(&self) -> PhysVolV {
        PhysVolV {
            name: opt_view(self.name),
            volume_ref: self.volume_ref@,
            position: match self.position {
                Some(p) => Some(p.deep_view()),
                None => None,
            },
            rotation: match self.rotation {
                Some(r) => Some(r.deep_view()),
                None => None,
            },
            file_ref: match self.file_ref {
                Some(f) => Some(f.deep_view()),
                None => None,
            },
        }
    }
}

impl DeepView for Volume {
    type V = VolumeV;

    open spec fn deep_view(&self) -> VolumeV {
        VolumeV {
            name: self.name@,
            material_ref: self.material_ref@,
            solid_ref: self.solid_ref@,
            physvols: self.physvols.deep_view(),
            auxiliaries: self.auxiliaries.deep_view(),
        }
    }
}

impl DeepView for StructureSection {
    type V = StructureSectionV;

    open spec fn deep_view(&self) -> StructureSectionV {
        StructureSectionV { volumes: self.volumes.deep_view() }
    }
}

impl DeepView for SetupSection {
    type V = SetupSectionV;

    open spec fn deep_view(&self) -> SetupSectionV {
        SetupSectionV {
            name: self.name@,
            version: self.version@,
            world_ref: self.world_ref@,
        }
    }
}

impl DeepView for GdmlDocument {
    type V = GdmlDocumentV;

    open spec fn deep_view(&self) -> GdmlDocumentV {
        GdmlDocumentV {
            filename: self.filename@,
            defines: self.defines.deep_view(),
            materials: self.materials.deep_view(),
            solids: self.solids.deep_view(),
            structure: self.structure.deep_view(),
            setup: self.setup.deep_view(),
        }
    }
}

/// Pushes onto a vector, stated over the deep view.
pub fn push_dv<T: DeepView>(v: &mut Vec<T>, x: T)
    ensures
        final(v).deep_view() == old(v).deep_view().push(x.deep_view()),
{
    let ghost xv = x.deep_view();
    v.push(x);
    proof {
        assert(v.deep_view() =~= old(v).deep_view().push(xv));
    }
}

// ─────────────────────────────────────────────────────────────────────────────
// Solid name dispatch
// ─────────────────────────────────────────────────────────────────────────────

pub open spec fn solid_name_v(s: SolidV) -> Seq<char> {
    match s {
        SolidV::Box(b) => b.name,
        SolidV::Tube(t) => t.name,
        SolidV::Cone(c) => c.name,
        SolidV::Sphere(sp) => sp.name,
    }
}

impl Solid {
    /// The name of the solid, whichever primitive it is.
    pub fn name(&self) -> (r: &str)
        ensures
            r@ == solid_name_v(self.deep_view()),
    {
        match self {
            Solid::Box(s) => s.name.as_str(),
            Solid::Tube(s) => s.name.as_str(),
            Solid::Cone(s) => s.name.as_str(),
            Solid::Sphere(s) => s.name.as_str(),
        }
    }
}

// ─────────────────────────────────────────────────────────────────────────────
// Empty constructors
// ─────────────────────────────────────────────────────────────────────────────

pub open spec fn empty_define_section_v() -> DefineSectionV {
    DefineSectionV {
        constants: Seq::empty(),
        quantities: Seq::empty(),
        variables: Seq::empty(),
        expressions: Seq::empty(),
        positions: Seq::empty(),
        rotations: Seq::empty(),
    }
}

pub open spec fn empty_material_section_v() -> MaterialSectionV {
    MaterialSectionV { elements: Seq::empty(), materials: Seq::empty() }
}

pub open spec fn empty_solid_section_v() -> SolidSectionV {
    SolidSectionV { solids: Seq::empty() }
}

pub open spec fn empty_structure_section_v() -> StructureSectionV {
    StructureSectionV { volumes: Seq::empty() }
}

impl Default for DefineSection {
    fn default() -> (r: Self)
        ensures
            r.deep_view() == empty_define_section_v(),
    {
        let r = DefineSection {
            constants: Vec::new(),
            quantities: Vec::new(),
            variables: Vec::new(),
            expressions: Vec::new(),
            positions: Vec::new(),
            rotations: Vec::new(),
        };
        proof {
            assert(r.deep_view().constants =~= Seq::<ConstantV>::empty());
            assert(r.deep_view().quantities =~= Seq::<QuantityV>::empty());
            assert(r.deep_view().variables =~= Seq::<VariableV>::empty());
            assert(r.deep_view().expressions =~= Seq::<ExpressionV>::empty());
            assert(r.deep_view().positions =~= Seq::<PositionV>::empty());
            assert(r.deep_view().rotations =~= Seq::<RotationV>::empty());
        }
        r
    }
}

impl Default for MaterialSection {
    fn default() -> (r: Self)
        ensures
            r.deep_view() == empty_material_section_v(),
    {
        let r = MaterialSection { elements: Vec::new(), materials: Vec::new() };
        proof {
            assert(r.deep_view().elements =~= Seq::<ElementV>::empty());
            assert(r.deep_view().materials =~= Seq::<MaterialV>::empty());
        }
        r
    }
}

impl Default for SolidSection {
    fn default() -> (r: Self)
        ensures
            r.deep_view() == empty_solid_section_v(),
    {
        let r = SolidSection { solids: Vec::new() };
        proof {
            assert(r.deep_view().solids =~= Seq::<SolidV>::empty());
        }
        r
    }
}

impl Default for StructureSection {
    fn default() -> (r: Self)
        ensures
            r.deep_view() == empty_structure_section_v(),
    {
        let r = StructureSection { volumes: Vec::new() };
        proof {
            assert(r.deep_view().volumes =~= Seq::<VolumeV>::empty());
        }
        r
    }
}

// ─────────────────────────────────────────────────────────────────────────────
// Clone impls (hand-written so verified code knows what a clone holds)
// ─────────────────────────────────────────────────────────────────────────────

/// Clones an optional string; the result is the same value.
pub fn clone_opt_string(o: &Option<String>) -> (r: Option<String>)
    ensures
        r == *o,
{
    match o {
        Some(s) => Some(s.clone()),
        None => None,
    }
}

impl Clone for Constant {
    fn clone(&self) -> (r: Self)
        ensures
            r == *self,
    {
        Constant { name: self.name.clone(), value: self.value.clone() }
    }
}

impl Clone for Quantity {
    fn clone(&self) -> (r: Self)
        ensures
            r == *self,
    {
        Quantity {
            name: self.name.clone(),
            qtype: clone_opt_string(&self.qtype),
            value: self.value.clone(),
            unit: clone_opt_string(&self.unit),
        }
    }
}

impl Clone for Variable {
    fn clone(&self) -> (r: Self)
        ensures
            r == *self,
    {
        Variable { name: self.name.clone(), value: self.value.clone() }
    }
}

impl Clone for Expression {
    fn clone(&self) -> (r: Self)
        ensures
            r == *self,
    {
        Expression { name: self.name.clone(), value: self.value.clone() }
    }
}

impl Clone for Position {
    fn clone(&self) -> (r: Self)
        ensures
            r == *self,
    {
        Position {
            name: self.name.clone(),
            x: clone_opt_string(&self.x),
            y: clone_opt_string(&self.y),
            z: clone_opt_string(&self.z),
            unit: clone_opt_string(&self.unit),
        }
    }
}

impl Clone for Rotation {
    fn clone(&self) -> (r: Self)
        ensures
            r == *self,
    {
        Rotation {
            name: self.name.clone(),
            x: clone_opt_string(&self.x),
            y: clone_opt_string(&self.y),
            z: clone_opt_string(&self.z),
            unit: clone_opt_string(&self.unit),
        }
    }
}

impl Clone for Element {
    fn clone(&self) -> (r: Self)
        ensures
            r == *self,
    {
        Element {
            name: self.name.clone(),
            formula: clone_opt_string(&self.formula),
            z: clone_opt_string(&self.z),
            atom_value: clone_opt_string(&self.atom_value),
        }
    }
}

impl Clone for PropertyValue {
    fn clone(&self) -> (r: Self)
        ensures
            r == *self,
    {
        PropertyValue { value: self.value.clone(), unit: clone_opt_string(&self.unit) }
    }
}

impl Clone for Density {
    fn clone(&self) -> (r: Self)
        ensures
            r == *self,
    {
        Density { value: self.value.clone(), unit: clone_opt_string(&self.unit) }
    }
}

impl Clone for MaterialComponent {
    fn clone(&self) -> (r: Self)
        ensures
            r == *self,
    {
        match self {
            MaterialComponent::Fraction { n, ref_name } => MaterialComponent::Fraction {
                n: n.clone(),
                ref_name: ref_name.clone(),
            },
            MaterialComponent::Composite { n, ref_name } => MaterialComponent::Composite {
                n: n.clone(),
                ref_name: ref_name.clone(),
            },
        }
    }
}

impl Clone for Material {
    fn clone(&self) -> (r: Self)
        ensures
            r.deep_view() == self.deep_view(),
    {
        let mut components: Vec<MaterialComponent> = Vec::new();
        let mut i: usize = 0;
        while i < self.components.len()
            invariant
                i <= self.components.len(),
                components@.len() == i as int,
                forall|k: int| 0 <= k < i as int ==> components@[k] == self.components@[k],
            decreases self.components.len() - i,
        {
            components.push(self.components[i].clone());
            i += 1;
        }
        let r = Material {
            name: self.name.clone(),
            formula: clone_opt_string(&self.formula),
            z: clone_opt_string(&self.z),
            density: match &self.density {
                Some(d) => Some(d.clone()),
                None => None,
            },
            density_ref: clone_opt_string(&self.density_ref),
            temperature: match &self.temperature {
                Some(t) => Some(t.clone()),
                None => None,
            },
            pressure: match &self.pressure {
                Some(p) => Some(p.clone()),
                None => None,
            },
            atom_value: clone_opt_string(&self.atom_value),
            components,
        };
        proof {
            assert(r.deep_view().components =~= self.deep_view().components);
        }
        r
    }
}

impl Clone for BoxSolid {
    fn clone(&self) -> (r: Self)
        ensures
            r == *self,
    {
        BoxSolid {
            name: self.name.clone(),
            x: self.x.clone(),
            y: self.y.clone(),
            z: self.z.clone(),
            lunit: clone_opt_string(&self.lunit),
        }
    }
}

impl Clone for TubeSolid {
    fn clone(&self) -> (r: Self)
        ensures
            r == *self,
    {
        TubeSolid {
            name: self.name.clone(),
            rmin: clone_opt_string(&self.rmin),
            rmax: self.rmax.clone(),
            z: self.z.clone(),
            startphi: clone_opt_string(&self.startphi),
            deltaphi: clone_opt_string(&self.deltaphi),
            aunit: clone_opt_string(&self.aunit),
            lunit: clone_opt_string(&self.lunit),
        }
    }
}

impl Clone for ConeSolid {
    fn clone(&self) -> (r: Self)
        ensures
            r == *self,
    {
        ConeSolid {
            name: self.name.clone(),
            rmin1: clone_opt_string(&self.rmin1),
            rmax1: self.rmax1.clone(),
            rmin2: clone_opt_string(&self.rmin2),
            rmax2: self.rmax2.clone(),
            z: self.z.clone(),
            startphi: clone_opt_string(&self.startphi),
            deltaphi: clone_opt_string(&self.deltaphi),
            aunit: clone_opt_string(&self.aunit),
            lunit: clone_opt_string(&self.lunit),
        }
    }
}

impl Clone for SphereSolid {
    fn clone(&self) -> (r: Self)
        ensures
            r == *self,
    {
        SphereSolid {
            name: self.name.clone(),
            rmin: clone_opt_string(&self.rmin),
            rmax: self.rmax.clone(),
            startphi: clone_opt_string(&self.startphi),
            deltaphi: clone_opt_string(&self.deltaphi),
            starttheta: clone_opt_string(&self.starttheta),
            deltatheta: clone_opt_string(&self.deltatheta),
            aunit: clone_opt_string(&self.aunit),
            lunit: clone_opt_string(&self.lunit),
        }
    }
}

impl Clone for Solid {
    fn clone(&self) -> (r: Self)
        ensures
            r == *self,
    {
        match self {
            Solid::Box(s) => Solid::Box(s.clone()),
            Solid::Tube(s) => Solid::Tube(s.clone()),
            Solid::Cone(s) => Solid::Cone(s.clone()),
            Solid::Sphere(s) => Solid::Sphere(s.clone()),
        }
    }
}

impl Clone for Auxiliary {
    fn clone(&self) -> (r: Self)
        ensures
            r == *self,
    {
        Auxiliary { auxtype: self.auxtype.clone(), auxvalue: self.auxvalue.clone() }
    }
}

impl Clone for FileRef {
    fn clone(&self) -> (r: Self)
        ensures
            r == *self,
    {
        FileRef { name: self.name.clone(), volname: clone_opt_string(&self.volname) }
    }
}

impl Clone for PlacementPos {
    fn clone(&self) -> (r: Self)
        ensures
            r == *self,
    {
        match self {
            PlacementPos::Inline(p) => PlacementPos::Inline(p.clone()),
            PlacementPos::Ref(s) => PlacementPos::Ref(s.clone()),
        }
    }
}

impl Clone for PlacementRot {
    fn clone(&self) -> (r: Self)
        ensures
            r == *self,
    {
        match self {
            PlacementRot::Inline(p) => PlacementRot::Inline(p.clone()),
            PlacementRot::Ref(s) => PlacementRot::Ref(s.clone()),
        }
    }
}

impl Clone for PhysVol {
    fn clone(&self) -> (r: Self)
        ensures
            r == *self,
    {
        PhysVol {
            name: clone_opt_string(&self.name),
            volume_ref: self.volume_ref.clone(),
            position: match &self.position {
                Some(p) => Some(p.clone()),
                None => None,
            },
            rotation: match &self.rotation {
                Some(p) => Some(p.clone()),
                None => None,
            },
            file_ref: match &self.file_ref {
                Some(f) => Some(f.clone()),
                None => None,
            },
        }
    }
}

impl Clone for Volume {
    fn clone(&self) -> (r: Self)
        ensures
            r.deep_view() == self.deep_view(),
    {
        let mut physvols: Vec<PhysVol> = Vec::new();
        let mut i: usize = 0;
        while i < self.physvols.len()
            invariant
                i <= self.physvols.len(),
                physvols@.len() == i as int,
                forall|k: int| 0 <= k < i as int ==> physvols@[k] == self.physvols@[k],
            decreases self.physvols.len() - i,
        {
            physvols.push(self.physvols[i].clone());
            i += 1;
        }
        let mut auxiliaries: Vec<Auxiliary> = Vec::new();
        let mut j: usize = 0;
        while j < self.auxiliaries.len()
            invariant
                j <= self.auxiliaries.len(),
                auxiliaries@.len() == j as int,
                forall|k: int| 0 <= k < j as int ==> auxiliaries@[k] == self.auxiliaries@[k],
            decreases self.auxiliaries.len() - j,
        {
            auxiliaries.push(self.auxiliaries[j].clone());
            j += 1;
        }
        let r = Volume {
            name: self.name.clone(),
            material_ref: self.material_ref.clone(),
            solid_ref: self.solid_ref.clone(),
            physvols,
            auxiliaries,
        };
        proof {
            assert(r.deep_view().physvols =~= self.deep_view().physvols);
            assert(r.deep_view().auxiliaries =~= self.deep_view().auxiliaries);
        }
        r
    }
}

impl Clone for DefineSection {
    fn clone(&self) -> (r: Self)
        ensures
            r.deep_view() == self.deep_view(),
    {
        let mut r = DefineSection {
            constants: Vec::new(),
            quantities: Vec::new(),
            variables: Vec::new(),
            expressions: Vec::new(),
            positions: Vec::new(),
            rotations: Vec::new(),
        };
        let mut i: usize = 0;
        while i < self.constants.len()
            invariant
                i <= self.constants.len(),
                r.constants@.len() == i as int,
                forall|k: int| 0 <= k < i as int ==> r.constants@[k] == self.constants@[k],
                r.quantities@.len() == 0,
                r.variables@.len() == 0,
                r.expressions@.len() == 0,
                r.positions@.len() == 0,
                r.rotations@.len() == 0,
            decreases self.constants.len() - i,
        {
            r.constants.push(self.constants[i].clone());
            i += 1;
        }
        let mut i: usize = 0;
        while i < self.quantities.len()
            invariant
                i <= self.quantities.len(),
                r.constants@ =~= self.constants@,
                r.quantities@.len() == i as int,
                forall|k: int| 0 <= k < i as int ==> r.quantities@[k] == self.quantities@[k],
                r.variables@.len() == 0,
                r.expressions@.len() == 0,
                r.positions@.len() == 0,
                r.rotations@.len() == 0,
            decreases self.quantities.len() - i,
        {
            r.quantities.push(self.quantities[i].clone());
            i += 1;
        }
        let mut i: usize = 0;
        while i < self.variables.len()
            invariant
                i <= self.variables.len(),
                r.constants@ =~= self.constants@,
                r.quantities@ =~= self.quantities@,
                r.variables@.len() == i as int,
                forall|k: int| 0 <= k < i as int ==> r.variables@[k] == self.variables@[k],
                r.expressions@.len() == 0,
                r.positions@.len() == 0,
                r.rotations@.len() == 0,
            decreases self.variables.len() - i,
        {
            r.variables.push(self.variables[i].clone());
            i += 1;
        }
        let mut i: usize = 0;
        while i < self.expressions.len()
            invariant
                i <= self.expressions.len(),
                r.constants@ =~= self.constants@,
                r.quantities@ =~= self.quantities@,
                r.variables@ =~= self.variables@,
                r.expressions@.len() == i as int,
                forall|k: int| 0 <= k < i as int ==> r.expressions@[k] == self.expressions@[k],
                r.positions@.len() == 0,
                r.rotations@.len() == 0,
            decreases self.expressions.len() - i,
        {
            r.expressions.push(self.expressions[i].clone());
            i += 1;
        }
        let mut i: usize = 0;
        while i < self.positions.len()
            invariant
                i <= self.positions.len(),
                r.constants@ =~= self.constants@,
                r.quantities@ =~= self.quantities@,
                r.variables@ =~= self.variables@,
                r.expressions@ =~= self.expressions@,
                r.positions@.len() == i as int,
                forall|k: int| 0 <= k < i as int ==> r.positions@[k] == self.positions@[k],
                r.rotations@.len() == 0,
            decreases self.positions.len() - i,
        {
            r.positions.push(self.positions[i].clone());
            i += 1;
        }
        let mut i: usize = 0;
        while i < self.rotations.len()
            invariant
                i <= self.rotations.len(),
                r.constants@ =~= self.constants@,
                r.quantities@ =~= self.quantities@,
                r.variables@ =~= self.variables@,
                r.expressions@ =~= self.expressions@,
                r.positions@ =~= self.positions@,
                r.rotations@.len() == i as int,
                forall|k: int| 0 <= k < i as int ==> r.rotations@[k] == self.rotations@[k],
            decreases self.rotations.len() - i,
        {
            r.rotations.push(self.rotations[i].clone());
            i += 1;
        }
        proof {
            assert(r.deep_view().constants =~= self.deep_view().constants);
            assert(r.deep_view().quantities =~= self.deep_view().quantities);
            assert(r.deep_view().variables =~= self.deep_view().variables);
            assert(r.deep_view().expressions =~= self.deep_view().expressions);
            assert(r.deep_view().positions =~= self.deep_view().positions);
            assert(r.deep_view().rotations =~= self.deep_view().rotations);
        }
        r
    }
}

impl Clone for MaterialSection {
    fn clone(&self) -> (r: Self)
        ensures
            r.deep_view() == self.deep_view(),
    {
        let mut elements: Vec<Element> = Vec::new();
        let mut i: usize = 0;
        while i < self.elements.len()
            invariant
                i <= self.elements.len(),
                elements@.len() == i as int,
                forall|k: int| 0 <= k < i as int ==> elements@[k] == self.elements@[k],
            decreases self.elements.len() - i,
        {
            elements.push(self.elements[i].clone());
            i += 1;
        }
        let mut materials: Vec<Material> = Vec::new();
        let mut j: usize = 0;
        while j < self.materials.len()
            invariant
                j <= self.materials.len(),
                materials@.len() == j as int,
                forall|k: int|
                    0 <= k < j as int ==> materials@[k].deep_view() == self.materials@[k].deep_view(),
            decreases self.materials.len() - j,
        {
            materials.push(self.materials[j].clone());
            j += 1;
        }
        let r = MaterialSection { elements, materials };
        proof {
            assert(r.deep_view().elements =~= self.deep_view().elements);
            assert(r.deep_view().materials =~= self.deep_view().materials);
        }
        r
    }
}

impl Clone for SolidSection {
    fn clone(&self) -> (r: Self)
        ensures
            r.deep_view() == self.deep_view(),
    {
        let mut solids: Vec<Solid> = Vec::new();
        let mut i: usize = 0;
        while i < self.solids.len()
            invariant
                i <= self.solids.len(),
                solids@.len() == i as int,
                forall|k: int| 0 <= k < i as int ==> solids@[k] == self.solids@[k],
            decreases self.solids.len() - i,
        {
            solids.push(self.solids[i].clone());
            i += 1;
        }
        let r = SolidSection { solids };
        proof {
            assert(r.deep_view().solids =~= self.deep_view().solids);
        }
        r
    }
}

impl Clone for StructureSection {
    fn clone(&self) -> (r: Self)
        ensures
            r.deep_view() == self.deep_view(),
    {
        let mut volumes: Vec<Volume> = Vec::new();
        let mut i: usize = 0;
        while i < self.volumes.len()
            invariant
                i <= self.volumes.len(),
                volumes@.len() == i as int,
                forall|k: int|
                    0 <= k < i as int ==> volumes@[k].deep_view() == self.volumes@[k].deep_view(),
            decreases self.volumes.len() - i,
        {
            volumes.push(self.volumes[i].clone());
            i += 1;
        }
        let r = StructureSection { volumes };
        proof {
            assert(r.deep_view().volumes =~= self.deep_view().volumes);
        }
        r
    }
}

impl Clone for GdmlDocument {
    fn clone(&self) -> (r: Self)
        ensures
            r.deep_view() == self.deep_view(),
    {
        GdmlDocument {
            filename: self.filename.clone(),
            defines: self.defines.clone(),
            materials: self.materials.clone(),
            solids: self.solids.clone(),
            structure: self.structure.clone(),
            setup: self.setup.clone(),
        }
    }
}

impl Clone for SetupSection {
    fn clone(&self) -> (r: Self)
        ensures
            r == *self,
    {
        SetupSection {
            name: self.name.clone(),
            version: self.version.clone(),
            world_ref: self.world_ref.clone(),
        }
    }
}

} // verus!
