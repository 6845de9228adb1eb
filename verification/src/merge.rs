//! The multi-file merger: physvols that reference an external file are
//! resolved by folding the referenced document into the main one. Defines are
//! concatenated (the evaluator lets the later assignment win); elements,
//! materials, solids and volumes come over only under names the main document
//! does not already hold; the referencing physvol is rewritten to point at
//! the child's target volume.

use vstd::prelude::*;
use crate::dependency::contains_str;
use crate::model::{
    Constant, Element, ElementV, Expression, GdmlDocument, GdmlDocumentV, Material,
    MaterialV, PhysVol, PhysVolV, Position, Quantity, Rotation, Solid, SolidV, Variable, Volume,
    VolumeV, clone_opt_string, opt_view, push_dv, solid_name_v,
};
use crate::text::str_eq;

verus! {

// ─────────────────────────────────────────────────────────────────────────────
// Name tables
// ─────────────────────────────────────────────────────────────────────────────

pub open spec fn element_names(s: Seq<ElementV>) -> Seq<Seq<char>> {
    s.map_values(|e: ElementV| e.name)
}

pub open spec fn material_names(s: Seq<MaterialV>) -> Seq<Seq<char>> {
    s.map_values(|m: MaterialV| m.name)
}

pub open spec fn solid_names(s: Seq<SolidV>) -> Seq<Seq<char>> {
    s.map_values(|x: SolidV| solid_name_v(x))
}

pub open spec fn volume_names(s: Seq<VolumeV>) -> Seq<Seq<char>> {
    s.map_values(|v: VolumeV| v.name)
}

fn names_of_elements(v: &Vec<Element>) -> (r: Vec<String>)
    ensures
        r.deep_view() == element_names(v.deep_view()),
{
    let mut out: Vec<String> = Vec::new();
    let mut i: usize = 0;
    proof {
        assert(out.deep_view() =~= element_names(v.deep_view().take(0)));
    }
    while i < v.len()
        invariant
            i <= v@.len(),
            out.deep_view() == element_names(v.deep_view().take(i as int)),
        decreases v@.len() - i,
    {
        push_dv(&mut out, v[i].name.clone());
        proof {
            assert(out.deep_view() =~= element_names(v.deep_view().take(i as int + 1)));
        }
        i += 1;
    }
    proof {
        assert(v.deep_view().take(v@.len() as int) =~= v.deep_view());
    }
    out
}

fn names_of_materials(v: &Vec<Material>) -> (r: Vec<String>)
    ensures
        r.deep_view() == material_names(v.deep_view()),
{
    let mut out: Vec<String> = Vec::new();
    let mut i: usize = 0;
    proof {
        assert(out.deep_view() =~= material_names(v.deep_view().take(0)));
    }
    while i < v.len()
        invariant
            i <= v@.len(),
            out.deep_view() == material_names(v.deep_view().take(i as int)),
        decreases v@.len() - i,
    {
        push_dv(&mut out, v[i].name.clone());
        proof {
            assert(out.deep_view() =~= material_names(v.deep_view().take(i as int + 1)));
        }
        i += 1;
    }
    proof {
        assert(v.deep_view().take(v@.len() as int) =~= v.deep_view());
    }
    out
}

fn names_of_solids(v: &Vec<Solid>) -> (r: Vec<String>)
    ensures
        r.deep_view() == solid_names(v.deep_view()),
{
    let mut out: Vec<String> = Vec::new();
    let mut i: usize = 0;
    proof {
        assert(out.deep_view() =~= solid_names(v.deep_view().take(0)));
    }
    while i < v.len()
        invariant
            i <= v@.len(),
            out.deep_view() == solid_names(v.deep_view().take(i as int)),
        decreases v@.len() - i,
    {
        let name = String::from_str(v[i].name());
        push_dv(&mut out, name);
        proof {
            assert(out.deep_view() =~= solid_names(v.deep_view().take(i as int + 1)));
        }
        i += 1;
    }
    proof {
        assert(v.deep_view().take(v@.len() as int) =~= v.deep_view());
    }
    out
}

fn names_of_volumes(v: &Vec<Volume>) -> (r: Vec<String>)
    ensures
        r.deep_view() == volume_names(v.deep_view()),
{
    let mut out: Vec<String> = Vec::new();
    let mut i: usize = 0;
    proof {
        assert(out.deep_view() =~= volume_names(v.deep_view().take(0)));
    }
    while i < v.len()
        invariant
            i <= v@.len(),
            out.deep_view() == volume_names(v.deep_view().take(i as int)),
        decreases v@.len() - i,
    {
        push_dv(&mut out, v[i].name.clone());
        proof {
            assert(out.deep_view() =~= volume_names(v.deep_view().take(i as int + 1)));
        }
        i += 1;
    }
    proof {
        assert(v.deep_view().take(v@.len() as int) =~= v.deep_view());
    }
    out
}

// ─────────────────────────────────────────────────────────────────────────────
// What merging means
// ─────────────────────────────────────────────────────────────────────────────

/// The volume the child contributes under: the explicit `volname` override if
/// present, else the child's world reference.
pub open spec fn merge_target(c: GdmlDocumentV, volname: Option<Seq<char>>) -> Seq<char> {
    match volname {
        Some(v) => v,
        None => c.setup.world_ref,
    }
}

pub open spec fn merge_elements(main: Seq<ElementV>, child: Seq<ElementV>) -> Seq<ElementV> {
    main + child.filter(|e: ElementV| !element_names(main).contains(e.name))
}

pub open spec fn merge_materials(main: Seq<MaterialV>, child: Seq<MaterialV>) -> Seq<MaterialV> {
    main + child.filter(|m: MaterialV| !material_names(main).contains(m.name))
}

pub open spec fn merge_solids(main: Seq<SolidV>, child: Seq<SolidV>) -> Seq<SolidV> {
    main + child.filter(|s: SolidV| !solid_names(main).contains(solid_name_v(s)))
}

pub open spec fn merge_volumes(main: Seq<VolumeV>, child: Seq<VolumeV>) -> Seq<VolumeV> {
    main + child.filter(|v: VolumeV| !volume_names(main).contains(v.name))
}

/// A physvol whose file reference matches is redirected to the target volume
/// and its file reference is cleared.
pub open spec fn rewrite_pv(pv: PhysVolV, fref: Seq<char>, target: Seq<char>) -> PhysVolV {
    match pv.file_ref {
        Some(f) => if f.name == fref {
            PhysVolV { volume_ref: target, file_ref: None, ..pv }
        } else {
            pv
        },
        None => pv,
    }
}

pub open spec fn rewrite_volume(v: VolumeV, fref: Seq<char>, target: Seq<char>) -> VolumeV {
    VolumeV { physvols: v.physvols.map_values(|pv: PhysVolV| rewrite_pv(pv, fref, target)), ..v }
}

pub open spec fn rewrite_volumes(vs: Seq<VolumeV>, fref: Seq<char>, target: Seq<char>) -> Seq<
    VolumeV,
> {
    vs.map_values(|v: VolumeV| rewrite_volume(v, fref, target))
}

/// The merged document: defines concatenated; elements, materials, solids and
/// volumes deduplicated by name against the main document; every physvol that
/// referenced the file redirected to the target volume.
pub open spec fn merged_document(
    m: GdmlDocumentV,
    c: GdmlDocumentV,
    fref: Seq<char>,
    target: Seq<char>,
) -> GdmlDocumentV {
    GdmlDocumentV {
        filename: m.filename,
        defines: crate::model::DefineSectionV {
            constants: m.defines.constants + c.defines.constants,
            quantities: m.defines.quantities + c.defines.quantities,
            variables: m.defines.variables + c.defines.variables,
            expressions: m.defines.expressions + c.defines.expressions,
            positions: m.defines.positions + c.defines.positions,
            rotations: m.defines.rotations + c.defines.rotations,
        },
        materials: crate::model::MaterialSectionV {
            elements: merge_elements(m.materials.elements, c.materials.elements),
            materials: merge_materials(m.materials.materials, c.materials.materials),
        },
        solids: crate::model::SolidSectionV {
            solids: merge_solids(m.solids.solids, c.solids.solids),
        },
        structure: crate::model::StructureSectionV {
            volumes: rewrite_volumes(
                merge_volumes(m.structure.volumes, c.structure.volumes),
                fref,
                target,
            ),
        },
        setup: m.setup,
    }
}

pub open spec fn no_world_warning(fref: Seq<char>) -> Seq<char> {
    "Child file '"@ + fref + "' has no world reference and no volname specified"@
}

// ─────────────────────────────────────────────────────────────────────────────
// The merger
// ─────────────────────────────────────────────────────────────────────────────

/// Merges one referenced child document into the main document. When neither
/// a `volname` override nor a world reference names the child's target
/// volume, nothing is merged and a warning is recorded instead.
pub fn merge_child_into_main(
    main_doc: &mut GdmlDocument,
    child_doc: &GdmlDocument,
    file_ref_name: &str,
    volname: &Option<String>,
    warnings: &mut Vec<String>,
)
    ensures
        ({
            let m0 = old(main_doc).deep_view();
            let c = child_doc.deep_view();
            let target = merge_target(c, opt_view(*volname));
            if target.len() == 0 {
                final(main_doc).deep_view() == m0 && final(warnings).deep_view() == old(
                    warnings,
                ).deep_view().push(no_world_warning(file_ref_name@))
            } else {
                final(main_doc).deep_view() == merged_document(m0, c, file_ref_name@, target)
                    && final(warnings).deep_view() == old(warnings).deep_view()
            }
        }),
{
    let ghost m0 = main_doc.deep_view();
    let ghost c = child_doc.deep_view();
    let target: String = match volname {
        Some(v) => v.clone(),
        None => child_doc.setup.world_ref.clone(),
    };
    let ghost targetv = merge_target(c, opt_view(*volname));
    proof {
        assert(target@ == targetv);
    }
    if target.as_str().unicode_len() == 0 {
        let mut w = String::from_str("Child file '");
        w.append(file_ref_name);
        w.append("' has no world reference and no volname specified");
        proof {
            assert(w@ == no_world_warning(file_ref_name@));
        }
        push_dv(warnings, w);
        return;
    }
    // defines: concatenate; the evaluator lets later assignments win
    let mut cs: Vec<Constant> = Vec::new();
    core::mem::swap(&mut cs, &mut main_doc.defines.constants);
    let mut i: usize = 0;
    proof {
        assert(cs.deep_view() + c.defines.constants.take(0) =~= m0.defines.constants);
    }
    while i < child_doc.defines.constants.len()
        invariant
            i <= child_doc.defines.constants@.len(),
            c == child_doc.deep_view(),
            cs.deep_view() == m0.defines.constants + c.defines.constants.take(i as int),
        decreases child_doc.defines.constants@.len() - i,
    {
        push_dv(&mut cs, child_doc.defines.constants[i].clone());
        proof {
            assert(cs.deep_view() =~= m0.defines.constants + c.defines.constants.take(
                i as int + 1,
            ));
        }
        i += 1;
    }
    proof {
        assert(c.defines.constants.take(c.defines.constants.len() as int) =~= c.defines.constants);
    }
    main_doc.defines.constants = cs;
    let mut qs: Vec<Quantity> = Vec::new();
    core::mem::swap(&mut qs, &mut main_doc.defines.quantities);
    let mut i: usize = 0;
    proof {
        assert(qs.deep_view() + c.defines.quantities.take(0) =~= m0.defines.quantities);
    }
    while i < child_doc.defines.quantities.len()
        invariant
            i <= child_doc.defines.quantities@.len(),
            c == child_doc.deep_view(),
            qs.deep_view() == m0.defines.quantities + c.defines.quantities.take(i as int),
        decreases child_doc.defines.quantities@.len() - i,
    {
        push_dv(&mut qs, child_doc.defines.quantities[i].clone());
        proof {
            assert(qs.deep_view() =~= m0.defines.quantities + c.defines.quantities.take(
                i as int + 1,
            ));
        }
        i += 1;
    }
    proof {
        assert(c.defines.quantities.take(c.defines.quantities.len() as int)
            =~= c.defines.quantities);
    }
    main_doc.defines.quantities = qs;
    let mut vs: Vec<Variable> = Vec::new();
    core::mem::swap(&mut vs, &mut main_doc.defines.variables);
    let mut i: usize = 0;
    proof {
        assert(vs.deep_view() + c.defines.variables.take(0) =~= m0.defines.variables);
    }
    while i < child_doc.defines.variables.len()
        invariant
            i <= child_doc.defines.variables@.len(),
            c == child_doc.deep_view(),
            vs.deep_view() == m0.defines.variables + c.defines.variables.take(i as int),
        decreases child_doc.defines.variables@.len() - i,
    {
        push_dv(&mut vs, child_doc.defines.variables[i].clone());
        proof {
            assert(vs.deep_view() =~= m0.defines.variables + c.defines.variables.take(
                i as int + 1,
            ));
        }
        i += 1;
    }
    proof {
        assert(c.defines.variables.take(c.defines.variables.len() as int) =~= c.defines.variables);
    }
    main_doc.defines.variables = vs;
    let mut es: Vec<Expression> = Vec::new();
    core::mem::swap(&mut es, &mut main_doc.defines.expressions);
    let mut i: usize = 0;
    proof {
        assert(es.deep_view() + c.defines.expressions.take(0) =~= m0.defines.expressions);
    }
    while i < child_doc.defines.expressions.len()
        invariant
            i <= child_doc.defines.expressions@.len(),
            c == child_doc.deep_view(),
            es.deep_view() == m0.defines.expressions + c.defines.expressions.take(i as int),
        decreases child_doc.defines.expressions@.len() - i,
    {
        push_dv(&mut es, child_doc.defines.expressions[i].clone());
        proof {
            assert(es.deep_view() =~= m0.defines.expressions + c.defines.expressions.take(
                i as int + 1,
            ));
        }
        i += 1;
    }
    proof {
        assert(c.defines.expressions.take(c.defines.expressions.len() as int)
            =~= c.defines.expressions);
    }
    main_doc.defines.expressions = es;
    let mut ps: Vec<Position> = Vec::new();
    core::mem::swap(&mut ps, &mut main_doc.defines.positions);
    let mut i: usize = 0;
    proof {
        assert(ps.deep_view() + c.defines.positions.take(0) =~= m0.defines.positions);
    }
    while i < child_doc.defines.positions.len()
        invariant
            i <= child_doc.defines.positions@.len(),
            c == child_doc.deep_view(),
            ps.deep_view() == m0.defines.positions + c.defines.positions.take(i as int),
        decreases child_doc.defines.positions@.len() - i,
    {
        push_dv(&mut ps, child_doc.defines.positions[i].clone());
        proof {
            assert(ps.deep_view() =~= m0.defines.positions + c.defines.positions.take(
                i as int + 1,
            ));
        }
        i += 1;
    }
    proof {
        assert(c.defines.positions.take(c.defines.positions.len() as int) =~= c.defines.positions);
    }
    main_doc.defines.positions = ps;
    let mut rs: Vec<Rotation> = Vec::new();
    core::mem::swap(&mut rs, &mut main_doc.defines.rotations);
    let mut i: usize = 0;
    proof {
        assert(rs.deep_view() + c.defines.rotations.take(0) =~= m0.defines.rotations);
    }
    while i < child_doc.defines.rotations.len()
        invariant
            i <= child_doc.defines.rotations@.len(),
            c == child_doc.deep_view(),
            rs.deep_view() == m0.defines.rotations + c.defines.rotations.take(i as int),
        decreases child_doc.defines.rotations@.len() - i,
    {
        push_dv(&mut rs, child_doc.defines.rotations[i].clone());
        proof {
            assert(rs.deep_view() =~= m0.defines.rotations + c.defines.rotations.take(
                i as int + 1,
            ));
        }
        i += 1;
    }
    proof {
        assert(c.defines.rotations.take(c.defines.rotations.len() as int) =~= c.defines.rotations);
    }
    main_doc.defines.rotations = rs;
    // elements: bring over the names the main document does not hold
    let enames = names_of_elements(&main_doc.materials.elements);
    let ghost epred = |e: ElementV| !element_names(m0.materials.elements).contains(e.name);
    let mut elems: Vec<Element> = Vec::new();
    core::mem::swap(&mut elems, &mut main_doc.materials.elements);
    let mut i: usize = 0;
    proof {
        reveal(Seq::filter);
        assert(elems.deep_view() + c.materials.elements.take(0).filter(epred)
            =~= m0.materials.elements);
    }
    while i < child_doc.materials.elements.len()
        invariant
            i <= child_doc.materials.elements@.len(),
            c == child_doc.deep_view(),
            enames.deep_view() == element_names(m0.materials.elements),
            epred == (|e: ElementV| !element_names(m0.materials.elements).contains(e.name)),
            elems.deep_view() == m0.materials.elements + c.materials.elements.take(
                i as int,
            ).filter(epred),
        decreases child_doc.materials.elements@.len() - i,
    {
        let e = &child_doc.materials.elements[i];
        let dup = contains_str(&enames, e.name.as_str());
        if !dup {
            push_dv(&mut elems, e.clone());
        }
        proof {
            reveal(Seq::filter);
            let taken = c.materials.elements.take(i as int + 1);
            assert(taken.drop_last() =~= c.materials.elements.take(i as int));
            assert(taken.last() == c.materials.elements[i as int]);
            assert(epred(c.materials.elements[i as int]) == !dup);
            assert(elems.deep_view() =~= m0.materials.elements + taken.filter(epred));
        }
        i += 1;
    }
    proof {
        assert(c.materials.elements.take(c.materials.elements.len() as int)
            =~= c.materials.elements);
    }
    main_doc.materials.elements = elems;
    // materials
    let mnames = names_of_materials(&main_doc.materials.materials);
    let ghost mpred = |m: MaterialV| !material_names(m0.materials.materials).contains(m.name);
    let mut mats: Vec<Material> = Vec::new();
    core::mem::swap(&mut mats, &mut main_doc.materials.materials);
    let mut i: usize = 0;
    proof {
        reveal(Seq::filter);
        assert(mats.deep_view() + c.materials.materials.take(0).filter(mpred)
            =~= m0.materials.materials);
    }
    while i < child_doc.materials.materials.len()
        invariant
            i <= child_doc.materials.materials@.len(),
            c == child_doc.deep_view(),
            mnames.deep_view() == material_names(m0.materials.materials),
            mpred == (|m: MaterialV| !material_names(m0.materials.materials).contains(m.name)),
            mats.deep_view() == m0.materials.materials + c.materials.materials.take(
                i as int,
            ).filter(mpred),
        decreases child_doc.materials.materials@.len() - i,
    {
        let m = &child_doc.materials.materials[i];
        let dup = contains_str(&mnames, m.name.as_str());
        if !dup {
            push_dv(&mut mats, m.clone());
        }
        proof {
            reveal(Seq::filter);
            let taken = c.materials.materials.take(i as int + 1);
            assert(taken.drop_last() =~= c.materials.materials.take(i as int));
            assert(taken.last() == c.materials.materials[i as int]);
            assert(mpred(c.materials.materials[i as int]) == !dup);
            assert(mats.deep_view() =~= m0.materials.materials + taken.filter(mpred));
        }
        i += 1;
    }
    proof {
        assert(c.materials.materials.take(c.materials.materials.len() as int)
            =~= c.materials.materials);
    }
    main_doc.materials.materials = mats;
    // solids
    let snames = names_of_solids(&main_doc.solids.solids);
    let ghost spred = |s: SolidV| !solid_names(m0.solids.solids).contains(solid_name_v(s));
    let mut sols: Vec<Solid> = Vec::new();
    core::mem::swap(&mut sols, &mut main_doc.solids.solids);
    let mut i: usize = 0;
    proof {
        reveal(Seq::filter);
        assert(sols.deep_view() + c.solids.solids.take(0).filter(spred) =~= m0.solids.solids);
    }
    while i < child_doc.solids.solids.len()
        invariant
            i <= child_doc.solids.solids@.len(),
            c == child_doc.deep_view(),
            snames.deep_view() == solid_names(m0.solids.solids),
            spred == (|s: SolidV| !solid_names(m0.solids.solids).contains(solid_name_v(s))),
            sols.deep_view() == m0.solids.solids + c.solids.solids.take(i as int).filter(spred),
        decreases child_doc.solids.solids@.len() - i,
    {
        let s = &child_doc.solids.solids[i];
        let dup = contains_str(&snames, s.name());
        if !dup {
            push_dv(&mut sols, s.clone());
        }
        proof {
            reveal(Seq::filter);
            let taken = c.solids.solids.take(i as int + 1);
            assert(taken.drop_last() =~= c.solids.solids.take(i as int));
            assert(taken.last() == c.solids.solids[i as int]);
            assert(spred(c.solids.solids[i as int]) == !dup);
            assert(sols.deep_view() =~= m0.solids.solids + taken.filter(spred));
        }
        i += 1;
    }
    proof {
        assert(c.solids.solids.take(c.solids.solids.len() as int) =~= c.solids.solids);
    }
    main_doc.solids.solids = sols;
    // volumes
    let vnames = names_of_volumes(&main_doc.structure.volumes);
    let ghost vpred = |v: VolumeV| !volume_names(m0.structure.volumes).contains(v.name);
    let mut vols: Vec<Volume> = Vec::new();
    core::mem::swap(&mut vols, &mut main_doc.structure.volumes);
    let mut i: usize = 0;
    proof {
        reveal(Seq::filter);
        assert(vols.deep_view() + c.structure.volumes.take(0).filter(vpred)
            =~= m0.structure.volumes);
    }
    while i < child_doc.structure.volumes.len()
        invariant
            i <= child_doc.structure.volumes@.len(),
            c == child_doc.deep_view(),
            vnames.deep_view() == volume_names(m0.structure.volumes),
            vpred == (|v: VolumeV| !volume_names(m0.structure.volumes).contains(v.name)),
            vols.deep_view() == m0.structure.volumes + c.structure.volumes.take(i as int).filter(
                vpred,
            ),
        decreases child_doc.structure.volumes@.len() - i,
    {
        let v = &child_doc.structure.volumes[i];
        let dup = contains_str(&vnames, v.name.as_str());
        if !dup {
            push_dv(&mut vols, v.clone());
        }
        proof {
            reveal(Seq::filter);
            let taken = c.structure.volumes.take(i as int + 1);
            assert(taken.drop_last() =~= c.structure.volumes.take(i as int));
            assert(taken.last() == c.structure.volumes[i as int]);
            assert(vpred(c.structure.volumes[i as int]) == !dup);
            assert(vols.deep_view() =~= m0.structure.volumes + taken.filter(vpred));
        }
        i += 1;
    }
    proof {
        assert(c.structure.volumes.take(c.structure.volumes.len() as int)
            =~= c.structure.volumes);
    }
    // rewrite: physvols that referenced the file now point at the target
    let ghost merged = vols.deep_view();
    let mut out_vols: Vec<Volume> = Vec::new();
    let mut i: usize = 0;
    proof {
        assert(out_vols.deep_view() =~= rewrite_volumes(merged.take(0), file_ref_name@, targetv));
    }
    while i < vols.len()
        invariant
            i <= vols@.len(),
            merged == vols.deep_view(),
            target@ == targetv,
            out_vols.deep_view() == rewrite_volumes(merged.take(i as int), file_ref_name@, targetv),
        decreases vols@.len() - i,
    {
        let mut v2 = vols[i].clone();
        let mut new_pvs: Vec<PhysVol> = Vec::new();
        let ghost pvs0 = v2.physvols.deep_view();
        proof {
            assert(pvs0 == merged[i as int].physvols);
            assert(new_pvs.deep_view() =~= pvs0.take(0).map_values(
                |pv: PhysVolV| rewrite_pv(pv, file_ref_name@, targetv),
            ));
        }
        let mut j: usize = 0;
        while j < v2.physvols.len()
            invariant
                j <= v2.physvols@.len(),
                pvs0 == v2.physvols.deep_view(),
                target@ == targetv,
                new_pvs.deep_view() == pvs0.take(j as int).map_values(
                    |pv: PhysVolV| rewrite_pv(pv, file_ref_name@, targetv),
                ),
            decreases v2.physvols@.len() - j,
        {
            let pv = &v2.physvols[j];
            let is_match = match &pv.file_ref {
                Some(f) => str_eq(f.name.as_str(), file_ref_name),
                None => false,
            };
            let new_pv = if is_match {
                PhysVol {
                    name: clone_opt_string(&pv.name),
                    volume_ref: target.clone(),
                    position: match &pv.position {
                        Some(p) => Some(p.clone()),
                        None => None,
                    },
                    rotation: match &pv.rotation {
                        Some(r) => Some(r.clone()),
                        None => None,
                    },
                    file_ref: None,
                }
            } else {
                pv.clone()
            };
            proof {
                assert(new_pv.deep_view() == rewrite_pv(pvs0[j as int], file_ref_name@, targetv));
            }
            push_dv(&mut new_pvs, new_pv);
            proof {
                assert(new_pvs.deep_view() =~= pvs0.take(j as int + 1).map_values(
                    |pv: PhysVolV| rewrite_pv(pv, file_ref_name@, targetv),
                ));
            }
            j += 1;
        }
        proof {
            assert(pvs0.take(pvs0.len() as int) =~= pvs0);
        }
        v2.physvols = new_pvs;
        proof {
            assert(v2.deep_view() == rewrite_volume(merged[i as int], file_ref_name@, targetv));
        }
        push_dv(&mut out_vols, v2);
        proof {
            assert(out_vols.deep_view() =~= rewrite_volumes(
                merged.take(i as int + 1),
                file_ref_name@,
                targetv,
            ));
        }
        i += 1;
    }
    proof {
        assert(merged.take(merged.len() as int) =~= merged);
    }
    main_doc.structure.volumes = out_vols;
}

// ─────────────────────────────────────────────────────────────────────────────
// Collecting file references
// ─────────────────────────────────────────────────────────────────────────────

pub open spec fn pv_file_refs_from(pvs: Seq<PhysVolV>, j: int) -> Seq<(Seq<char>, Option<Seq<char>>)>
    decreases pvs.len() - j when 0 <= j <= pvs.len()
{
    if j >= pvs.len() {
        Seq::empty()
    } else {
        match pvs[j].file_ref {
            Some(f) => seq![(f.name, f.volname)] + pv_file_refs_from(pvs, j + 1),
            None => pv_file_refs_from(pvs, j + 1),
        }
    }
}

pub open spec fn file_refs_from(vs: Seq<VolumeV>, i: int) -> Seq<(Seq<char>, Option<Seq<char>>)>
    decreases vs.len() - i when 0 <= i <= vs.len()
{
    if i >= vs.len() {
        Seq::empty()
    } else {
        pv_file_refs_from(vs[i].physvols, 0) + file_refs_from(vs, i + 1)
    }
}

/// All external file references of a document, with their optional target
/// volume names, in document order.
pub fn collect_file_refs(doc: &GdmlDocument) -> (r: Vec<(String, Option<String>)>)
    ensures
        r.deep_view() == file_refs_from(doc.deep_view().structure.volumes, 0),
{
    let ghost vs = doc.deep_view().structure.volumes;
    let mut refs: Vec<(String, Option<String>)> = Vec::new();
    let mut i: usize = 0;
    proof {
        assert(refs.deep_view() + file_refs_from(vs, 0) =~= file_refs_from(vs, 0));
    }
    while i < doc.structure.volumes.len()
        invariant
            i <= doc.structure.volumes@.len(),
            vs == doc.deep_view().structure.volumes,
            file_refs_from(vs, 0) == refs.deep_view() + file_refs_from(vs, i as int),
        decreases doc.structure.volumes@.len() - i,
    {
        let vol = &doc.structure.volumes[i];
        let ghost pvs = vol.physvols.deep_view();
        proof {
            assert(pvs == vs[i as int].physvols);
        }
        let mut j: usize = 0;
        while j < vol.physvols.len()
            invariant
                j <= vol.physvols@.len(),
                vs == doc.deep_view().structure.volumes,
                i < doc.structure.volumes@.len(),
                pvs == vol.physvols.deep_view(),
                pvs == vs[i as int].physvols,
                file_refs_from(vs, 0) == refs.deep_view() + pv_file_refs_from(pvs, j as int)
                    + file_refs_from(vs, i as int + 1),
            decreases vol.physvols@.len() - j,
        {
            match &vol.physvols[j].file_ref {
                Some(f) => {
                    let entry = (f.name.clone(), clone_opt_string(&f.volname));
                    proof {
                        assert(entry.deep_view() == (pvs[j as int].file_ref->Some_0.name, pvs[
                            j as int
                        ].file_ref->Some_0.volname));
                    }
                    push_dv(&mut refs, entry);
                    proof {
                        assert(refs.deep_view() + pv_file_refs_from(pvs, j as int + 1)
                            =~= (refs.deep_view().drop_last() + (seq![
                            (pvs[j as int].file_ref->Some_0.name, pvs[j as int].file_ref->Some_0.volname),
                        ] + pv_file_refs_from(pvs, j as int + 1))));
                    }
                },
                None => {},
            }
            j += 1;
        }
        i += 1;
    }
    proof {
        assert(refs.deep_view() + file_refs_from(vs, vs.len() as int) =~= refs.deep_view());
    }
    refs
}

// ─────────────────────────────────────────────────────────────────────────────
// Resolving every file reference of a document
// ─────────────────────────────────────────────────────────────────────────────

/// The first provided document with the given filename.
pub open spec fn find_child(children: Seq<GdmlDocumentV>, name: Seq<char>) -> Option<GdmlDocumentV>
    decreases children.len(),
{
    if children.len() == 0 {
        None
    } else if children[0].filename == name {
        Some(children[0])
    } else {
        find_child(children.drop_first(), name)
    }
}

pub open spec fn missing_file_warning(name: Seq<char>) -> Seq<char> {
    "Referenced file '"@ + name + "' was not provided in the upload"@
}

/// Resolving one file reference: merge the named child if it was provided,
/// else record a warning and leave the document as it stands.
pub open spec fn resolve_step(
    m: GdmlDocumentV,
    ws: Seq<Seq<char>>,
    children: Seq<GdmlDocumentV>,
    fref: (Seq<char>, Option<Seq<char>>),
) -> (GdmlDocumentV, Seq<Seq<char>>) {
    match find_child(children, fref.0) {
        Some(c) => {
            let target = merge_target(c, fref.1);
            if target.len() == 0 {
                (m, ws.push(no_world_warning(fref.0)))
            } else {
                (merged_document(m, c, fref.0, target), ws)
            }
        },
        None => (m, ws.push(missing_file_warning(fref.0))),
    }
}

pub open spec fn resolve_fold(
    m: GdmlDocumentV,
    ws: Seq<Seq<char>>,
    children: Seq<GdmlDocumentV>,
    refs: Seq<(Seq<char>, Option<Seq<char>>)>,
) -> (GdmlDocumentV, Seq<Seq<char>>)
    decreases refs.len(),
{
    if refs.len() == 0 {
        (m, ws)
    } else {
        let s = resolve_step(m, ws, children, refs[0]);
        resolve_fold(s.0, s.1, children, refs.drop_first())
    }
}

proof fn lemma_resolve_fold_push(
    m: GdmlDocumentV,
    ws: Seq<Seq<char>>,
    children: Seq<GdmlDocumentV>,
    refs: Seq<(Seq<char>, Option<Seq<char>>)>,
    fref: (Seq<char>, Option<Seq<char>>),
)
    ensures
        resolve_fold(m, ws, children, refs.push(fref)) == ({
            let s = resolve_fold(m, ws, children, refs);
            let s2 = resolve_step(s.0, s.1, children, fref);
            s2
        }),
    decreases refs.len(),
{
    if refs.len() == 0 {
        assert(refs.push(fref)[0] == fref);
        assert(refs.push(fref).drop_first() =~= Seq::<(Seq<char>, Option<Seq<char>>)>::empty());
        let s1 = resolve_step(m, ws, children, fref);
        assert(resolve_fold(m, ws, children, refs.push(fref)) == resolve_fold(
            s1.0,
            s1.1,
            children,
            Seq::<(Seq<char>, Option<Seq<char>>)>::empty(),
        ));
        assert(resolve_fold(s1.0, s1.1, children, Seq::<(Seq<char>, Option<Seq<char>>)>::empty())
            == s1);
        assert(resolve_fold(m, ws, children, refs) == (m, ws));
    } else {
        assert(refs.push(fref)[0] == refs[0]);
        assert(refs.push(fref).drop_first() =~= refs.drop_first().push(fref));
        let s = resolve_step(m, ws, children, refs[0]);
        assert(resolve_fold(m, ws, children, refs.push(fref)) == resolve_fold(
            s.0,
            s.1,
            children,
            refs.drop_first().push(fref),
        ));
        assert(resolve_fold(m, ws, children, refs) == resolve_fold(
            s.0,
            s.1,
            children,
            refs.drop_first(),
        ));
        lemma_resolve_fold_push(s.0, s.1, children, refs.drop_first(), fref);
    }
}

fn find_child_doc<'a>(children: &'a Vec<GdmlDocument>, name: &str) -> (r: Option<&'a GdmlDocument>)
    ensures
        match r {
            Some(cd) => find_child(children.deep_view(), name@) == Some(cd.deep_view()),
            None => find_child(children.deep_view(), name@) is None,
        },
{
    let ghost cv = children.deep_view();
    let mut i: usize = 0;
    proof {
        assert(cv.skip(0) =~= cv);
    }
    while i < children.len()
        invariant
            i <= children@.len(),
            cv == children.deep_view(),
            find_child(cv, name@) == find_child(cv.skip(i as int), name@),
        decreases children@.len() - i,
    {
        proof {
            assert(cv.skip(i as int)[0] == cv[i as int]);
            assert(cv.skip(i as int).drop_first() =~= cv.skip(i as int + 1));
        }
        if str_eq(children[i].filename.as_str(), name) {
            return Some(&children[i]);
        }
        i += 1;
    }
    proof {
        assert(cv.skip(cv.len() as int) =~= Seq::<GdmlDocumentV>::empty());
    }
    None
}

/// Resolves every file reference of the main document against the provided
/// sibling documents, in document order: each referenced child is merged in,
/// each missing one leaves its reference intact and records a warning.
pub fn resolve_file_references(
    main_doc: &mut GdmlDocument,
    children: &Vec<GdmlDocument>,
    warnings: &mut Vec<String>,
)
    ensures
        ({
            let r = resolve_fold(
                old(main_doc).deep_view(),
                old(warnings).deep_view(),
                children.deep_view(),
                file_refs_from(old(main_doc).deep_view().structure.volumes, 0),
            );
            final(main_doc).deep_view() == r.0 && final(warnings).deep_view() == r.1
        }),
{
    let ghost m0 = main_doc.deep_view();
    let ghost w0 = warnings.deep_view();
    let ghost cv = children.deep_view();
    let refs = collect_file_refs(main_doc);
    let ghost refsv = refs.deep_view();
    let mut i: usize = 0;
    proof {
        assert(refsv.take(0) =~= Seq::<(Seq<char>, Option<Seq<char>>)>::empty());
    }
    while i < refs.len()
        invariant
            i <= refs@.len(),
            cv == children.deep_view(),
            refsv == refs.deep_view(),
            ({
                let r = resolve_fold(m0, w0, cv, refsv.take(i as int));
                main_doc.deep_view() == r.0 && warnings.deep_view() == r.1
            }),
        decreases refs@.len() - i,
    {
        let entry = &refs[i];
        proof {
            assert(entry.deep_view() == refsv[i as int]);
        }
        match find_child_doc(children, entry.0.as_str()) {
            Some(child) => {
                merge_child_into_main(main_doc, child, entry.0.as_str(), &entry.1, warnings);
            },
            None => {
                let mut w = String::from_str("Referenced file '");
                w.append(entry.0.as_str());
                w.append("' was not provided in the upload");
                proof {
                    assert(w@ == missing_file_warning(refsv[i as int].0));
                }
                push_dv(warnings, w);
            },
        }
        proof {
            assert(refsv.take(i as int).push(refsv[i as int]) =~= refsv.take(i as int + 1));
            lemma_resolve_fold_push(m0, w0, cv, refsv.take(i as int), refsv[i as int]);
        }
        i += 1;
    }
    proof {
        assert(refsv.take(refsv.len() as int) =~= refsv);
    }
}

} // verus!
