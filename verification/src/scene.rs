//! The scene graph: a depth-first walk from the world volume that places each
//! referenced volume under its parent. A path set guards against reference
//! cycles: a physvol that names a volume already on the current path is
//! skipped with a warning, so the walk always terminates. Placements stay
//! symbolic (the parsed position and rotation); consumers resolve them
//! against the value table.

use vstd::prelude::*;
use vstd::seq_lib::seq_to_set_is_finite;
use vstd::set_lib::lemma_len_subset;
use crate::dependency::contains_str;
use crate::merge::volume_names;
use crate::model::{
    AuxiliaryV, Density, DensityV, GdmlDocument, Material, MaterialV, PlacementPos, PlacementPosV,
    PhysVolV, PlacementRot, PlacementRotV, Volume, VolumeV, clone_opt_string, push_dv,
};
use crate::text::str_eq;

verus! {

// ─────────────────────────────────────────────────────────────────────────────
// Scene nodes
// ─────────────────────────────────────────────────────────────────────────────

pub struct SceneNodeV {
    pub name: Seq<char>,
    pub volume_name: Seq<char>,
    pub solid_name: Seq<char>,
    pub material_name: Seq<char>,
    pub color: Option<Seq<char>>,
    pub density: Option<DensityV>,
    pub position: Option<PlacementPosV>,
    pub rotation: Option<PlacementRotV>,
    pub is_world: bool,
    pub children: Seq<SceneNodeV>,
}

/// One placed volume. The placement is the physvol's own (not composed with
/// the ancestors'); `density` is the referenced material's density record,
/// still as source text.
#[derive(Debug, PartialEq)]
pub struct SceneNode {
    pub name: String,
    pub volume_name: String,
    pub solid_name: String,
    pub material_name: String,
    pub color: Option<String>,
    pub density: Option<Density>,
    pub position: Option<PlacementPos>,
    pub rotation: Option<PlacementRot>,
    pub is_world: bool,
    pub children: Vec<SceneNode>,
}

pub open spec fn scene_nodes_view(ns: Seq<SceneNode>) -> Seq<SceneNodeV>
    decreases ns, 0int
{
    if ns.len() == 0 {
        Seq::empty()
    } else {
        seq![scene_node_view(ns[0])] + scene_nodes_view(ns.drop_first())
    }
}

pub open spec fn scene_node_view(n: SceneNode) -> SceneNodeV
    decreases n.children@, 1int via scene_node_view_dec
{
    SceneNodeV {
        name: n.name@,
        volume_name: n.volume_name@,
        solid_name: n.solid_name@,
        material_name: n.material_name@,
        color: match n.color {
            Some(c) => Some(c@),
            None => None,
        },
        density: match n.density {
            Some(d) => Some(d.deep_view()),
            None => None,
        },
        position: match n.position {
            Some(p) => Some(p.deep_view()),
            None => None,
        },
        rotation: match n.rotation {
            Some(r) => Some(r.deep_view()),
            None => None,
        },
        is_world: n.is_world,
        children: scene_nodes_view(n.children@),
    }
}

#[via_fn]
proof fn scene_node_view_dec(n: SceneNode) {
}

proof fn lemma_scene_nodes_view(ns: Seq<SceneNode>)
    ensures
        scene_nodes_view(ns).len() == ns.len(),
        forall|i: int|
            0 <= i < ns.len() ==> #[trigger] scene_nodes_view(ns)[i] == scene_node_view(ns[i]),
    decreases ns.len(),
{
    if ns.len() > 0 {
        lemma_scene_nodes_view(ns.drop_first());
    }
}

impl DeepView for SceneNode {
    type V = SceneNodeV;

    open spec fn deep_view(&self) -> SceneNodeV {
        scene_node_view(*self)
    }
}

// ─────────────────────────────────────────────────────────────────────────────
// Lookups
// ─────────────────────────────────────────────────────────────────────────────

/// The volume a reference resolves to: the last volume with that name.
pub open spec fn volume_by_name(vs: Seq<VolumeV>, name: Seq<char>) -> Option<VolumeV>
    decreases vs.len(),
{
    if vs.len() == 0 {
        None
    } else if vs.last().name == name {
        Some(vs.last())
    } else {
        volume_by_name(vs.drop_last(), name)
    }
}

proof fn lemma_volume_by_name_props(vs: Seq<VolumeV>, name: Seq<char>)
    ensures
        match volume_by_name(vs, name) {
            Some(v) => v.name == name && volume_names(vs).contains(name),
            None => true,
        },
    decreases vs.len(),
{
    if vs.len() > 0 {
        if vs.last().name == name {
            assert(volume_names(vs)[vs.len() - 1] == name);
        } else {
            lemma_volume_by_name_props(vs.drop_last(), name);
            if volume_by_name(vs.drop_last(), name) is Some {
                let i = choose|i: int|
                    0 <= i < volume_names(vs.drop_last()).len() && volume_names(vs.drop_last())[i]
                        == name;
                assert(volume_names(vs)[i] == name);
            }
        }
    }
}

/// The value of the first auxiliary of type `color`.
pub open spec fn first_color(auxs: Seq<AuxiliaryV>) -> Option<Seq<char>>
    decreases auxs.len(),
{
    if auxs.len() == 0 {
        None
    } else if auxs[0].auxtype == "color"@ {
        Some(auxs[0].auxvalue)
    } else {
        first_color(auxs.drop_first())
    }
}

/// The density record of the referenced material: the last material with that
/// name that has one.
pub open spec fn material_density(ms: Seq<MaterialV>, name: Seq<char>) -> Option<DensityV>
    decreases ms.len(),
{
    if ms.len() == 0 {
        None
    } else if ms.last().name == name && ms.last().density is Some {
        ms.last().density
    } else {
        material_density(ms.drop_last(), name)
    }
}

fn find_volume<'a>(volumes: &'a Vec<Volume>, name: &str) -> (r: Option<&'a Volume>)
    ensures
        match r {
            Some(cv) => volume_by_name(volumes.deep_view(), name@) == Some(cv.deep_view()),
            None => volume_by_name(volumes.deep_view(), name@) is None,
        },
{
    let ghost vs = volumes.deep_view();
    let mut k = volumes.len();
    proof {
        assert(vs.take(k as int) =~= vs);
    }
    while k > 0
        invariant
            k <= volumes@.len(),
            vs == volumes.deep_view(),
            volume_by_name(vs, name@) == volume_by_name(vs.take(k as int), name@),
        decreases k,
    {
        let idx = k - 1;
        proof {
            assert(vs.take(k as int).last() == vs[idx as int]);
            assert(vs.take(k as int).drop_last() =~= vs.take(idx as int));
        }
        if str_eq(volumes[idx].name.as_str(), name) {
            return Some(&volumes[idx]);
        }
        k = idx;
    }
    None
}

fn find_color(auxs: &Vec<crate::model::Auxiliary>) -> (r: Option<String>)
    ensures
        crate::model::opt_view(r) == first_color(auxs.deep_view()),
{
    let ghost av = auxs.deep_view();
    let mut i: usize = 0;
    proof {
        assert(av.skip(0) =~= av);
    }
    while i < auxs.len()
        invariant
            i <= auxs@.len(),
            av == auxs.deep_view(),
            first_color(av, ) == first_color(av.skip(i as int)),
        decreases auxs@.len() - i,
    {
        proof {
            assert(av.skip(i as int)[0] == av[i as int]);
            assert(av.skip(i as int).drop_first() =~= av.skip(i as int + 1));
        }
        if str_eq(auxs[i].auxtype.as_str(), "color") {
            return Some(auxs[i].auxvalue.clone());
        }
        i += 1;
    }
    proof {
        assert(av.skip(av.len() as int) =~= Seq::<AuxiliaryV>::empty());
    }
    None
}

fn find_material_density(materials: &Vec<Material>, name: &str) -> (r: Option<Density>)
    ensures
        (match r {
            Some(d) => Some(d.deep_view()),
            None => None::<DensityV>,
        }) == material_density(materials.deep_view(), name@),
{
    let ghost ms = materials.deep_view();
    let mut k = materials.len();
    proof {
        assert(ms.take(k as int) =~= ms);
    }
    while k > 0
        invariant
            k <= materials@.len(),
            ms == materials.deep_view(),
            material_density(ms, name@) == material_density(ms.take(k as int), name@),
        decreases k,
    {
        let idx = k - 1;
        proof {
            assert(ms.take(k as int).last() == ms[idx as int]);
            assert(ms.take(k as int).drop_last() =~= ms.take(idx as int));
        }
        let m = &materials[idx];
        if str_eq(m.name.as_str(), name) {
            match &m.density {
                Some(d) => {
                    return Some(d.clone());
                },
                None => {},
            }
        }
        k = idx;
    }
    None
}

// ─────────────────────────────────────────────────────────────────────────────
// The walk
// ─────────────────────────────────────────────────────────────────────────────

/// The path set is sound: no repeated names, every name on it names a volume.
pub open spec fn scene_ok(volumes: Seq<VolumeV>, visited: Seq<Seq<char>>) -> bool {
    &&& visited.no_duplicates()
    &&& forall|x: Seq<char>| visited.contains(x) ==> volume_names(volumes).contains(x)
}

proof fn lemma_distinct_subset_len<A>(s: Seq<A>, t: Seq<A>)
    requires
        s.no_duplicates(),
        forall|x: A| s.contains(x) ==> t.contains(x),
    ensures
        s.len() <= t.len(),
{
    broadcast use seq_to_set_is_finite;

    s.unique_seq_to_set();
    t.lemma_cardinality_of_set();
    assert(s.to_set().subset_of(t.to_set()));
    lemma_len_subset(s.to_set(), t.to_set());
}

proof fn lemma_path_push(s: Seq<Seq<char>>, names: Seq<Seq<char>>, x: Seq<char>)
    requires
        s.no_duplicates(),
        !s.contains(x),
        forall|y: Seq<char>| s.contains(y) ==> names.contains(y),
        names.contains(x),
    ensures
        s.push(x).no_duplicates(),
        forall|y: Seq<char>| s.push(x).contains(y) ==> names.contains(y),
        s.push(x).len() <= names.len(),
{
    assert forall|y: Seq<char>| s.push(x).contains(y) implies names.contains(y) by {
        let i = choose|i: int| 0 <= i < s.push(x).len() && s.push(x)[i] == y;
        if i < s.len() {
            assert(s[i] == y);
            assert(s.contains(y));
        }
    };
    assert(s.push(x).no_duplicates()) by {
        assert forall|i: int, j: int|
            0 <= i < s.push(x).len() && 0 <= j < s.push(x).len() && i != j implies s.push(x)[i]
            != s.push(x)[j] by {
            if i < s.len() && j < s.len() {
                assert(s.push(x)[i] == s[i] && s.push(x)[j] == s[j]);
            } else if i < s.len() {
                if s.push(x)[i] == s.push(x)[j] {
                    assert(s[i] == x);
                    assert(s.contains(x));
                }
            } else if j < s.len() {
                if s.push(x)[i] == s.push(x)[j] {
                    assert(s[j] == x);
                    assert(s.contains(x));
                }
            }
        };
    }
    lemma_distinct_subset_len(s.push(x), names);
}

/// The node placed for `vol`: its fields from the volume and its placement,
/// and one child per resolvable physvol that does not close a cycle.
pub open spec fn scene_node_spec(
    volumes: Seq<VolumeV>,
    materials: Seq<MaterialV>,
    vol: VolumeV,
    position: Option<PlacementPosV>,
    rotation: Option<PlacementRotV>,
    is_world: bool,
    visited: Seq<Seq<char>>,
) -> SceneNodeV
    decreases volumes.len() - visited.len(), 0int
        when scene_ok(volumes, visited) && !visited.contains(vol.name) && volume_names(
            volumes,
        ).contains(vol.name)
        via scene_node_spec_dec
{
    SceneNodeV {
        name: vol.name,
        volume_name: vol.name,
        solid_name: vol.solid_ref,
        material_name: vol.material_ref,
        color: first_color(vol.auxiliaries),
        density: material_density(materials, vol.material_ref),
        position,
        rotation,
        is_world,
        children: scene_children_spec(volumes, materials, vol.physvols, 0, visited.push(vol.name)),
    }
}

/// The children contributed by the physvols from index `j` on.
pub open spec fn scene_children_spec(
    volumes: Seq<VolumeV>,
    materials: Seq<MaterialV>,
    pvs: Seq<PhysVolV>,
    j: int,
    visited: Seq<Seq<char>>,
) -> Seq<SceneNodeV>
    decreases volumes.len() - visited.len(), pvs.len() - j
        when scene_ok(volumes, visited) && 0 <= j <= pvs.len()
        via scene_children_spec_dec
{
    if j >= pvs.len() {
        Seq::empty()
    } else {
        let pv = pvs[j];
        let rest = scene_children_spec(volumes, materials, pvs, j + 1, visited);
        if visited.contains(pv.volume_ref) {
            rest
        } else {
            match volume_by_name(volumes, pv.volume_ref) {
                Some(cv) => seq![
                    scene_node_spec(volumes, materials, cv, pv.position, pv.rotation, false, visited),
                ] + rest,
                None => rest,
            }
        }
    }
}

#[via_fn]
proof fn scene_node_spec_dec(
    volumes: Seq<VolumeV>,
    materials: Seq<MaterialV>,
    vol: VolumeV,
    position: Option<PlacementPosV>,
    rotation: Option<PlacementRotV>,
    is_world: bool,
    visited: Seq<Seq<char>>,
) {
    lemma_path_push(visited, volume_names(volumes), vol.name);
}

#[via_fn]
proof fn scene_children_spec_dec(
    volumes: Seq<VolumeV>,
    materials: Seq<MaterialV>,
    pvs: Seq<PhysVolV>,
    j: int,
    visited: Seq<Seq<char>>,
) {
    if 0 <= j < pvs.len() {
        let pv = pvs[j];
        if !visited.contains(pv.volume_ref) {
            lemma_distinct_subset_len(visited, volume_names(volumes));
        }
    }
}

pub open spec fn cycle_warning(parent: Seq<char>, child: Seq<char>) -> Seq<char> {
    "Cycle detected in scene graph: volume '"@ + parent
        + "' references already-visited '"@ + child + "'"@
}

/// Builds the node for one volume. The `visited` path is left as it was
/// found; warnings may be appended (one per skipped back-edge).
pub fn build_volume_node(
    volumes: &Vec<Volume>,
    materials: &Vec<Material>,
    vol: &Volume,
    position: Option<PlacementPos>,
    rotation: Option<PlacementRot>,
    is_world: bool,
    visited: &mut Vec<String>,
    warnings: &mut Vec<String>,
) -> (node: SceneNode)
    requires
        scene_ok(volumes.deep_view(), old(visited).deep_view()),
        !old(visited).deep_view().contains(vol.deep_view().name),
        volume_names(volumes.deep_view()).contains(vol.deep_view().name),
    ensures
        node.deep_view() == scene_node_spec(
            volumes.deep_view(),
            materials.deep_view(),
            vol.deep_view(),
            position.deep_view(),
            rotation.deep_view(),
            is_world,
            old(visited).deep_view(),
        ),
        final(visited).deep_view() == old(visited).deep_view(),
        old(warnings).deep_view().is_prefix_of(final(warnings).deep_view()),
    decreases volumes@.len() - visited@.len(),
{
    let ghost vs = volumes.deep_view();
    let ghost ms = materials.deep_view();
    let ghost visited0 = visited.deep_view();
    visited.push(vol.name.clone());
    let ghost visited2 = visited.deep_view();
    proof {
        assert(visited2 =~= visited0.push(vol.deep_view().name));
        assert(visited2.drop_last() =~= visited0);
        lemma_path_push(visited0, volume_names(vs), vol.deep_view().name);
        assert(scene_ok(vs, visited2));
    }
    let color = find_color(&vol.auxiliaries);
    let density = find_material_density(materials, vol.material_ref.as_str());
    let mut children: Vec<SceneNode> = Vec::new();
    let ghost pvs = vol.physvols.deep_view();
    let mut j: usize = 0;
    proof {
        assert(children.deep_view() =~= Seq::<SceneNodeV>::empty());
    }
    while j < vol.physvols.len()
        invariant
            j <= vol.physvols@.len(),
            vs == volumes.deep_view(),
            ms == materials.deep_view(),
            pvs == vol.physvols.deep_view(),
            visited.deep_view() == visited2,
            scene_ok(vs, visited2),
            visited2.len() <= vs.len(),
            visited2.len() == old(visited)@.len() + 1,
            vs.len() == volumes@.len(),
            scene_children_spec(vs, ms, pvs, 0, visited2) == children.deep_view()
                + scene_children_spec(vs, ms, pvs, j as int, visited2),
            old(warnings).deep_view().is_prefix_of(warnings.deep_view()),
        decreases vol.physvols@.len() - j,
    {
        let pv = &vol.physvols[j];
        let ghost wpre = warnings.deep_view();
        if contains_str(visited, pv.volume_ref.as_str()) {
            let mut w = String::from_str("Cycle detected in scene graph: volume '");
            w.append(vol.name.as_str());
            w.append("' references already-visited '");
            w.append(pv.volume_ref.as_str());
            w.append("'");
            push_dv(warnings, w);
        } else {
            match find_volume(volumes, pv.volume_ref.as_str()) {
                Some(cv) => {
                    proof {
                        lemma_volume_by_name_props(vs, pvs[j as int].volume_ref);
                    }
                    let child_pos = match &pv.position {
                        Some(p) => Some(p.clone()),
                        None => None,
                    };
                    let child_rot = match &pv.rotation {
                        Some(r) => Some(r.clone()),
                        None => None,
                    };
                    let child = build_volume_node(
                        volumes,
                        materials,
                        cv,
                        child_pos,
                        child_rot,
                        false,
                        visited,
                        warnings,
                    );
                    push_dv(&mut children, child);
                },
                None => {},
            }
        }
        proof {
            assert(scene_children_spec(vs, ms, pvs, j as int, visited2) == ({
                let rest = scene_children_spec(vs, ms, pvs, j as int + 1, visited2);
                if visited2.contains(pvs[j as int].volume_ref) {
                    rest
                } else {
                    match volume_by_name(vs, pvs[j as int].volume_ref) {
                        Some(cv) => seq![
                            scene_node_spec(
                                vs,
                                ms,
                                cv,
                                pvs[j as int].position,
                                pvs[j as int].rotation,
                                false,
                                visited2,
                            ),
                        ] + rest,
                        None => rest,
                    }
                }
            }));
            assert(scene_children_spec(vs, ms, pvs, 0, visited2) =~= children.deep_view()
                + scene_children_spec(vs, ms, pvs, j as int + 1, visited2));
        }
        j += 1;
    }
    proof {
        assert(scene_children_spec(vs, ms, pvs, pvs.len() as int, visited2)
            =~= Seq::<SceneNodeV>::empty());
        assert(children.deep_view() =~= scene_children_spec(vs, ms, pvs, 0, visited2));
    }
    visited.pop();
    proof {
        assert(visited.deep_view() =~= visited0);
    }
    let node = SceneNode {
        name: vol.name.clone(),
        volume_name: vol.name.clone(),
        solid_name: vol.solid_ref.clone(),
        material_name: vol.material_ref.clone(),
        color,
        density,
        position,
        rotation,
        is_world,
        children,
    };
    proof {
        lemma_scene_nodes_view(node.children@);
        assert(node.deep_view().children =~= scene_children_spec(vs, ms, pvs, 0, visited2));
    }
    node
}

pub open spec fn fallback_world_node(world_ref: Seq<char>) -> SceneNodeV {
    SceneNodeV {
        name: "World"@,
        volume_name: world_ref,
        solid_name: Seq::empty(),
        material_name: Seq::empty(),
        color: None,
        density: None,
        position: None,
        rotation: None,
        is_world: true,
        children: Seq::empty(),
    }
}

/// Builds the scene tree from the document's world reference. A missing world
/// volume yields a single placeholder node carrying the reference.
pub fn build_scene_graph(doc: &GdmlDocument, warnings: &mut Vec<String>) -> (root: SceneNode)
    ensures
        ({
            let d = doc.deep_view();
            match volume_by_name(d.structure.volumes, d.setup.world_ref) {
                Some(wv) => root.deep_view() == scene_node_spec(
                    d.structure.volumes,
                    d.materials.materials,
                    wv,
                    None,
                    None,
                    true,
                    Seq::empty(),
                ),
                None => root.deep_view() == fallback_world_node(d.setup.world_ref),
            }
        }),
        old(warnings).deep_view().is_prefix_of(final(warnings).deep_view()),
{
    let ghost d = doc.deep_view();
    match find_volume(&doc.structure.volumes, doc.setup.world_ref.as_str()) {
        Some(wv) => {
            proof {
                lemma_volume_by_name_props(d.structure.volumes, d.setup.world_ref);
            }
            let mut visited: Vec<String> = Vec::new();
            proof {
                assert(visited.deep_view() =~= Seq::<Seq<char>>::empty());
            }
            let root = build_volume_node(
                &doc.structure.volumes,
                &doc.materials.materials,
                wv,
                None,
                None,
                true,
                &mut visited,
                warnings,
            );
            root
        },
        None => {
            let root = SceneNode {
                name: String::from_str("World"),
                volume_name: doc.setup.world_ref.clone(),
                solid_name: String::new(),
                material_name: String::new(),
                color: None,
                density: None,
                position: None,
                rotation: None,
                is_world: true,
                children: Vec::new(),
            };
            proof {
                assert(root.children@ =~= Seq::<SceneNode>::empty());
                assert(root.deep_view().children =~= Seq::<SceneNodeV>::empty());
            }
            root
        },
    }
}

} // verus!
