//! The request surface: upload payload shapes, the filename rule, and the
//! summary counts a loaded document reports.

use vstd::prelude::*;
use crate::model::GdmlDocument;
use crate::text::str_ends_with;

verus! {

/// A single-file upload: the file's name, its content, and an optional
/// segment count for tessellation.
#[derive(Debug, PartialEq)]
pub struct UploadFileRequest {
    pub filename: String,
    pub content: String,
    pub segments: Option<u32>,
}

/// A multi-file upload: every provided file as a (name, content) pair, the
/// name of the main file, and an optional segment count.
#[derive(Debug, PartialEq)]
pub struct UploadFilesRequest {
    pub files: Vec<(String, String)>,
    pub main_file: String,
    pub segments: Option<u32>,
}

/// Only `.gdml` files are accepted for upload.
pub fn is_gdml_filename(name: &str) -> (r: bool)
    ensures
        r == (name@.len() >= ".gdml"@.len() && name@.skip(name@.len() - ".gdml"@.len())
            == ".gdml"@),
{
    str_ends_with(name, ".gdml")
}

/// The counts reported for a loaded document.
#[derive(Debug, PartialEq)]
pub struct DocumentSummary {
    pub defines_count: usize,
    pub positions_count: usize,
    pub rotations_count: usize,
    pub materials_count: usize,
    pub elements_count: usize,
    pub solids_count: usize,
    pub volumes_count: usize,
    pub world_ref: String,
}

/// Counts the document's sections: `defines_count` is constants, quantities,
/// variables and expressions together.
pub fn document_summary(doc: &GdmlDocument) -> (s: DocumentSummary)
    requires
        doc.defines.constants@.len() + doc.defines.quantities@.len()
            + doc.defines.variables@.len() + doc.defines.expressions@.len() <= usize::MAX,
    ensures
        s.defines_count == doc.defines.constants@.len() + doc.defines.quantities@.len()
            + doc.defines.variables@.len() + doc.defines.expressions@.len(),
        s.positions_count == doc.defines.positions@.len(),
        s.rotations_count == doc.defines.rotations@.len(),
        s.materials_count == doc.materials.materials@.len(),
        s.elements_count == doc.materials.elements@.len(),
        s.solids_count == doc.solids.solids@.len(),
        s.volumes_count == doc.structure.volumes@.len(),
        s.world_ref@ == doc.setup.world_ref@,
{
    DocumentSummary {
        defines_count: doc.defines.constants.len() + doc.defines.quantities.len()
            + doc.defines.variables.len() + doc.defines.expressions.len(),
        positions_count: doc.defines.positions.len(),
        rotations_count: doc.defines.rotations.len(),
        materials_count: doc.materials.materials.len(),
        elements_count: doc.materials.elements.len(),
        solids_count: doc.solids.solids.len(),
        volumes_count: doc.structure.volumes.len(),
        world_ref: doc.setup.world_ref.clone(),
    }
}

} // verus!
