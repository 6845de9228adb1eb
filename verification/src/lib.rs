//! GDML Studio core: parsing, expression dependency analysis, unit tables,
//! multi-file merging, mesh topology and scene-graph construction for
//! GDML (Geometry Description Markup Language) detector geometries.

pub mod model;
pub mod text;
pub mod units;
pub mod xml;
pub mod parser;
pub mod dependency;
pub mod merge;
pub mod scene;
pub mod topology;
pub mod api;
