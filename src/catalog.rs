use vstd::prelude::*;

verus! {

/// One listed item of the catalog.
#[derive(Debug)]
pub struct Patch {
    pub id: u64,
    /// Stem of the file the patch is saved under.
    pub slug: String,
}

/// One downloadable asset of a patch.
#[derive(Debug)]
pub struct PatchFile {
    pub id: u64,
    pub url: String,
    pub filesize: u64,
    /// Name of the asset, extension included.
    pub filename: String,
}

/// The full description of one patch.
#[derive(Debug)]
pub struct PatchMetaData {
    pub id: u64,
    pub url: String,
    pub slug: String,
    pub title: String,
    pub content: String,
    pub files: Vec<PatchFile>,
}

} // verus!
