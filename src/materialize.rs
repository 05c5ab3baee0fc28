use vstd::prelude::*;
use crate::catalog::{PatchFile, PatchMetaData};
use crate::extension::{has_extension, path_extension};
use crate::sysex::{sysex_filter, sysex_frame};

verus! {

/// A device whose patches the catalog lists.
#[derive(Clone, Copy, Debug, PartialEq, Eq, Structural)]
pub enum Platform {
    /// Meris LVX
    MerisLvx,
    /// ZOIA
    Zoia,
}

/// What the reader needs to know of a platform.
#[derive(Debug)]
pub struct PlatformConfig {
    /// The catalog's number for the platform.
    pub id: usize,
    /// Extension of the platform's patch files, without the dot.
    pub extension: String,
    /// Patch files hold one system-exclusive frame, cut out of the download.
    pub sysex: bool,
}

impl Platform {
    /// The catalog number, file extension and container of the platform.
    pub fn config(&self) -> (r: PlatformConfig)
        ensures
            *self == Platform::MerisLvx ==> r.id == 8008 && r.extension@ == seq!['s', 'y', 'x']
                && r.sysex,
            *self == Platform::Zoia ==> r.id == 3003 && r.extension@ == seq!['b', 'i', 'n']
                && !r.sysex,
    {
        proof {
            reveal_strlit("syx");
            reveal_strlit("bin");
        }
        match self {
            Platform::MerisLvx => PlatformConfig { id: 8008, extension: "syx".to_owned(), sysex: true },
            Platform::Zoia => PlatformConfig { id: 3003, extension: "bin".to_owned(), sysex: false },
        }
    }
}

/// Why a patch could not be handled.
#[derive(Clone, Copy, Debug, PartialEq, Eq, Structural)]
pub enum EntryError {
    /// The description of the patch lists no file.
    NoFiles,
}

/// Name of the file a patch is saved under: its slug, a dot, the extension.
pub fn file_name(slug: &str, extension: &str) -> (r: String)
    ensures
        r@ == slug@ + seq!['.'] + extension@,
{
    let mut name = slug.to_owned();
    name.append(".");
    name.append(extension);
    proof {
        reveal_strlit(".");
    }
    name
}

/// Whether a patch is downloaded, given that its file exists already or not:
/// an existing file is kept unless overwriting was asked for.
pub fn should_fetch(file_exists: bool, overwrite: bool) -> (r: bool)
    ensures
        r == (!file_exists || overwrite),
{
    !file_exists || overwrite
}

/// Picks the asset of a patch: the first file listed. `Ok(None)` where its
/// extension is not the platform's, so the patch is passed over.
pub fn choose_file<'a>(config: &PlatformConfig, meta: &'a PatchMetaData) -> (r: Result<
    Option<&'a PatchFile>,
    EntryError,
>)
    ensures
        meta.files@.len() == 0 <==> r is Err,
        r is Err ==> r == Err::<Option<&PatchFile>, EntryError>(EntryError::NoFiles),
        meta.files@.len() > 0 ==> {
            let f = meta.files@[0];
            if path_extension(f.filename@) == Some(config.extension@) {
                r matches Ok(Some(g)) && *g == f
            } else {
                r matches Ok(None)
            }
        },
{
    if meta.files.len() == 0 {
        return Err(EntryError::NoFiles);
    }
    let f = &meta.files[0];
    if has_extension(f.filename.as_str(), config.extension.as_str()) {
        Ok(Some(f))
    } else {
        Ok(None)
    }
}

/// The bytes to write for a downloaded patch, and whether they were trimmed:
/// on a system-exclusive platform the frame is cut out of the download where
/// there is one to cut; otherwise the download is kept as it came.
pub fn output_bytes(config: &PlatformConfig, buf: Vec<u8>) -> (r: (Vec<u8>, bool))
    ensures
        r.1 == (config.sysex && sysex_frame(buf@) is Some),
        r.1 ==> Some(r.0@) == sysex_frame(buf@),
        !r.1 ==> r.0@ == buf@,
{
    if config.sysex {
        match sysex_filter(buf.as_slice()) {
            Some(frame) => {
                let out = vstd::slice::slice_to_vec(frame);
                return (out, true);
            },
            None => {},
        }
    }
    (buf, false)
}

} // verus!
