use vstd::prelude::*;

verus! {

/// The extension of a file name as a path reads it: the part after the
/// final `.` of its last component, if any.
pub uninterp spec fn path_extension(name: Seq<char>) -> Option<Seq<char>>;

/// Relies on `std::path::Path::extension`: the text after the last `.` of the
/// file name, `None` where there is none (or the name starts with its only
/// `.`). A `&str` path is valid UTF-8, so the extension converts back.
#[verifier::external_body]
fn file_extension(name: &str) -> (r: Option<String>)
    ensures
        match r {
            Some(e) => path_extension(name@) == Some(e@),
            None => path_extension(name@) is None,
        },
{
    std::path::Path::new(name).extension().and_then(|e| e.to_str()).map(|e| e.to_owned())
}

/// Whether an extension found on a file is exactly (case included) the one
/// expected.
pub fn extension_is(found: &Option<String>, expected: &str) -> (r: bool)
    ensures
        r == (found matches Some(e) && e@ == expected@),
{
    match found {
        Some(e) => *e == expected.to_owned(),
        None => false,
    }
}

/// Whether the file name `filename` carries the extension `extension`; only
/// the last one counts (`a.tar.gz` has `gz`).
pub fn has_extension(filename: &str, extension: &str) -> (r: bool)
    ensures
        r == (path_extension(filename@) == Some(extension@)),
{
    let found = file_extension(filename);
    extension_is(&found, extension)
}

} // verus!
