use vstd::prelude::*;
use vstd::string::*;

verus! {

/// The full path the save handler writes to: `<path>/<filename>`.
pub open spec fn joined_path(path: Seq<char>, filename: Seq<char>) -> Seq<char> {
    path + "/"@ + filename
}

/// Joins the target directory and the filename into the full path to write.
pub fn join_path(path: &str, filename: &str) -> (r: String)
    ensures
        r@ == joined_path(path@, filename@),
{
    let mut r = path.to_owned();
    r.append("/");
    r.append(filename);
    r
}

/// The failure message when the parent directories cannot be created;
/// `e` is the OS error text.
pub fn dir_create_error(e: &str) -> (r: String)
    ensures
        r@ == "Failed to create directory: "@ + e@,
{
    let mut r = "Failed to create directory: ".to_owned();
    r.append(e);
    r
}

/// The failure message when the write itself fails; `e` is the OS error text.
pub fn write_error(e: &str) -> (r: String)
    ensures
        r@ == "Failed to write file: "@ + e@,
{
    let mut r = "Failed to write file: ".to_owned();
    r.append(e);
    r
}

} // verus!
