use vstd::prelude::*;

verus! {

/// Relies on dirs::download_dir: asks the OS for the current user's downloads
/// directory. What comes back depends on the environment, so nothing is
/// promised of the result.
#[verifier::external_body]
fn download_dir_lookup() -> (r: Option<String>) {
    dirs::download_dir().map(|p| p.to_string_lossy().to_string())
}

/// The handler's result for what the OS lookup returned: the path on a hit,
/// and a fixed message exactly when the OS reported no downloads directory.
pub fn downloads_dir_result(found: Option<String>) -> (r: Result<String, String>)
    ensures
        found is Some ==> r is Ok && r->Ok_0 == found->Some_0,
        found is None ==> r is Err && r->Err_0@ == "Could not determine downloads directory"@,
{
    match found {
        Some(p) => Ok(p),
        None => Err("Could not determine downloads directory".to_owned()),
    }
}

/// Queries the OS for the current user's downloads directory; fails with a
/// fixed message exactly when the OS reports none.
pub fn get_downloads_dir() -> (r: Result<String, String>)
    ensures
        r is Err ==> r->Err_0@ == "Could not determine downloads directory"@,
{
    downloads_dir_result(download_dir_lookup())
}

} // verus!
