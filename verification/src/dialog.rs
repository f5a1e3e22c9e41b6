use vstd::prelude::*;

verus! {

/// The title shown on the folder-selection dialog.
pub fn dialog_title() -> (r: String)
    ensures
        r@ == "选择导出目录"@,
{
    "选择导出目录".to_owned()
}

/// The directory the dialog opens in. The caller's initial directory is used
/// only when it names an existing directory on disk (`initial_is_dir`);
/// otherwise no seed is given and the dialog opens at the OS default.
pub fn dialog_seed_dir(initial_directory: Option<String>, initial_is_dir: bool) -> (r: Option<
    String,
>)
    ensures
        initial_directory is Some && initial_is_dir ==> r == initial_directory,
        !(initial_directory is Some && initial_is_dir) ==> r is None,
{
    if initial_is_dir {
        initial_directory
    } else {
        None
    }
}

/// The handler's response once the dialog has closed: the picked directory,
/// or an absent value when the user canceled — never a failure.
pub fn select_directory_response(picked: Option<String>) -> (r: Result<Option<String>, String>)
    ensures
        r == Ok::<Option<String>, String>(picked),
{
    Ok(picked)
}

} // verus!
