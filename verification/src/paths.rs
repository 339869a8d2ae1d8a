//! Path construction for the per-user semaphore file.

use vstd::prelude::*;
use vstd::string::StringExecFns;

verus! {

/// Where the semaphore file marking a running instance lives: the vendor
/// directory below the user-data folder.  The user-data folder itself is
/// platform knowledge the shell looks up and hands in; `None` means the
/// platform has no such folder, in which case there is no semaphore path
/// either.
pub fn get_semaphore_file_path(os_folder_path: Option<&str>) -> (r: Option<String>)
    ensures
        r is Some <==> os_folder_path is Some,
        (match os_folder_path {
            Some(base) => r->0@ == base@ + "/CoD/Activision"@,
            None => true,
        }),
{
    match os_folder_path {
        Some(base) => {
            let mut path = base.to_owned();
            path.append("/CoD/Activision");
            Some(path)
        },
        None => None,
    }
}

/// The default content-directory path: empty, meaning the working directory
/// serves as the content root.
pub fn default_cd_path() -> (r: &'static str)
    ensures
        r@ == Seq::<char>::empty(),
{
    proof {
        reveal_strlit("");
    }
    ""
}

} // verus!
