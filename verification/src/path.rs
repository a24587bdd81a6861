//! Paths of knowledge sources. Components are parted by `/`.

use vstd::prelude::*;
use vstd::string::*;

verus! {

/// Name of the boot image inside the runtime's home directory.
pub const BOOT_FILE: &'static str = "boot.prc";

/// Whether `path` starts at the filesystem root.
pub open spec fn is_absolute(path: Seq<char>) -> bool {
    path.len() > 0 && path[0] == '/'
}

/// `relative` resolved against `base`: an absolute `relative` stands alone,
/// otherwise it follows `base`, parted from it by exactly one separator
/// unless `base` is empty or already ends in one.
pub open spec fn join_path(base: Seq<char>, relative: Seq<char>) -> Seq<char> {
    if is_absolute(relative) {
        relative
    } else if base.len() == 0 || base.last() == '/' {
        base + relative
    } else {
        base + seq!['/'] + relative
    }
}

/// Resolves `relative` against `base`.
pub fn join(base: &str, relative: &str) -> (path: String)
    ensures
        path@ == join_path(base@, relative@),
{
    if relative.unicode_len() > 0 && relative.get_char(0) == '/' {
        return String::from_str(relative);
    }
    let base_len: usize = base.unicode_len();
    let mut path = String::from_str(base);
    if base_len > 0 && base.get_char(base_len - 1) != '/' {
        proof {
            reveal_strlit("/");
            assert("/"@ =~= seq!['/']);
        }
        path.append("/");
    }
    path.append(relative);
    path
}

/// Location of the boot image under the runtime's home directory.
pub fn boot_file_path(swi_home: &str) -> (path: String)
    ensures
        path@ == join_path(swi_home@, BOOT_FILE@),
{
    join(swi_home, BOOT_FILE)
}

} // verus!
