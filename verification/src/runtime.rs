//! The environment of the embedded runtime.

use crate::path::{boot_file_path, join_path, BOOT_FILE};
use vstd::prelude::*;
use vstd::string::*;

verus! {

/// Variable that names the runtime's home directory.
pub const HOME_VARIABLE: &'static str = "SWI_HOME_DIR";

/// Older name of the variable that names the runtime's home directory.
pub const BASE_VARIABLE: &'static str = "PLBASE";

/// Variable that names the directory of the runtime's shared libraries.
pub const LIBRARY_VARIABLE: &'static str = "SWI_LIB_DIR";

/// Older name of the variable that names the shared-library directory.
pub const LEGACY_LIBRARY_VARIABLE: &'static str = "PLLIBDIR";

/// Variable that names the directory of packaged native extensions.
pub const PACK_VARIABLE: &'static str = "SWI_PACK_SO_DIR";

/// Variable that names the boot image.
pub const BOOT_VARIABLE: &'static str = "SWIPL_BOOT_FILE";

/// Mathematical value of a [`RuntimeInfo`].
pub struct RuntimeInfoView {
    pub swi_home: Seq<char>,
    pub lib_dir: Seq<char>,
    pub pack_so_dir: Seq<char>,
}

/// Where the installed runtime lives, as discovery found it.
#[derive(Debug, PartialEq, Eq)]
pub struct RuntimeInfo {
    /// The runtime's home directory.
    pub swi_home: String,
    /// The directory of the runtime's shared libraries.
    pub lib_dir: String,
    /// The directory of packaged native extensions.
    pub pack_so_dir: String,
}

impl View for RuntimeInfo {
    type V = RuntimeInfoView;

    open spec fn view(&self) -> RuntimeInfoView {
        RuntimeInfoView {
            swi_home: self.swi_home@,
            lib_dir: self.lib_dir@,
            pack_so_dir: self.pack_so_dir@,
        }
    }
}

/// The environment that the runtime reads when it is activated: each
/// variable with its value, in the order in which they are to be set.
pub open spec fn runtime_environment(info: RuntimeInfoView) -> Seq<(Seq<char>, Seq<char>)> {
    seq![
        (HOME_VARIABLE@, info.swi_home),
        (BASE_VARIABLE@, info.swi_home),
        (LIBRARY_VARIABLE@, info.lib_dir),
        (LEGACY_LIBRARY_VARIABLE@, info.lib_dir),
        (PACK_VARIABLE@, info.pack_so_dir),
        (BOOT_VARIABLE@, join_path(info.swi_home, BOOT_FILE@)),
    ]
}

/// The views of a sequence of settings.
pub open spec fn settings_view(settings: Seq<(String, String)>) -> Seq<(Seq<char>, Seq<char>)> {
    settings.map_values(|setting: (String, String)| (setting.0@, setting.1@))
}

/// The variables that must be set before the runtime is activated, so that
/// it finds its home, its libraries and its boot image.
pub fn configure_runtime(info: &RuntimeInfo) -> (settings: Vec<(String, String)>)
    ensures
        settings_view(settings@) == runtime_environment(info@),
{
    let mut settings: Vec<(String, String)> = Vec::new();
    settings.push((String::from_str(HOME_VARIABLE), info.swi_home.clone()));
    settings.push((String::from_str(BASE_VARIABLE), info.swi_home.clone()));
    settings.push((String::from_str(LIBRARY_VARIABLE), info.lib_dir.clone()));
    settings.push((String::from_str(LEGACY_LIBRARY_VARIABLE), info.lib_dir.clone()));
    settings.push((String::from_str(PACK_VARIABLE), info.pack_so_dir.clone()));
    settings.push((String::from_str(BOOT_VARIABLE), boot_file_path(info.swi_home.as_str())));
    assert(settings_view(settings@) =~= runtime_environment(info@));
    settings
}

/// Whether the interactive loop ended well: it reports a positive status
/// when it does.
pub fn toplevel_succeeded(status: i32) -> (answer: bool)
    ensures
        answer == (status > 0),
{
    status > 0
}

} // verus!
