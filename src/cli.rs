use vstd::prelude::*;

verus! {

/// Command-line options of the installer.
#[derive(Debug, Clone)]
pub struct Cli {
    pub release_version: Option<String>,
    pub manifest: Option<String>,
    pub non_interactive: bool,
    pub uninstall: bool,
    pub status: bool,
    pub data_dir: Option<String>,
    pub skip_telemetry: bool,
    pub skip_extensions: bool,
    pub namespace: String,
    pub verbose: bool,
}

} // verus!
