use vstd::prelude::*;

verus! {

/// Relies on std::path::Path::exists: reports whether the settings file is
/// present on disk. The answer depends on the machine's disk state alone,
/// so no contract can pin it down.
#[verifier::external_body]
fn settings_file_exists() -> bool {
    std::path::Path::new("./data/settings.json").exists()
}

/// Whether a settings file has been written on this machine. The composing
/// shell creates one with `AppSettings::default` values when there is none;
/// reading and writing the file are the shell's business, the controller
/// only consumes the loaded values.
pub fn check_exists() -> bool {
    settings_file_exists()
}

} // verus!
