//! The settings of a run: where the emulator and the debugger are found,
//! how they are started, and how the target is built.

use vstd::prelude::*;
use vstd::string::*;

verus! {

/// The settings of the emulator.
#[derive(Debug, PartialEq, Eq)]
pub struct Yuzu {
    /// Where the emulator's executable is, if it is not to be found on the
    /// search path.
    pub yuzu_cmd_path: Option<String>,
    /// The port on which the emulator's debug stub listens.
    pub gdbstub_port: u16,
    /// The log filter handed to the emulator. It has to let the debug level
    /// of the emulated program's channel through for its text to appear.
    pub log_filter: String,
}

/// The settings of the debugger.
#[derive(Debug, PartialEq, Eq)]
pub struct Gdb {
    /// Where the debugger's executable is, if it is not to be found on the
    /// search path.
    pub gdb_location: Option<String>,
    /// Commands that the debugger runs at its start, in order.
    pub gdbinit_commands: Vec<String>,
    /// The directory of the pretty printers for the debugger.
    pub rust_pretty_printers_dir: Option<String>,
}

/// The settings of the build.
#[derive(Debug, PartialEq, Eq)]
pub struct Build {
    /// The toolchain that builds the target.
    pub toolchain: String,
    /// The target triple.
    pub target: String,
    /// The linker script, if one is used.
    pub linker_script: Option<String>,
}

/// All settings.
#[derive(Debug, PartialEq, Eq)]
pub struct Config {
    pub yuzu: Yuzu,
    pub gdb: Gdb,
    pub build: Build,
}

impl Yuzu {
    /// Whether the settings are the ones in force where nothing is
    /// configured: the emulator taken from the search path, port 6543, and
    /// the filter `*:Debug`.
    pub open spec fn is_default(&self) -> bool {
        &&& self.yuzu_cmd_path is None
        &&& self.gdbstub_port == 6543
        &&& self.log_filter@ == "*:Debug"@
    }
}

impl Gdb {
    /// Whether the settings are the ones in force where nothing is
    /// configured: the debugger taken from the search path, no start-up
    /// commands and no pretty printers.
    pub open spec fn is_default(&self) -> bool {
        &&& self.gdb_location is None
        &&& self.gdbinit_commands@.len() == 0
        &&& self.rust_pretty_printers_dir is None
    }
}

impl Build {
    /// Whether the settings are the ones in force where nothing is
    /// configured.
    pub open spec fn is_default(&self) -> bool {
        &&& self.toolchain@ == "horizon-stage1"@
        &&& self.target@ == "aarch64-nintendo-switch-homebrew"@
        &&& self.linker_script matches Some(script)
        &&& script@ == "aarch64_nintendo_switch_homebrew_linker_script.ld"@
    }
}

impl Config {
    /// Whether every part holds its default settings.
    pub open spec fn is_default(&self) -> bool {
        self.yuzu.is_default() && self.gdb.is_default() && self.build.is_default()
    }
}

impl Default for Yuzu {
    fn default() -> (settings: Yuzu)
        ensures
            settings.is_default(),
    {
        Yuzu {
            yuzu_cmd_path: None,
            gdbstub_port: 6543,
            log_filter: String::from_str("*:Debug"),
        }
    }
}

impl Default for Gdb {
    fn default() -> (settings: Gdb)
        ensures
            settings.is_default(),
    {
        Gdb { gdb_location: None, gdbinit_commands: Vec::new(), rust_pretty_printers_dir: None }
    }
}

impl Default for Build {
    fn default() -> (settings: Build)
        ensures
            settings.is_default(),
    {
        Build {
            toolchain: String::from_str("horizon-stage1"),
            target: String::from_str("aarch64-nintendo-switch-homebrew"),
            linker_script: Some(
                String::from_str("aarch64_nintendo_switch_homebrew_linker_script.ld"),
            ),
        }
    }
}

impl Default for Config {
    fn default() -> (settings: Config)
        ensures
            settings.is_default(),
    {
        Config { yuzu: Yuzu::default(), gdb: Gdb::default(), build: Build::default() }
    }
}

} // verus!
