//! Core of a runner that launches a target executable inside the yuzu
//! emulator, optionally attaches a debugger to it, and recovers the target's
//! own debug-console text from the emulator's diagnostic stream.
//!
//! Nothing here touches a file or a process. Each function takes plain
//! values and says what is to be done: the program around the library reads,
//! writes and starts what it is told to.

use vstd::prelude::*;

pub mod config;
pub mod coordinator;
pub mod demux;
pub mod frame;
pub mod frame_laws;
pub mod gdb;
pub mod locate;
pub mod outcome;
pub mod text;
pub mod yuzu_wrapper;

use crate::config::{Gdb, Yuzu};
use crate::gdb::{gdb_arguments, notices_for, python_path_for, run_gdb, GdbLaunch};
use crate::yuzu_wrapper::{config_text, emulator_arguments, launch, EmulatorLaunch};

verus! {

/// The name of the emulator's configuration file.
pub const CONFIG_FILE_NAME: &'static str = "yuzu.ini";

/// The name of the converted executable.
pub const CONVERTED_FILE_NAME: &'static str = "converted.nro";

/// Prepares a plain run: the emulator runs the converted executable at
/// `nro_path` with its debug stub off, and reads its configuration from
/// `config_path`.
pub fn run_yuzu(yuzu_config: &Yuzu, nro_path: &str, config_path: &str) -> (plan: EmulatorLaunch)
    ensures
        plan.config_text@ == config_text(yuzu_config.log_filter@, None),
        plan.arguments.deep_view() == emulator_arguments(config_path@, nro_path@),
{
    launch(nro_path, config_path, false, yuzu_config)
}

/// What it takes to run the emulator with a debugger attached.
#[derive(Debug, PartialEq, Eq)]
pub struct DebugSession {
    pub emulator: EmulatorLaunch,
    pub debugger: GdbLaunch,
}

/// Prepares a debugged run: the emulator runs the converted executable at
/// `nro_path` with its debug stub on at the configured port, and the
/// debugger attaches to that port with the symbols of the executable at
/// `elf_path`, the one that was converted. `python_path` is the value of `PYTHONPATH` in
/// force.
pub fn gdb_yuzu(
    yuzu_config: &Yuzu,
    gdb_config: &Gdb,
    elf_path: &str,
    nro_path: &str,
    config_path: &str,
    python_path: Option<&str>,
) -> (session: DebugSession)
    ensures
        session.emulator.config_text@ == config_text(
            yuzu_config.log_filter@,
            Some(yuzu_config.gdbstub_port as u32),
        ),
        session.emulator.arguments.deep_view() == emulator_arguments(config_path@, nro_path@),
        session.debugger.arguments.deep_view() == gdb_arguments(
            gdb_config.rust_pretty_printers_dir.deep_view(),
            Some(elf_path@),
            yuzu_config.gdbstub_port,
            gdb_config.gdbinit_commands.deep_view(),
        ),
        session.debugger.python_path.deep_view() == python_path_for(
            gdb_config.rust_pretty_printers_dir.deep_view(),
            python_path.deep_view(),
        ),
        session.debugger.notices.deep_view() == notices_for(
            gdb_config.rust_pretty_printers_dir.deep_view(),
            Some(elf_path@),
        ),
{
    let emulator = launch(nro_path, config_path, true, yuzu_config);
    let debugger = run_gdb(gdb_config, yuzu_config.gdbstub_port, Some(elf_path), python_path);
    DebugSession { emulator, debugger }
}

} // verus!
