//! Starting the emulator: the configuration file that it is given, the
//! arguments it is started with, and the names under which its executable
//! is looked up.

use vstd::prelude::*;
use vstd::string::*;
use crate::config::Yuzu;
use crate::text::{decimal, push_decimal};

verus! {

/// The section of the configuration file that sets the log filter.
pub open spec fn miscellaneous_section(log_filter: Seq<char>) -> Seq<char> {
    "\n[Miscellaneous]\nlog_filter="@ + log_filter + "\n"@
}

/// The section of the configuration file that turns the debug stub on, at
/// the port `port`.
pub open spec fn debugging_section(port: nat) -> Seq<char> {
    "            \n[Debugging]\ngdbstub_port="@ + decimal(port) + "\nuse_gdbstub=true\n"@
}

/// The configuration file for the emulator: the log filter, and the debug
/// stub's section where a port is given and only there.
pub open spec fn config_text(log_filter: Seq<char>, gdbstub_port: Option<u32>) -> Seq<char> {
    match gdbstub_port {
        Some(port) => miscellaneous_section(log_filter) + debugging_section(port as nat),
        None => miscellaneous_section(log_filter),
    }
}

/// The arguments with which the emulator is started: the configuration
/// file behind `-c`, then the program to run.
pub open spec fn emulator_arguments(config_path: Seq<char>, program_path: Seq<char>) -> Seq<
    Seq<char>,
> {
    seq!["-c"@, config_path, program_path]
}

/// Renders the configuration file for the emulator.
pub fn render_config(log_filter: &str, gdbstub_port: Option<u32>) -> (text: String)
    ensures
        text@ == config_text(log_filter@, gdbstub_port),
{
    let mut text = String::from_str("\n[Miscellaneous]\nlog_filter=");
    text.append(log_filter);
    text.append("\n");
    match gdbstub_port {
        Some(port) => {
            text.append("            \n[Debugging]\ngdbstub_port=");
            push_decimal(&mut text, port);
            text.append("\nuse_gdbstub=true\n");
            assert(text@ =~= miscellaneous_section(log_filter@) + debugging_section(port as nat));
        },
        None => {},
    }
    text
}

/// What it takes to start the emulator on a program.
#[derive(Debug, PartialEq, Eq)]
pub struct EmulatorLaunch {
    /// The contents of the configuration file.
    pub config_text: String,
    /// The arguments of the emulator, in order.
    pub arguments: Vec<String>,
}

/// Prepares a run of the emulator on the program at `program_path`, with
/// its configuration file at `config_path`. The debug stub is on where a
/// port is given, and only there.
pub fn prepare(
    program_path: &str,
    config_path: &str,
    log_filter: &str,
    gdbstub_port: Option<u32>,
) -> (plan: EmulatorLaunch)
    ensures
        plan.config_text@ == config_text(log_filter@, gdbstub_port),
        plan.arguments.deep_view() == emulator_arguments(config_path@, program_path@),
{
    let text = render_config(log_filter, gdbstub_port);
    let mut arguments: Vec<String> = Vec::new();
    arguments.push(String::from_str("-c"));
    arguments.push(String::from_str(config_path));
    arguments.push(String::from_str(program_path));
    assert(arguments.deep_view() =~= emulator_arguments(config_path@, program_path@));
    EmulatorLaunch { config_text: text, arguments }
}

/// The port that is written to the configuration file: that of the
/// settings where the debug stub is wanted, none where it is not.
pub open spec fn stub_port(enable_gdbstub: bool, config: &Yuzu) -> Option<u32> {
    if enable_gdbstub {
        Some(config.gdbstub_port as u32)
    } else {
        None
    }
}

/// Prepares a run of the emulator from its settings: with the configured
/// log filter, and with the debug stub at the configured port where
/// `enable_gdbstub` asks for it.
pub fn launch(program_path: &str, config_path: &str, enable_gdbstub: bool, config: &Yuzu) -> (plan:
    EmulatorLaunch)
    ensures
        plan.config_text@ == config_text(config.log_filter@, stub_port(enable_gdbstub, config)),
        plan.arguments.deep_view() == emulator_arguments(config_path@, program_path@),
{
    let port = if enable_gdbstub {
        Some(config.gdbstub_port as u32)
    } else {
        None
    };
    prepare(program_path, config_path, config.log_filter.as_str(), port)
}

/// The names under which the emulator is looked up on the search path, in
/// order of preference.
pub fn executable_names() -> (names: Vec<String>)
    ensures
        names.deep_view() == seq!["yuzu-cmd"@],
{
    let mut names: Vec<String> = Vec::new();
    names.push(String::from_str("yuzu-cmd"));
    assert(names.deep_view() =~= seq!["yuzu-cmd"@]);
    names
}

/// Rendering the configuration file twice from the same settings gives the
/// same text, and so the same bytes.
pub proof fn lemma_config_text_repeatable(
    log_filter: Seq<char>,
    gdbstub_port: Option<u32>,
    first: Seq<char>,
    second: Seq<char>,
)
    requires
        first == config_text(log_filter, gdbstub_port),
        second == config_text(log_filter, gdbstub_port),
    ensures
        first == second,
        vstd::utf8::encode_utf8(first) == vstd::utf8::encode_utf8(second),
{
}

} // verus!
