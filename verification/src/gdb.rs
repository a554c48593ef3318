//! Starting the debugger so that it attaches to the emulator's debug stub.

use vstd::prelude::*;
use vstd::string::*;
use crate::config::Gdb;
use crate::text::{decimal, push_decimal};

verus! {

/// The arguments that make the pretty printers in `dir` known to the
/// debugger: the directory as a source directory, and as one from which
/// scripts may be loaded on their own.
pub open spec fn pretty_printer_arguments(dir: Option<Seq<char>>) -> Seq<Seq<char>> {
    match dir {
        Some(dir) => seq!["-d"@, dir, "-iex"@, "add-auto-load-safe-path "@ + dir],
        None => Seq::empty(),
    }
}

/// The arguments that load the symbols of the file `symbols`.
pub open spec fn symbols_arguments(symbols: Option<Seq<char>>) -> Seq<Seq<char>> {
    match symbols {
        Some(file) => seq!["-ex"@, "file "@ + file],
        None => Seq::empty(),
    }
}

/// The arguments that attach the debugger to the stub at `port` of this
/// machine.
pub open spec fn connect_arguments(port: u16) -> Seq<Seq<char>> {
    seq!["-ex"@, "target remote localhost:"@ + decimal(port as nat)]
}

/// The arguments that run each of `commands`, as it is and in order.
pub open spec fn init_arguments(commands: Seq<Seq<char>>) -> Seq<Seq<char>>
    decreases commands.len(),
{
    if commands.len() == 0 {
        Seq::empty()
    } else {
        init_arguments(commands.drop_last()) + seq!["-ex"@, commands.last()]
    }
}

/// The arguments of the debugger. Their order is the order in which the
/// debugger carries them out: the pretty printers, the symbols, the
/// connection, the configured commands.
pub open spec fn gdb_arguments(
    pretty_printers_dir: Option<Seq<char>>,
    symbols: Option<Seq<char>>,
    port: u16,
    commands: Seq<Seq<char>>,
) -> Seq<Seq<char>> {
    pretty_printer_arguments(pretty_printers_dir) + symbols_arguments(symbols) + connect_arguments(
        port,
    ) + init_arguments(commands)
}

/// The module search path that the debugger's Python is given: the pretty
/// printers' directory, behind the search path in force and a colon where
/// there is one. It is left as it is where no pretty printers are
/// configured.
pub open spec fn python_path_for(
    pretty_printers_dir: Option<Seq<char>>,
    in_force: Option<Seq<char>>,
) -> Option<Seq<char>> {
    match pretty_printers_dir {
        Some(dir) => match in_force {
            Some(path) => Some(path + ":"@ + dir),
            None => Some(dir),
        },
        None => None,
    }
}

/// What the user is told of before the debugger starts: that it runs
/// without pretty printers, that it runs without symbols.
pub open spec fn notices_for(pretty_printers_dir: Option<Seq<char>>, symbols: Option<Seq<char>>) -> Seq<
    Seq<char>,
> {
    let printers: Seq<Seq<char>> = if pretty_printers_dir is None {
        seq!["NOTICE: Pretty printers path not configured, running without them"@]
    } else {
        Seq::empty()
    };
    let debug_symbols: Seq<Seq<char>> = if symbols is None {
        seq!["NOTICE: Symbols file not specified, loading w/o debug symbols"@]
    } else {
        Seq::empty()
    };
    printers + debug_symbols
}

/// What it takes to start the debugger.
#[derive(Debug, PartialEq, Eq)]
pub struct GdbLaunch {
    /// The arguments of the debugger, in order.
    pub arguments: Vec<String>,
    /// The value to give the `PYTHONPATH` variable in the debugger's
    /// environment, `None` to leave it as it is.
    pub python_path: Option<String>,
    /// What to tell the user before the debugger starts.
    pub notices: Vec<String>,
}

/// Appends one string to a list of strings.
fn push_text(list: &mut Vec<String>, text: String)
    ensures
        final(list).deep_view() == old(list).deep_view().push(text@),
{
    list.push(text);
    assert(list.deep_view() =~= old(list).deep_view().push(text@));
}

/// The string made of `head` and `tail`.
fn joined(head: &str, tail: &str) -> (text: String)
    ensures
        text@ == head@ + tail@,
{
    let mut text = String::from_str(head);
    text.append(tail);
    text
}

/// Prepares a run of the debugger that attaches to the debug stub at
/// `connect_port`. `symbols_file` is the file to load symbols from, and
/// `python_path` the value of `PYTHONPATH` in force.
pub fn run_gdb(
    gdb_config: &Gdb,
    connect_port: u16,
    symbols_file: Option<&str>,
    python_path: Option<&str>,
) -> (plan: GdbLaunch)
    ensures
        plan.arguments.deep_view() == gdb_arguments(
            gdb_config.rust_pretty_printers_dir.deep_view(),
            symbols_file.deep_view(),
            connect_port,
            gdb_config.gdbinit_commands.deep_view(),
        ),
        plan.python_path.deep_view() == python_path_for(
            gdb_config.rust_pretty_printers_dir.deep_view(),
            python_path.deep_view(),
        ),
        plan.notices.deep_view() == notices_for(
            gdb_config.rust_pretty_printers_dir.deep_view(),
            symbols_file.deep_view(),
        ),
{
    let mut arguments: Vec<String> = Vec::new();
    let mut notices: Vec<String> = Vec::new();
    let mut new_python_path: Option<String> = None;
    assert(arguments.deep_view() =~= Seq::empty());
    assert(notices.deep_view() =~= Seq::empty());
    match &gdb_config.rust_pretty_printers_dir {
        Some(dir) => {
            let path = match python_path {
                Some(in_force) => {
                    let mut path = joined(in_force, ":");
                    path.append(dir.as_str());
                    path
                },
                None => dir.clone(),
            };
            new_python_path = Some(path);
            push_text(&mut arguments, String::from_str("-d"));
            push_text(&mut arguments, dir.clone());
            push_text(&mut arguments, String::from_str("-iex"));
            push_text(&mut arguments, joined("add-auto-load-safe-path ", dir.as_str()));
            assert(arguments.deep_view() =~= pretty_printer_arguments(
                gdb_config.rust_pretty_printers_dir.deep_view(),
            ));
        },
        None => {
            push_text(
                &mut notices,
                String::from_str(
                    "NOTICE: Pretty printers path not configured, running without them",
                ),
            );
        },
    }
    let ghost printers = arguments.deep_view();
    let ghost printers_notices = notices.deep_view();
    match symbols_file {
        Some(file) => {
            push_text(&mut arguments, String::from_str("-ex"));
            push_text(&mut arguments, joined("file ", file));
        },
        None => {
            push_text(
                &mut notices,
                String::from_str("NOTICE: Symbols file not specified, loading w/o debug symbols"),
            );
        },
    }
    assert(arguments.deep_view() =~= printers + symbols_arguments(symbols_file.deep_view()));
    assert(notices.deep_view() =~= notices_for(
        gdb_config.rust_pretty_printers_dir.deep_view(),
        symbols_file.deep_view(),
    ));
    let mut target = String::from_str("target remote localhost:");
    push_decimal(&mut target, connect_port as u32);
    push_text(&mut arguments, String::from_str("-ex"));
    push_text(&mut arguments, target);
    let ghost fixed = arguments.deep_view();
    assert(fixed =~= printers + symbols_arguments(symbols_file.deep_view()) + connect_arguments(
        connect_port,
    ));
    let ghost commands = gdb_config.gdbinit_commands.deep_view();
    let mut i: usize = 0;
    assert(commands.take(0) =~= Seq::empty());
    assert(arguments.deep_view() =~= fixed + init_arguments(commands.take(0)));
    while i < gdb_config.gdbinit_commands.len()
        invariant
            i <= gdb_config.gdbinit_commands.len(),
            commands == gdb_config.gdbinit_commands.deep_view(),
            arguments.deep_view() == fixed + init_arguments(commands.take(i as int)),
        decreases gdb_config.gdbinit_commands.len() - i,
    {
        push_text(&mut arguments, String::from_str("-ex"));
        push_text(&mut arguments, gdb_config.gdbinit_commands[i].clone());
        proof {
            assert(commands.take(i + 1).drop_last() =~= commands.take(i as int));
            assert(commands.take(i + 1).last() == gdb_config.gdbinit_commands[i as int]@);
            assert(arguments.deep_view() =~= fixed + init_arguments(commands.take(i + 1)));
        }
        i += 1;
    }
    assert(commands.take(gdb_config.gdbinit_commands.len() as int) =~= commands);
    GdbLaunch { arguments, python_path: new_python_path, notices }
}

/// The names under which the debugger is looked up on the search path, in
/// order of preference.
pub fn executable_names() -> (names: Vec<String>)
    ensures
        names.deep_view() == seq!["gdb-multiarch"@, "gdb"@],
{
    let mut names: Vec<String> = Vec::new();
    names.push(String::from_str("gdb-multiarch"));
    names.push(String::from_str("gdb"));
    assert(names.deep_view() =~= seq!["gdb-multiarch"@, "gdb"@]);
    names
}

} // verus!
