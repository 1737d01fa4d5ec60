//! The pure decisions behind launching the editor: which executable to run
//! and with which command line. Finding executables on the machine and
//! spawning the process stay with the binary built on this crate.

use vstd::prelude::*;
use vstd::string::StringExecFns;

verus! {

/// Picks the editor to launch: a user-supplied override wins; otherwise the
/// first of `mvim`, `gvim`, `vim` that is installed; `None` when none is.
pub fn choose_executable(custom: Option<String>, has_mvim: bool, has_gvim: bool, has_vim: bool) -> (r:
    Option<String>)
    ensures
        custom is Some ==> r == custom,
        custom is None && has_mvim ==> (r matches Some(e) && e@ == "mvim"@),
        custom is None && !has_mvim && has_gvim ==> (r matches Some(e) && e@ == "gvim"@),
        custom is None && !has_mvim && !has_gvim && has_vim ==> (r matches Some(e) && e@ == "vim"@),
        custom is None && !has_mvim && !has_gvim && !has_vim ==> r is None,
{
    match custom {
        Some(c) => Some(c),
        None => {
            if has_mvim {
                Some(String::from_str("mvim"))
            } else if has_gvim {
                Some(String::from_str("gvim"))
            } else if has_vim {
                Some(String::from_str("vim"))
            } else {
                None
            }
        },
    }
}

/// The editor's argument list: no swap file, no plugins, no viminfo, start
/// on the first line, no gvimrc, the given vimrc, the keylog written to the
/// given path, and the file to edit last. Every editor but nvim is also
/// told not to fork and to run restricted.
pub open spec fn vim_args_spec(
    executable: Seq<char>,
    vimrc: Seq<char>,
    log: Seq<char>,
    input: Seq<char>,
) -> Seq<Seq<char>> {
    let common = seq![
        "-n"@,
        "--noplugin"@,
        "-i"@,
        "NONE"@,
        "+0"@,
        "-U"@,
        "NONE"@,
        "-u"@,
        vimrc,
        "-W"@,
        log,
        input,
    ];
    if executable == "nvim"@ {
        common
    } else {
        seq!["--nofork"@, "-Z"@] + common
    }
}

/// Builds the argument list that `vim_args_spec` describes for one editor
/// run on one input file.
pub fn vim_args(executable: &String, vimrc_path: &String, log_path: &String, input_path: &String) -> (r:
    Vec<String>)
    ensures
        r.deep_view() == vim_args_spec(executable@, vimrc_path@, log_path@, input_path@),
{
    let mut args: Vec<String> = Vec::new();
    let nvim = String::from_str("nvim");
    if !executable.eq(&nvim) {
        args.push(String::from_str("--nofork"));
        args.push(String::from_str("-Z"));
    }
    args.push(String::from_str("-n"));
    args.push(String::from_str("--noplugin"));
    args.push(String::from_str("-i"));
    args.push(String::from_str("NONE"));
    args.push(String::from_str("+0"));
    args.push(String::from_str("-U"));
    args.push(String::from_str("NONE"));
    args.push(String::from_str("-u"));
    args.push(vimrc_path.clone());
    args.push(String::from_str("-W"));
    args.push(log_path.clone());
    args.push(input_path.clone());
    proof {
        assert(args.deep_view() =~= vim_args_spec(
            executable@,
            vimrc_path@,
            log_path@,
            input_path@,
        ));
    }
    args
}

} // verus!
