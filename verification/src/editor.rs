use vstd::prelude::*;
use std::path::PathBuf;

verus! {

/// `std::path::PathBuf`, an owned file-system path.
#[verifier::external_type_specification]
#[verifier::external_body]
pub struct ExPathBuf(std::path::PathBuf);

/// What `shell_words::split` makes of a command line: its words after
/// POSIX-shell quote removal, or `None` when a quote is left open.
pub uninterp spec fn shell_split(s: Seq<char>) -> Option<Seq<Seq<char>>>;

/// `shell_words::split`, its error mapped to `None`. The words are those
/// that `shell_split` names for the input.
#[verifier::external_body]
fn split_command_line(s: &str) -> (r: Option<Vec<String>>)
    ensures
        r is Some == shell_split(s@) is Some,
        r matches Some(v) ==> v.deep_view() == shell_split(s@)->0,
{
    shell_words::split(s).ok()
}

/// `which::which`: the path of the executable `program` found through
/// `$PATH`, or `None`. The answer depends on the file system, so nothing is
/// stated of it.
#[verifier::external_body]
fn find_executable(program: &str) -> (r: Option<PathBuf>) {
    which::which(program).ok()
}

/// `PathBuf::from`: the path spelled by `s`. `PathBuf` is opaque here, so
/// nothing is stated of it.
#[verifier::external_body]
fn path_from(s: String) -> (r: PathBuf) {
    PathBuf::from(s)
}

/// How to tell the user to set the editor variable in their shell.
pub fn editor_env_hint(is_powershell: bool) -> (r: &'static str)
    ensures
        r@ == (if is_powershell {
            "$env:EDITOR"@
        } else {
            "$EDITOR"@
        }),
{
    if is_powershell {
        "$env:EDITOR"
    } else {
        "$EDITOR"
    }
}

/// Editor used when `$EDITOR` is not set: notepad on Windows, vi elsewhere.
pub fn fallback_editor(is_windows: bool) -> (r: (String, Vec<String>))
    ensures
        r.0@ == (if is_windows {
            "notepad"@
        } else {
            "vi"@
        }),
        r.1@.len() == 0,
{
    if is_windows {
        (String::from_str("notepad"), Vec::new())
    } else {
        (String::from_str("vi"), Vec::new())
    }
}

/// Program and arguments of an editor command line whose words are
/// `words`: the first word is the program; without words (an open quote,
/// or a blank line) the whole line is taken as the program.
pub open spec fn editor_command(full: Seq<char>, words: Option<Seq<Seq<char>>>) -> (
    Seq<char>,
    Seq<Seq<char>>,
) {
    match words {
        Some(w) => if w.len() > 0 {
            (w[0], w.drop_first())
        } else {
            (full, Seq::empty())
        },
        None => (full, Seq::empty()),
    }
}

/// Program and arguments from the words of the command line `full_command`.
pub fn editor_command_from_words(full_command: &str, words: Option<Vec<String>>) -> (r: (
    String,
    Vec<String>,
))
    ensures
        (r.0@, r.1.deep_view()) == editor_command(
            full_command@,
            match words {
                Some(w) => Some(w.deep_view()),
                None => None,
            },
        ),
{
    match words {
        Some(mut parts) => {
            if parts.len() > 0 {
                let ghost before = parts.deep_view();
                let program = parts.remove(0);
                assert(parts.deep_view() =~= before.drop_first());
                (program, parts)
            } else {
                (String::from_str(full_command), Vec::new())
            }
        },
        None => (String::from_str(full_command), Vec::new()),
    }
}

/// Splits an editor command line the way a POSIX shell would, into the
/// program and its arguments.
pub fn parse_editor(full_command: &str) -> (r: (String, Vec<String>))
    ensures
        (r.0@, r.1.deep_view()) == editor_command(full_command@, shell_split(full_command@)),
{
    let words = split_command_line(full_command);
    editor_command_from_words(full_command, words)
}

/// The editor command line to run: the one in `editor_env` (the value of
/// `$EDITOR`) split into program and arguments, or the platform's fallback.
pub fn editor_program(editor_env: Option<&str>, is_windows: bool) -> (r: (String, Vec<String>))
    ensures
        (r.0@, r.1.deep_view()) == (match editor_env {
            Some(v) => editor_command(v@, shell_split(v@)),
            None => (if is_windows { "notepad"@ } else { "vi"@ }, Seq::<Seq<char>>::empty()),
        }),
{
    let (program, args) = match editor_env {
        Some(value) => parse_editor(value),
        None => fallback_editor(is_windows),
    };
    proof {
        if editor_env is None {
            assert(args.deep_view() =~= Seq::<Seq<char>>::empty());
        }
    }
    (program, args)
}

/// The editor to run, with its arguments (see `editor_program`). The
/// program is looked up through `$PATH` and kept as given when it is not
/// found there; the path found depends on the file system, so it is not
/// stated.
pub fn resolve_editor_with(editor_env: Option<&str>, is_windows: bool) -> (r: (
    PathBuf,
    Vec<String>,
))
    ensures
        r.1.deep_view() == (match editor_env {
            Some(v) => editor_command(v@, shell_split(v@)).1,
            None => Seq::<Seq<char>>::empty(),
        }),
{
    let (program, args) = editor_program(editor_env, is_windows);
    let path = match find_executable(program.as_str()) {
        Some(p) => p,
        None => path_from(program),
    };
    (path, args)
}

} // verus!
