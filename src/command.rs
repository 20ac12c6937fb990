use vstd::prelude::*;
use vstd::string::*;

verus! {

/// The shim that looks the interpreter up on `PATH` and runs it.
pub const LOCATE_AND_RUN: &'static str = "/usr/bin/env";

/// A process to spawn: executable, ordered arguments and extra environment.
#[derive(Debug, Clone)]
pub struct Command {
    pub command: String,
    pub args: Vec<String>,
    pub env: Vec<(String, String)>,
}

/// `name` placed inside `dir`, with exactly one separator between them.
pub open spec fn joined(dir: Seq<char>, name: Seq<char>) -> Seq<char> {
    if dir.len() == 0 || dir.last() == '/' {
        dir + name
    } else {
        dir + seq!['/'] + name
    }
}

/// Joins a directory and a file name into one path.
pub fn joined_path(dir: &str, name: &str) -> (r: String)
    ensures
        r@ == joined(dir@, name@),
{
    let n: usize = dir.unicode_len();
    let d = String::from_str(dir);
    if n == 0 || dir.get_char(n - 1) == '/' {
        d.concat(name)
    } else {
        proof {
            reveal_strlit("/");
        }
        assert("/"@ =~= seq!['/']);
        d.concat("/").concat(name)
    }
}

/// The text of each string, in order.
pub open spec fn texts(v: Seq<String>) -> Seq<Seq<char>> {
    v.map_values(|s: String| s@)
}

/// The arguments that run `script` with `interpreter`, with `extra` between.
pub open spec fn launch_args(interpreter: Seq<char>, extra: Seq<Seq<char>>, script: Seq<char>) -> Seq<
    Seq<char>,
> {
    seq![interpreter] + extra + seq![script]
}

/// The command that runs the script at `script_path` with the interpreter
/// named `interpreter`, found on `PATH`, with `extra` before the script and
/// the environment inherited.
pub fn launch_command(interpreter: &str, extra: &Vec<String>, script_path: &str) -> (r: Command)
    ensures
        r.command@ == LOCATE_AND_RUN@,
        texts(r.args@) == launch_args(interpreter@, texts(extra@), script_path@),
        r.env@.len() == 0,
{
    let mut args: Vec<String> = Vec::new();
    args.push(String::from_str(interpreter));
    let mut i: usize = 0;
    while i < extra.len()
        invariant
            i <= extra@.len(),
            args@.len() == i + 1,
            args@[0]@ == interpreter@,
            forall|j: int| 0 <= j < i ==> #[trigger] args@[j + 1]@ == extra@[j]@,
        decreases extra@.len() - i,
    {
        args.push(extra[i].clone());
        i = i + 1;
    }
    args.push(String::from_str(script_path));
    let ghost want = launch_args(interpreter@, texts(extra@), script_path@);
    assert forall|j: int| 0 <= j < want.len() implies texts(args@)[j] == want[j] by {
        if 0 < j <= extra@.len() {
            assert(args@[(j - 1) + 1]@ == extra@[j - 1]@);
        }
    }
    assert(texts(args@) =~= want);
    Command { command: String::from_str(LOCATE_AND_RUN), args, env: Vec::new() }
}

} // verus!
