//! The environment that the sidecar is started in: the port it is told, and
//! the interpreter's module search path.

use vstd::prelude::*;
use vstd::slice::slice_subrange;
use crate::platform::Platform;
use crate::text::{
    blank, chars_of, decimal, is_blank, push_decimal, same_chars, str_text, string_of,
};

verus! {

/// Variable that tells the sidecar which port to listen on.
pub const BACKEND_PORT_VARIABLE: &'static str = "BIOFORGER_BACKEND_PORT";

/// Variable that holds the interpreter's module search path.
pub const SEARCH_PATH_VARIABLE: &'static str = "PYTHONPATH";

/// One variable of an environment, with the value it is set to.
#[derive(Debug, PartialEq, Eq)]
pub struct EnvVar {
    pub name: String,
    pub value: String,
}

impl EnvVar {
    /// Name and value as text.
    pub open spec fn binding(self) -> (Seq<char>, Seq<char>) {
        (self.name@, self.value@)
    }
}

/// Names and values of `vars` as text, in order.
pub open spec fn bindings(vars: Seq<EnvVar>) -> Seq<(Seq<char>, Seq<char>)> {
    Seq::new(vars.len(), |i: int| vars[i].binding())
}

/// The characters of `list` from `from` up to `to` are one entry of the list:
/// they reach from the start of the list or a separator to the next separator or
/// the end of the list.
pub open spec fn is_entry(list: Seq<char>, sep: char, from: int, to: int) -> bool {
    &&& 0 <= from <= to <= list.len()
    &&& from == 0 || list[from - 1] == sep
    &&& to == list.len() || list[to] == sep
    &&& forall|k: int| from <= k < to ==> list[k] != sep
}

/// `entry` is one of the entries of the separated list `list`.
pub open spec fn has_entry(list: Seq<char>, sep: char, entry: Seq<char>) -> bool {
    exists|from: int, to: int| #[trigger]
        is_entry(list, sep, from, to) && list.subrange(from, to) == entry
}

/// The directory `dir` is on the search path `path`. A blank directory never is.
pub open spec fn on_search_path(path: Seq<char>, sep: char, dir: Seq<char>) -> bool {
    !is_blank(dir) && has_entry(path, sep, dir)
}

/// The search path `path` with `dir` on it: `path` itself if `dir` is on it
/// already, else `dir` put in front of it.
pub open spec fn search_path_with(path: Seq<char>, sep: char, dir: Seq<char>) -> Seq<char> {
    if on_search_path(path, sep, dir) {
        path
    } else if is_blank(path) {
        dir
    } else {
        dir.push(sep) + path
    }
}

/// The variables to set in the application's own environment before the
/// sidecar is started from `dir` on `port`: the port, and the module search
/// path unless `dir` is on it already. `path` is the search path so far.
pub open spec fn process_environment(
    dir: Seq<char>,
    port: u16,
    path: Seq<char>,
    sep: char,
) -> Seq<(Seq<char>, Seq<char>)> {
    let port_var = (BACKEND_PORT_VARIABLE@, decimal(port as nat));
    if on_search_path(path, sep, dir) {
        seq![port_var]
    } else {
        seq![port_var, (SEARCH_PATH_VARIABLE@, search_path_with(path, sep, dir))]
    }
}

/// The value of a variable that may not be set: empty if it is not.
pub open spec fn value_or_empty(value: Option<Seq<char>>) -> Seq<char> {
    match value {
        Some(text) => text,
        None => Seq::empty(),
    }
}

/// Whether `entry` is one of the entries of the separated list `list`.
pub fn list_has_entry(list: &[char], sep: char, entry: &[char]) -> (found: bool)
    ensures
        found == has_entry(list@, sep, entry@),
{
    let mut from: usize = 0;
    loop
        invariant
            from <= list.len(),
            from == 0 || list@[from - 1] == sep,
            forall|f: int, t: int| #[trigger]
                is_entry(list@, sep, f, t) && f < from ==> list@.subrange(f, t) != entry@,
        decreases list.len() - from,
    {
        let mut to: usize = from;
        while to < list.len() && list[to] != sep
            invariant
                from <= to <= list.len(),
                forall|k: int| from <= k < to ==> list@[k] != sep,
            decreases list.len() - to,
        {
            to = to + 1;
        }
        assert(is_entry(list@, sep, from as int, to as int));
        if same_chars(slice_subrange(list, from, to), entry) {
            return true;
        }
        assert forall|f: int, t: int| #[trigger]
            is_entry(list@, sep, f, t) && f <= to implies list@.subrange(f, t) != entry@ by {
            if f == from {
                if t < to {
                    assert(list@[t] == sep);
                } else if t > to {
                    assert(list@[to as int] == sep);
                }
            } else if f > from {
                assert(list@[f - 1] == sep);
            }
        }
        if to == list.len() {
            return false;
        }
        from = to + 1;
    }
}

/// Prepares the application's own environment for a sidecar that is started
/// from `backend_dir` on `backend_port`. `search_path` is the value of
/// `PYTHONPATH` so far, `None` if the variable is not set. Returns the
/// variables to set: `BIOFORGER_BACKEND_PORT`, and `PYTHONPATH` with
/// `backend_dir` in front unless the directory is on the path already.
pub fn configure_python_env(
    backend_dir: &str,
    backend_port: u16,
    search_path: Option<&str>,
    platform: Platform,
) -> (vars: Vec<EnvVar>)
    ensures
        bindings(vars@) == process_environment(
            backend_dir@,
            backend_port,
            value_or_empty(str_text(search_path)),
            platform.list_separator_spec(),
        ),
{
    let sep = platform.list_separator();
    let dir = chars_of(backend_dir);
    let path = match search_path {
        Some(text) => chars_of(text),
        None => Vec::new(),
    };
    let mut port_text: Vec<char> = Vec::new();
    push_decimal(&mut port_text, backend_port as u32);
    assert(port_text@ == decimal(backend_port as nat));
    let mut vars: Vec<EnvVar> = Vec::new();
    vars.push(
        EnvVar {
            name: BACKEND_PORT_VARIABLE.to_owned(),
            value: string_of(port_text.as_slice()),
        },
    );
    let present = !blank(dir.as_slice()) && list_has_entry(path.as_slice(), sep, dir.as_slice());
    if !present {
        let merged = if blank(path.as_slice()) {
            string_of(dir.as_slice())
        } else {
            let mut all = chars_of(backend_dir);
            all.push(sep);
            let mut rest = path;
            all.append(&mut rest);
            string_of(all.as_slice())
        };
        vars.push(
EnvVar { name: SEARCH_PATH_VARIABLE.to_owned(), value: merged },
        );
    }
    assert(bindings(vars@) =~= process_environment(
        backend_dir@,
        backend_port,
        value_or_empty(str_text(search_path)),
        sep,
    ));
    vars
}

/// After the search path was extended by a directory, the directory is on it.
/// This holds for a directory that is not blank and does not itself hold the
/// separator of the list.
pub proof fn lemma_configured_dir_is_on_search_path(path: Seq<char>, sep: char, dir: Seq<char>)
    requires
        !is_blank(dir),
        !dir.contains(sep),
    ensures
        on_search_path(search_path_with(path, sep, dir), sep, dir),
{
    let once = search_path_with(path, sep, dir);
    if !on_search_path(path, sep, dir) {
        assert forall|k: int| 0 <= k < dir.len() implies once[k] != sep by {
            assert(once[k] == dir[k]);
            assert(dir.contains(dir[k]));
        }
        assert(is_entry(once, sep, 0, dir.len() as int));
        assert(once.subrange(0, dir.len() as int) =~= dir);
    }
}

/// Environment idempotence: configuring twice for the same directory does not
/// put the directory on the search path a second time. The second call finds
/// the path as the first call left it, leaves it so, and sets the port only.
pub proof fn lemma_configuring_twice_changes_nothing(
    path: Seq<char>,
    sep: char,
    dir: Seq<char>,
    port: u16,
)
    requires
        !is_blank(dir),
        !dir.contains(sep),
    ensures
        search_path_with(search_path_with(path, sep, dir), sep, dir) == search_path_with(
            path,
            sep,
            dir,
        ),
        process_environment(dir, port, search_path_with(path, sep, dir), sep) == seq![
            (BACKEND_PORT_VARIABLE@, decimal(port as nat)),
        ],
{
    lemma_configured_dir_is_on_search_path(path, sep, dir);
}

} // verus!
