use vstd::prelude::*;

use crate::entries::{bind_all, bind_each, keys_unique};

verus! {

/// Fallback shell when the environment names none.
pub const DEFAULT_SHELL: &'static str = "/bin/bash";

/// Initial window height of a new terminal.
pub const DEFAULT_ROWS: u16 = 24;

/// Initial window width of a new terminal.
pub const DEFAULT_COLS: u16 = 80;

/// What to run on the slave side of a new pseudo-terminal, and how.
#[derive(Debug, Clone)]
pub struct PtyConfig {
    /// Absolute path of the program to execute.
    pub shell: String,
    /// Arguments after the program name.
    pub args: Vec<String>,
    /// Environment entries set in the child, in order, one per name.
    pub env: Vec<(String, String)>,
    /// Directory the child changes to before executing, if any.
    pub working_dir: Option<String>,
    pub rows: u16,
    pub cols: u16,
}

/// The views of a sequence of strings.
pub open spec fn string_views(v: Seq<String>) -> Seq<Seq<char>> {
    v.map_values(|s: String| s@)
}

impl PtyConfig {
    /// The configuration used when nothing else is asked for: the shell named
    /// by the environment, else `/bin/bash`; no arguments; the given
    /// environment entries, where a repeated name keeps its first place and
    /// its last value; no working directory; a 24 by 80 window.
    pub fn from_environment(shell: Option<String>, env: Vec<(String, String)>) -> (c: PtyConfig)
        ensures
            c.shell@ == (match shell {
                Some(s) => s@,
                None => DEFAULT_SHELL@,
            }),
            c.args@.len() == 0,
            c.env@ == bind_all(Seq::empty(), env@),
            keys_unique(c.env@),
            c.working_dir is None,
            c.rows == DEFAULT_ROWS,
            c.cols == DEFAULT_COLS,
    {
        let shell = match shell {
            Some(s) => s,
            None => DEFAULT_SHELL.to_owned(),
        };
        let mut entries: Vec<(String, String)> = Vec::new();
        bind_each(&mut entries, &env);
        PtyConfig {
            shell,
            args: Vec::new(),
            env: entries,
            working_dir: None,
            rows: DEFAULT_ROWS,
            cols: DEFAULT_COLS,
        }
    }

    /// The argument vector the child executes: the shell, then its arguments.
    pub fn argv(&self) -> (r: Vec<String>)
        ensures
            string_views(r@) == seq![self.shell@] + string_views(self.args@),
    {
        let mut r: Vec<String> = Vec::new();
        r.push(self.shell.clone());
        let mut i: usize = 0;
        while i < self.args.len()
            invariant
                i <= self.args@.len(),
                string_views(r@) == seq![self.shell@] + string_views(self.args@).subrange(0, i as int),
            decreases self.args@.len() - i,
        {
            let ghost before = r@;
            r.push(self.args[i].clone());
            assert(string_views(r@) =~= string_views(before).push(self.args@[i as int]@));
            assert(string_views(self.args@).subrange(0, i + 1) =~= string_views(self.args@).subrange(
                0,
                i as int,
            ).push(self.args@[i as int]@));
            i += 1;
            assert(string_views(r@) =~= seq![self.shell@] + string_views(self.args@).subrange(0, i as int));
        }
        assert(string_views(self.args@).subrange(0, self.args@.len() as int) =~= string_views(self.args@));
        r
    }
}

} // verus!
