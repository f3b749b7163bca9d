//! The command-line surface's pure part: the input path as given, and the
//! default output path, derived from the input path by replacing its
//! extension with `pdf.xml` (appending it when the final `/`-separated
//! component has no extension).  Making paths absolute and every other
//! interaction with the file system belong to the surrounding program.
use vstd::prelude::*;
use vstd::string::StrSliceExecFns;
use vstd::string::StringExecFns;

verus! {

/// The position of the last occurrence of `c` in `t`.
pub open spec fn spec_rfind_char(t: Seq<char>, c: char) -> Option<int>
    decreases t.len(),
{
    if t.len() == 0 {
        None
    } else if t[t.len() - 1] == c {
        Some(t.len() - 1)
    } else {
        spec_rfind_char(t.drop_last(), c)
    }
}

/// The default output path for `input`: the final component's extension is
/// replaced by `pdf.xml`; a component without one (or whose only `.` leads
/// it) gets `.pdf.xml` appended.
pub open spec fn spec_default_output(input: Seq<char>) -> Seq<char> {
    let comp_start = match spec_rfind_char(input, '/') {
        Some(i) => i + 1,
        None => 0,
    };
    let comp = input.subrange(comp_start, input.len() as int);
    let dot = spec_rfind_char(comp, '.');
    if dot is Some && dot.unwrap() > 0 {
        input.subrange(0, comp_start + dot.unwrap()) + ".pdf.xml"@
    } else {
        input + ".pdf.xml"@
    }
}

/// The position of the last occurrence of `c` in `t`.
pub(crate) fn rfind_char(t: &str, c: char) -> (r: Option<usize>)
    ensures
        match r {
            Some(i) => spec_rfind_char(t@, c) == Some(i as int) && i < t@.len(),
            None => spec_rfind_char(t@, c) is None,
        },
{
    let n = t.unicode_len();
    proof {
        assert(t@.subrange(0, n as int) =~= t@);
    }
    let mut pos = n;
    while pos > 0
        invariant
            pos <= n,
            n == t@.len(),
            spec_rfind_char(t@, c) == spec_rfind_char(t@.subrange(0, pos as int), c),
        decreases pos,
    {
        pos = pos - 1;
        if t.get_char(pos) == c {
            proof {
                assert(t@.subrange(0, pos as int + 1)[pos as int] == t@[pos as int]);
            }
            return Some(pos);
        }
        proof {
            assert(t@.subrange(0, pos as int + 1).drop_last() =~= t@.subrange(0, pos as int));
            assert(t@.subrange(0, pos as int + 1)[pos as int] == t@[pos as int]);
        }
    }
    proof {
        assert(t@.subrange(0, 0).len() == 0);
    }
    None
}

/// Derives the default output path from the input path.
pub fn default_output_path(input: &str) -> (r: String)
    ensures
        r@ == spec_default_output(input@),
{
    let n = input.unicode_len();
    let comp_start = match rfind_char(input, '/') {
        Some(i) => i + 1,
        None => 0,
    };
    let comp = input.substring_char(comp_start, n);
    let cut = match rfind_char(comp, '.') {
        Some(d) => if d > 0 {
            comp_start + d
        } else {
            n
        },
        None => n,
    };
    let stem = input.substring_char(0, cut);
    proof {
        assert(input@.subrange(0, n as int) =~= input@);
    }
    String::from_str(stem).concat(".pdf.xml")
}

/// The command-line arguments that steer one resolution run, as plain
/// values: the input path, the optional output path, the optional explicit
/// attachment name, the diagnostic switch and the policy switch.
pub struct Cli {
    pub pdf_input: String,
    pub attachment_output: Option<String>,
    pub name: Option<String>,
    pub verbose: bool,
    pub strict: bool,
}

impl Cli {
    /// The input path, as given on the command line.
    pub fn input_path(&self) -> (r: &String)
        ensures
            r@ == self.pdf_input@,
    {
        &self.pdf_input
    }

    /// The output path: the one given on the command line, or the default
    /// derived from the input path.
    pub fn output_path(&self) -> (r: String)
        ensures
            match self.attachment_output {
                Some(p) => r@ == p@,
                None => r@ == spec_default_output(self.pdf_input@),
            },
    {
        match &self.attachment_output {
            Some(p) => p.clone(),
            None => default_output_path(self.pdf_input.as_str()),
        }
    }
}

} // verus!
