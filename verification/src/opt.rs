//! The resolved command-line options, as plain values, and the decisions
//! taken directly on them: seeding the resolution state and picking the
//! configuration file among the candidates a directory walk offers.

use vstd::prelude::*;

use crate::defines::DefineTable;
use crate::filelist::FilelistState;
use crate::strutil::views_of;

verus! {

/// One run's options. Argument parsing itself stays outside the library;
/// every field is the parsed, plain value.
pub struct Opt {
    /// Source files, in order.
    pub files: Vec<String>,
    /// Manifest files to resolve, in order; used instead of `files`.
    pub filelist: Vec<String>,
    /// `IDENT` or `IDENT=text` macro definitions.
    pub defines: Vec<String>,
    /// Include directories.
    pub includes: Vec<String>,
    /// The configuration file to search for.
    pub config: String,
    /// Plugin files contributing further rules.
    pub plugins: Vec<String>,
    /// Skip resolving `include` directives while parsing.
    pub ignore_include: bool,
    /// Single-line diagnostic rendering.
    pub single: bool,
    /// Suppress diagnostic messages (the verdict and exit code stay).
    pub silent: bool,
    /// Also report files that pass.
    pub verbose: bool,
    /// Rewrite the configuration file with the resolved rule table.
    pub update_config: bool,
    /// Print a template configuration and exit.
    pub example: bool,
}

impl Opt {
    /// Options with no file, no define and the default configuration name.
    pub fn new() -> (r: Opt)
        ensures
            r.files@.len() == 0,
            r.filelist@.len() == 0,
            r.defines@.len() == 0,
            r.includes@.len() == 0,
            r.config@ == ".svlint.toml"@,
            r.plugins@.len() == 0,
            !r.ignore_include,
            !r.single,
            !r.silent,
            !r.verbose,
            !r.update_config,
            !r.example,
    {
        Opt {
            files: Vec::new(),
            filelist: Vec::new(),
            defines: Vec::new(),
            includes: Vec::new(),
            config: ".svlint.toml".to_owned(),
            plugins: Vec::new(),
            ignore_include: false,
            single: false,
            silent: false,
            verbose: false,
            update_config: false,
            example: false,
        }
    }
}

/// Copies a list of strings.
pub fn clone_strings(v: &Vec<String>) -> (r: Vec<String>)
    ensures
        views_of(r@) == views_of(v@),
{
    let mut out: Vec<String> = Vec::new();
    let mut i: usize = 0;
    while i < v.len()
        invariant
            0 <= i <= v@.len(),
            views_of(out@) =~= views_of(v@).take(i as int),
        decreases v@.len() - i,
    {
        let ghost pre = out@;
        out.push(v[i].clone());
        proof {
            assert(views_of(out@) =~= views_of(pre).push(v@[i as int]@));
            assert(views_of(out@) =~= views_of(v@).take(i as int + 1));
        }
        i += 1;
    }
    proof {
        assert(views_of(v@).take(v@.len() as int) =~= views_of(v@));
    }
    out
}

/// The state a resolution starts from: the options' own files and include
/// directories, in order, and the define table seeded from the `-d` options.
pub fn initial_filelist_state(opt: &Opt, defines: DefineTable) -> (r: FilelistState)
    ensures
        r@.files == views_of(opt.files@),
        r@.incdirs == views_of(opt.includes@),
        r@.defines == defines@,
{
    FilelistState {
        files: clone_strings(&opt.files),
        incdirs: clone_strings(&opt.includes),
        defines,
    }
}

/// The index of the first candidate that exists, if any: the decision of the
/// configuration-file search, which probes one candidate per ancestor
/// directory, nearest first.
pub fn first_existing(exists: &Vec<bool>) -> (r: Option<usize>)
    ensures
        match r {
            Some(i) => 0 <= i < exists@.len() && exists@[i as int] && (forall|k: int|
                0 <= k < i ==> !exists@[k]),
            None => forall|k: int| 0 <= k < exists@.len() ==> !exists@[k],
        },
{
    let mut i: usize = 0;
    while i < exists.len()
        invariant
            0 <= i <= exists@.len(),
            forall|k: int| 0 <= k < i ==> !exists@[k],
        decreases exists@.len() - i,
    {
        if exists[i] {
            return Some(i);
        }
        i += 1;
    }
    None
}

} // verus!
