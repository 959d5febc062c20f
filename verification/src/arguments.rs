//! Command line argument data and output path resolution.
//!
//! Parsing the command line itself is the caller's business; this module
//! holds the parsed values and decides where the result file goes.  A path
//! is a plain string whose components are separated by `/`.  The default
//! output file is placed in the directory of the input file: trailing
//! separators are ignored, the directory is the prefix of what remains up
//! to and including its last separator, and a path without any separator
//! left resolves to the bare output file name — the same resolution that
//! taking the path's parent and joining the file name onto it gives.

use vstd::prelude::*;
use vstd::string::StrSliceExecFns;
use vstd::string::StringExecFns;

verus! {

/// The path with every trailing separator removed.
pub open spec fn strip_trailing_separators(path: Seq<char>) -> Seq<char>
    decreases path.len(),
{
    if path.len() > 0 && path.last() == '/' {
        strip_trailing_separators(path.drop_last())
    } else {
        path
    }
}

/// The fixed output file name placed in the directory part of a path that
/// carries no trailing separator: the prefix through the last separator,
/// or the bare file name when there is none.
pub open spec fn resolve_in_directory(path: Seq<char>) -> Seq<char>
    decreases path.len(),
{
    if path.len() == 0 {
        "geo_bound_voronoi.json"@
    } else if path.last() == '/' {
        path + "geo_bound_voronoi.json"@
    } else {
        resolve_in_directory(path.drop_last())
    }
}

/// Where the default output file goes: beside the input file, in its
/// directory; the file name alone when the input path has no directory
/// part (it is empty, a bare file name, or separators only).
pub open spec fn default_output_of(path: Seq<char>) -> Seq<char> {
    resolve_in_directory(strip_trailing_separators(path))
}

/// The parsed command line: the input file holding the point set and
/// bounding geometry, and an optional explicit output path.
#[derive(Clone, Debug)]
pub struct CommandLineArguments {
    /// The path to the file containing the point set and bounding geometry.
    pub point_set_file: String,
    /// The output path for the result file, when one was given.
    pub output_path: Option<String>,
}

impl CommandLineArguments {
    /// Packs the two parsed values.
    pub fn new(point_set_file: String, output_path: Option<String>) -> (r: CommandLineArguments)
        ensures
            r.point_set_file@ == point_set_file@,
            r.output_path is Some <==> output_path is Some,
            r.output_path matches Some(p) ==> (output_path matches Some(q) && p@ == q@),
    {
        CommandLineArguments { point_set_file, output_path }
    }

    /// The path to the file containing the point set and bounding geometry.
    pub fn point_set_file(&self) -> (r: &String)
        ensures
            r@ == self.point_set_file@,
    {
        &self.point_set_file
    }

    /// The output path that has been specified, or the default output path
    /// when none has been set.
    pub fn output_path(&self) -> (r: String)
        ensures
            self.output_path matches Some(p) ==> r@ == p@,
            self.output_path is None ==> r@ == default_output_of(self.point_set_file@),
    {
        match &self.output_path {
            Some(path) => path.clone(),
            None => self.default_ouptut_path(),
        }
    }

    /// The default output path: the fixed output file name, placed in the
    /// input file's directory.
    pub fn default_ouptut_path(&self) -> (r: String)
        ensures
            r@ == default_output_of(self.point_set_file@),
    {
        let path: &str = self.point_set_file.as_str();
        let n: usize = path.unicode_len();
        proof {
            assert(path@.take(n as int) =~= path@);
        }
        // Ignore trailing separators: after this loop the stripped path is
        // the first `stripped` characters.
        let mut stripped: usize = n;
        while stripped > 0 && path.get_char(stripped - 1) == '/'
            invariant
                0 <= stripped <= n,
                n == path@.len(),
                path@ == self.point_set_file@,
                strip_trailing_separators(path@.take(stripped as int))
                    == strip_trailing_separators(path@),
            decreases stripped,
        {
            proof {
                assert(path@.take(stripped as int).drop_last() =~= path@.take(stripped - 1));
                assert(path@.take(stripped as int).last() == path@[stripped - 1]);
            }
            stripped = stripped - 1;
        }
        proof {
            if stripped > 0 {
                assert(path@.take(stripped as int).last() == path@[stripped - 1]);
            }
            assert(strip_trailing_separators(path@) == path@.take(stripped as int));
        }
        // Find the last separator of the stripped path.
        let mut i: usize = stripped;
        while i > 0
            invariant
                0 <= i <= stripped <= n,
                n == path@.len(),
                path@ == self.point_set_file@,
                strip_trailing_separators(path@) == path@.take(stripped as int),
                resolve_in_directory(path@.take(i as int)) == default_output_of(
                    self.point_set_file@,
                ),
            decreases i,
        {
            proof {
                assert(path@.take(i as int).drop_last() =~= path@.take(i - 1));
                assert(path@.take(i as int).last() == path@[i - 1]);
            }
            if path.get_char(i - 1) == '/' {
                let prefix: &str = path.substring_char(0, i);
                let out = String::from_str(prefix).concat("geo_bound_voronoi.json");
                proof {
                    assert(out@ == path@.take(i as int) + "geo_bound_voronoi.json"@);
                }
                return out;
            }
            i = i - 1;
        }
        proof {
            assert(path@.take(0) =~= Seq::<char>::empty());
        }
        String::from_str("geo_bound_voronoi.json")
    }
}

} // verus!
