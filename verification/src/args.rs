//! Configuration from the command line: the serving directory, taken from
//! the value after the last `--directory` (or `-d`) flag. Unknown arguments
//! are ignored; a flag with no value following it leaves the directory
//! unset.

use vstd::prelude::*;

use crate::bytes::bytes_eq;
use crate::bytes::clone_bytes;
use crate::text::dir_flag_long;
use crate::text::dir_flag_long_vec;
use crate::text::dir_flag_short;
use crate::text::dir_flag_short_vec;

verus! {

/// The configuration bundle read once at startup.
#[derive(Clone, Debug)]
pub struct Args {
    /// The directory served by the `/files/` routes, when one was given.
    pub directory: Option<Vec<u8>>,
}

/// The views of an argument list.
pub open spec fn arg_views(args: Seq<Vec<u8>>) -> Seq<Seq<u8>> {
    args.map_values(|a: Vec<u8>| a@)
}

/// The directory chosen by scanning `args` from position `i` with `acc`
/// already chosen: each directory flag consumes the following argument as
/// the new choice, or clears the choice when nothing follows; every other
/// argument is ignored.
pub open spec fn dir_from(args: Seq<Seq<u8>>, i: int, acc: Option<Seq<u8>>) -> Option<Seq<u8>>
    decreases args.len() - i,
{
    if i < 0 || i >= args.len() {
        acc
    } else if args[i] == dir_flag_long() || args[i] == dir_flag_short() {
        if i + 1 < args.len() {
            dir_from(args, i + 2, Some(args[i + 1]))
        } else {
            dir_from(args, i + 1, None)
        }
    } else {
        dir_from(args, i + 1, acc)
    }
}

/// The directory chosen by a whole argument list (without the program
/// name).
pub open spec fn directory_of(args: Seq<Seq<u8>>) -> Option<Seq<u8>> {
    dir_from(args, 0, None)
}

impl Args {
    /// Reads the configuration from an argument list (without the program
    /// name).
    pub fn from_list(args: &Vec<Vec<u8>>) -> (r: Args)
        ensures
            match r.directory {
                Some(d) => directory_of(arg_views(args@)) == Some(d@),
                None => directory_of(arg_views(args@)) is None,
            },
    {
        let long = dir_flag_long_vec();
        let short = dir_flag_short_vec();
        let mut chosen: Option<Vec<u8>> = None;
        let mut i: usize = 0;
        let ghost av = arg_views(args@);
        while i < args.len()
            invariant
                i <= args@.len(),
                av == arg_views(args@),
                long@ == dir_flag_long(),
                short@ == dir_flag_short(),
                dir_from(av, i as int, match chosen {
                    Some(ref c) => Some(c@),
                    None => None,
                }) == directory_of(av),
            decreases args@.len() - i,
        {
            if bytes_eq(&args[i], &long) || bytes_eq(&args[i], &short) {
                if i + 1 < args.len() {
                    chosen = Some(clone_bytes(&args[i + 1]));
                    i += 2;
                } else {
                    chosen = None;
                    i += 1;
                }
            } else {
                i += 1;
            }
        }
        Args { directory: chosen }
    }

    /// Whether a serving directory was configured.
    pub fn has_directory(&self) -> (r: bool)
        ensures
            r == (self.directory is Some),
    {
        self.directory.is_some()
    }
}

} // verus!
