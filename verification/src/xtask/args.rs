//! The arguments of the plain command line: options first, then the command.

use crate::text::same_text;
use vstd::prelude::*;
use vstd::string::*;

verus! {

/// What the command line asks for.
#[derive(Debug)]
pub struct Args {
    /// Whether the packaged source tree is tested as well.
    pub test: bool,
    /// The directory of the source tree.
    pub repository: String,
}

/// Why a command line is refused.
#[derive(Clone, Copy, Debug, PartialEq, Eq, Structural)]
pub enum ArgsError {
    /// The arguments end before a command.
    NoCommand,
    /// Nothing follows `--path`.
    MissingPath,
    /// The argument is neither an option nor a command.
    InvalidCommand,
}

/// What the arguments ask for, with the directory given so far: whether to
/// test, and the directory of the source tree. Every `--path` takes the
/// argument after it, the last one counts, and the first command ends the
/// reading.
pub open spec fn parsed(args: Seq<Seq<char>>, repository: Seq<char>) -> Result<
    (bool, Seq<char>),
    ArgsError,
>
    decreases args.len(),
{
    if args.len() == 0 {
        Err(ArgsError::NoCommand)
    } else if args[0] == "--path"@ {
        if args.len() < 2 {
            Err(ArgsError::MissingPath)
        } else {
            parsed(args.skip(2), args[1])
        }
    } else if args[0] == "test"@ {
        Ok((true, repository))
    } else if args[0] == "prepare"@ {
        Ok((false, repository))
    } else {
        Err(ArgsError::InvalidCommand)
    }
}

impl Args {
    /// Reads the arguments that follow the name of the program. Without a
    /// `--path` the source tree is in `default_path`.
    pub fn from_env(args: &Vec<String>, default_path: &str) -> (r: Result<Args, ArgsError>)
        ensures
            match r {
                Ok(found) => parsed(args@.map_values(|s: String| s@), default_path@) == Ok::<
                    (bool, Seq<char>),
                    ArgsError,
                >((found.test, found.repository@)),
                Err(e) => parsed(args@.map_values(|s: String| s@), default_path@) == Err::<
                    (bool, Seq<char>),
                    ArgsError,
                >(e),
            },
    {
        let ghost all = args@.map_values(|s: String| s@);
        let mut repository = String::from_str(default_path);
        let mut i: usize = 0;
        proof {
            assert(all.skip(0) =~= all);
        }
        loop
            invariant
                i <= args.len(),
                all == args@.map_values(|s: String| s@),
                parsed(all, default_path@) == parsed(all.skip(i as int), repository@),
            decreases args.len() - i,
        {
            if i >= args.len() {
                return Err(ArgsError::NoCommand);
            }
            let arg = args[i].as_str();
            proof {
                assert(all.skip(i as int)[0] == arg@);
            }
            if same_text(arg, "--path") {
                if i + 1 >= args.len() {
                    return Err(ArgsError::MissingPath);
                }
                proof {
                    assert(all.skip(i as int)[1] == args@[i + 1]@);
                    assert(all.skip(i as int).skip(2) =~= all.skip(i + 2));
                }
                repository = args[i + 1].clone();
                i += 2;
            } else if same_text(arg, "test") {
                return Ok(Args { test: true, repository });
            } else if same_text(arg, "prepare") {
                return Ok(Args { test: false, repository });
            } else {
                return Err(ArgsError::InvalidCommand);
            }
        }
    }
}

} // verus!
