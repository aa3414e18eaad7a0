//! The command line: a list of option words.
use vstd::prelude::*;

verus! {

/// What a run is asked to do beyond archiving.
#[derive(Clone, Copy, Debug, PartialEq, Eq, Structural)]
pub struct Options {
    /// Remove the pages of a folder once its archive is written.
    pub clean_after: bool,
}

impl Default for Options {
    fn default() -> (r: Options)
        ensures
            !r.clean_after,
    {
        Options { clean_after: false }
    }
}

/// Why the command line does not lead to a run.
#[derive(Clone, Debug, PartialEq, Eq)]
pub enum OptionsError {
    /// `help` was asked for: print the usage and stop.
    Help,
    /// A word that is no option: report it, print the usage and stop.
    Unknown(String),
}

/// Whether the first `n` words are all `clean`.
pub open spec fn all_clean(args: Seq<String>, n: int) -> bool {
    forall|j: int| 0 <= j < n ==> (#[trigger] args[j])@ == "clean"@
}

/// Reads the option words that follow the program name. Words are read in
/// order: `clean` asks for clean-after, `help` and any other word end the
/// reading at once with an error. No words give the default options.
pub fn get_options(args: &Vec<String>) -> (r: Result<Options, OptionsError>)
    ensures
        r is Ok <==> all_clean(args@, args@.len() as int),
        r matches Ok(o) ==> o.clean_after == (args@.len() > 0),
        r matches Err(e) ==> exists|i: int|
            0 <= i < args@.len() && all_clean(args@, i) && #[trigger] args@[i]@ != "clean"@ && (
            e is Help <==> args@[i]@ == "help"@) && (e matches OptionsError::Unknown(w)
                ==> w@ == args@[i]@),
{
    let mut options = Options::default();
    let clean = String::from_str("clean");
    let help = String::from_str("help");
    let mut i: usize = 0;
    while i < args.len()
        invariant
            i <= args@.len(),
            clean@ == "clean"@,
            help@ == "help"@,
            all_clean(args@, i as int),
            options.clean_after == (i > 0),
        decreases args@.len() - i,
    {
        let arg = &args[i];
        if arg.eq(&clean) {
            options.clean_after = true;
        } else if arg.eq(&help) {
            return Err(OptionsError::Help);
        } else {
            return Err(OptionsError::Unknown(arg.clone()));
        }
        i = i + 1;
    }
    Ok(options)
}

} // verus!
