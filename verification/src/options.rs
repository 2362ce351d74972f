//! The command line of the bridge: an optional configuration path and `--cli`.
use vstd::prelude::*;
use crate::text::same_text;

verus! {

/// What the command line asks for.
#[derive(Clone, Copy, Debug, PartialEq, Eq, Structural)]
pub struct Options {
    /// Which argument is the configuration path; `config.toml` is used when none is given.
    pub config_arg: Option<usize>,
    /// Whether to run without the tray window.
    pub cli: bool,
}

/// Why the command line was refused.
#[derive(Clone, Copy, Debug, PartialEq, Eq, Structural)]
pub enum OptionsError {
    /// `unknown option: <argument>`: the argument at this position starts with `-`.
    UnknownOption(usize),
    /// `only one config path can be specified`
    SecondConfigPath,
}

/// Whether an argument is an option: it starts with `-`.
pub open spec fn is_option(arg: Seq<char>) -> bool {
    arg.len() > 0 && arg[0] == '-'
}

/// The options after reading the arguments `args` (program name excluded) in order.
pub open spec fn options_of(args: Seq<Seq<char>>) -> Result<Options, OptionsError>
    decreases args.len(),
{
    if args.len() == 0 {
        Ok(Options { config_arg: None, cli: false })
    } else {
        match options_of(args.drop_last()) {
            Err(e) => Err(e),
            Ok(o) => {
                let i = (args.len() - 1) as usize;
                if args.last() == "--cli"@ {
                    Ok(Options { cli: true, ..o })
                } else if is_option(args.last()) {
                    Err(OptionsError::UnknownOption(i))
                } else if o.config_arg is Some {
                    Err(OptionsError::SecondConfigPath)
                } else {
                    Ok(Options { config_arg: Some(i), ..o })
                }
            },
        }
    }
}

/// Reads the command-line arguments (program name excluded, each as text).
pub fn parse_options(args: &Vec<String>) -> (res: Result<Options, OptionsError>)
    ensures
        res == options_of(args@.map_values(|a: String| a@)),
{
    let ghost all = args@.map_values(|a: String| a@);
    let mut options = Options { config_arg: None, cli: false };
    let mut i: usize = 0;
    while i < args.len()
        invariant
            all == args@.map_values(|a: String| a@),
            i <= args.len(),
            options_of(all.take(i as int)) == Ok::<Options, OptionsError>(options),
        decreases args.len() - i,
    {
        let arg = args[i].as_str();
        assert(all.take(i + 1).drop_last() =~= all.take(i as int));
        assert(all.take(i + 1).last() == arg@);
        if same_text(arg, "--cli") {
            options.cli = true;
        } else if arg.unicode_len() > 0 && arg.get_char(0) == '-' {
            proof { lemma_error_persists(all, i as int + 1); }
            return Err(OptionsError::UnknownOption(i));
        } else if options.config_arg.is_some() {
            proof { lemma_error_persists(all, i as int + 1); }
            return Err(OptionsError::SecondConfigPath);
        } else {
            options.config_arg = Some(i);
        }
        i = i + 1;
    }
    assert(all.take(i as int) =~= all);
    Ok(options)
}

/// Once a prefix of the arguments is refused, the whole command line is refused the same way.
proof fn lemma_error_persists(args: Seq<Seq<char>>, k: int)
    requires
        0 <= k <= args.len(),
        options_of(args.take(k)) is Err,
    ensures
        options_of(args) == options_of(args.take(k)),
    decreases args.len() - k,
{
    if k < args.len() {
        assert(args.take(k + 1).drop_last() =~= args.take(k));
        lemma_error_persists(args, k + 1);
    } else {
        assert(args.take(k) =~= args);
    }
}

} // verus!
