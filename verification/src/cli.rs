//! Command-line options.
use vstd::prelude::*;

verus! {

/// Command-line options of the game.
#[derive(Clone, Copy, Debug, PartialEq, Eq, Structural)]
pub struct Args {
    /// `--seed <N>`: the world seed.
    pub seed: Option<u64>,
}

/// Why the command line was refused, as clap words it.
#[derive(Debug)]
pub struct CliError {
    pub message: String,
}

/// What clap's parser makes of `argv` (program name first) for a command
/// whose one option is `--seed <u64>`: `Some(seed)` when accepted (`seed` is
/// `None` when the option is absent), `None` when refused.
pub uninterp spec fn clap_seed_outcome(argv: Seq<Seq<char>>) -> Option<Option<u64>>;

/// `clap::Command::try_get_matches_from` on a command with the single
/// option `--seed` parsed by `RangedU64ValueParser::<u64>`, then
/// `ArgMatches::get_one::<u64>("seed")`. The outcome is a function of the
/// arguments alone, named `clap_seed_outcome`; the wording of a refusal is
/// rendered with `to_string` and not specified.
#[verifier::external_body]
fn clap_parse_seed(argv: &[&str]) -> (res: Result<Option<u64>, String>)
    ensures
        res matches Ok(seed) ==> clap_seed_outcome(argv.deep_view()) == Some(seed),
        res is Err ==> clap_seed_outcome(argv.deep_view()) is None,
{
    let seed_arg = clap::Arg::new("seed").long("seed").value_parser(
        clap::builder::RangedU64ValueParser::<u64>::new(),
    );
    match clap::Command::new("fungai").arg(seed_arg).try_get_matches_from(argv.iter()) {
        Ok(m) => Ok(m.get_one::<u64>("seed").copied()),
        Err(e) => Err(e.to_string()),
    }
}

/// The options for a parse outcome: the accepted seed, or the refusal.
pub fn args_from_outcome(outcome: Result<Option<u64>, String>) -> (res: Result<Args, CliError>)
    ensures
        outcome matches Ok(seed) ==> res == Ok::<Args, CliError>(Args { seed }),
        outcome matches Err(message) ==> res matches Err(e) && e.message@ == message@,
{
    match outcome {
        Ok(seed) => Ok(Args { seed }),
        Err(message) => Err(CliError { message }),
    }
}

impl Args {
    /// Parses `argv` (program name first).
    pub fn try_parse_from(argv: &[&str]) -> (res: Result<Args, CliError>)
        ensures
            res is Ok <==> clap_seed_outcome(argv.deep_view()) is Some,
            res matches Ok(a) ==> clap_seed_outcome(argv.deep_view()) == Some(a.seed),
    {
        args_from_outcome(clap_parse_seed(argv))
    }
}

} // verus!
