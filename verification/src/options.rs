//! The command line's options, as the `getopts` crate scans them.
//!
//! The scanning itself is that crate's work and is not verified here: the
//! two functions that call it state what they hand over and name what
//! comes back.

use vstd::prelude::*;
use vstd::string::StringExecFns;

verus! {

/// `getopts::Fail`, the reason why `getopts` refuses a command line. The
/// library carries it to the caller and reads nothing in it.
#[verifier::external_type_specification]
#[verifier::external_body]
pub struct ExFail(getopts::Fail);

/// One option of the command line: its one-letter name, its long name,
/// what the usage text says of it, and, where it takes a value, the word
/// that stands for the value there.
#[derive(Debug)]
pub struct OptionRow {
    pub short: String,
    pub long: String,
    pub description: String,
    pub hint: String,
}

/// An option as plain text.
pub struct OptionRowView {
    pub short: Seq<char>,
    pub long: Seq<char>,
    pub description: Seq<char>,
    pub hint: Seq<char>,
}

impl View for OptionRow {
    type V = OptionRowView;

    open spec fn view(&self) -> OptionRowView {
        OptionRowView {
            short: self.short@,
            long: self.long@,
            description: self.description@,
            hint: self.hint@,
        }
    }
}

impl OptionRowView {
    /// The names are ones that an option can have: one ASCII letter, and
    /// a long name of two characters or more.
    pub open spec fn well_formed(self) -> bool {
        &&& self.short.len() == 1
        &&& '\0' <= self.short[0] <= '\u{7f}'
        &&& self.long.len() >= 2
    }
}

/// What was found on a command line: whether the two flags were given,
/// the value of the output option where it was given, and the arguments
/// that belong to no option, in their order.
#[derive(Debug)]
pub struct Found {
    pub help: bool,
    pub output: Option<String>,
    pub compression: bool,
    pub free: Vec<String>,
}

/// What was found on a command line, as plain text.
pub struct FoundView {
    pub help: bool,
    pub output: Option<Seq<char>>,
    pub compression: bool,
    pub free: Seq<Seq<char>>,
}

impl View for Found {
    type V = FoundView;

    open spec fn view(&self) -> FoundView {
        FoundView {
            help: self.help,
            output: match self.output {
                Some(value) => Some(value@),
                None => None,
            },
            compression: self.compression,
            free: self.free.deep_view(),
        }
    }
}

/// What `getopts` finds in `args` when it knows one option with a value
/// and two flags, or nothing where it refuses the command line.
pub uninterp spec fn getopts_parse(
    output: OptionRowView,
    help: OptionRowView,
    compression: OptionRowView,
    args: Seq<Seq<char>>,
) -> Option<FoundView>;

/// The usage text that `getopts` makes of a first line and the same
/// three options.
pub uninterp spec fn getopts_usage(
    output: OptionRowView,
    help: OptionRowView,
    compression: OptionRowView,
    brief: Seq<char>,
) -> Seq<char>;

/// Scans a command line with `getopts::Options::parse`, after declaring
/// `output` as an option with a value (`optopt`) and `help` and
/// `compression` as flags (`optflag`).
///
/// Nothing is claimed of how the command line is scanned. The contract
/// only names the result: what is found is `getopts_parse` of the options
/// and the arguments, read off the matches with `opt_present` and
/// `opt_str` under the options' short names, and a refusal is a refusal
/// there.
#[verifier::external_body]
pub(crate) fn scan_options(
    output: &OptionRow,
    help: &OptionRow,
    compression: &OptionRow,
    args: &Vec<String>,
) -> (found: Result<Found, getopts::Fail>)
    requires
        output@.well_formed(),
        help@.well_formed(),
        compression@.well_formed(),
    ensures
        found is Ok ==> getopts_parse(output@, help@, compression@, args.deep_view()) == Some(
            found->Ok_0@,
        ),
        found is Err ==> getopts_parse(output@, help@, compression@, args.deep_view()) is None,
{
    let mut options = getopts::Options::new();
    options.optopt(&output.short, &output.long, &output.description, &output.hint);
    options.optflag(&help.short, &help.long, &help.description);
    options.optflag(&compression.short, &compression.long, &compression.description);
    match options.parse(args) {
        Ok(matches) => Ok(
            Found {
                help: matches.opt_present(&help.short),
                output: matches.opt_str(&output.short),
                compression: matches.opt_present(&compression.short),
                free: matches.free,
            },
        ),
        Err(fail) => Err(fail),
    }
}

/// Makes the usage text with `getopts::Options::usage`, after declaring
/// the three options as `scan_options` does.
///
/// The contract only names the result: the text is `getopts_usage` of the
/// options and the first line.
#[verifier::external_body]
pub(crate) fn usage_text(
    output: &OptionRow,
    help: &OptionRow,
    compression: &OptionRow,
    brief: &str,
) -> (text: String)
    requires
        output@.well_formed(),
        help@.well_formed(),
        compression@.well_formed(),
    ensures
        text@ == getopts_usage(output@, help@, compression@, brief@),
{
    let mut options = getopts::Options::new();
    options.optopt(&output.short, &output.long, &output.description, &output.hint);
    options.optflag(&help.short, &help.long, &help.description);
    options.optflag(&compression.short, &compression.long, &compression.description);
    options.usage(brief)
}

/// An option with the given texts.
pub fn option_row(short: &str, long: &str, description: &str, hint: &str) -> (row: OptionRow)
    ensures
        row@ == (OptionRowView {
            short: short@,
            long: long@,
            description: description@,
            hint: hint@,
        }),
{
    OptionRow {
        short: String::from_str(short),
        long: String::from_str(long),
        description: String::from_str(description),
        hint: String::from_str(hint),
    }
}

} // verus!
