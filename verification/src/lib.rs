//! Conversion of a spinning 32-channel LiDAR's UDP telemetry into
//! per-revolution point records.
//!
//! The crate decodes sensor payloads into polar point records with
//! synthesized timestamps, cuts the point stream into revolutions at every
//! azimuth decrease, and describes the output units (text files or typed
//! datasets) that a caller then writes.

pub mod convert;
pub mod csvwriter;
pub mod extract;
pub mod framewriter;
pub mod hdfwriter;
pub mod options;
pub mod packet;
pub mod segment;
pub mod text;
pub mod velopoint;

use vstd::prelude::*;
use crate::options::{
    getopts_parse, getopts_usage, option_row, scan_options, usage_text, Found, FoundView,
    OptionRow, OptionRowView,
};

verus! {

/// The kind of output that a conversion produces.
#[derive(Clone, Copy, Debug, PartialEq, Eq, Structural)]
pub enum OutType {
    Csv,
    Hdf,
}

/// The arguments of a conversion: the capture to read, the kind of output
/// and whether datasets are compressed.
#[derive(Debug)]
pub struct Args {
    pub input: String,
    pub out_type: OutType,
    pub compression: bool,
}

/// The arguments of a conversion as plain values.
pub struct ArgsView {
    pub input: Seq<char>,
    pub out_type: OutType,
    pub compression: bool,
}

impl View for Args {
    type V = ArgsView;

    open spec fn view(&self) -> ArgsView {
        ArgsView { input: self.input@, out_type: self.out_type, compression: self.compression }
    }
}

/// Why a command line gives no arguments for a conversion.
#[derive(Debug)]
pub enum ArgsError {
    /// The help flag was given: the usage text is wanted.
    HelpRequested,
    /// No input was named.
    MissingInput,
    /// The output option has a value other than `csv` and `hdf`.
    UnknownOutput(String),
    /// The command line does not fit the options.
    Rejected(getopts::Fail),
}

/// The reasons of `ArgsError` as plain values.
pub enum Refusal {
    HelpRequested,
    MissingInput,
    UnknownOutput(Seq<char>),
    Rejected,
}

impl View for ArgsError {
    type V = Refusal;

    open spec fn view(&self) -> Refusal {
        match self {
            ArgsError::HelpRequested => Refusal::HelpRequested,
            ArgsError::MissingInput => Refusal::MissingInput,
            ArgsError::UnknownOutput(value) => Refusal::UnknownOutput(value@),
            ArgsError::Rejected(_) => Refusal::Rejected,
        }
    }
}

/// The kind of output that a value of the output option selects.
pub open spec fn out_type_named(value: Seq<char>) -> Option<OutType> {
    if value == "csv"@ {
        Some(OutType::Csv)
    } else if value == "hdf"@ {
        Some(OutType::Hdf)
    } else {
        None
    }
}

/// What follows from what was found on the command line. A request for
/// help comes before everything else, then a missing input; the first
/// free argument is the input, the output is text unless the option says
/// otherwise, and a value that names no kind of output is refused.
pub open spec fn args_outcome(found: Option<FoundView>) -> Result<ArgsView, Refusal> {
    match found {
        None => Err(Refusal::Rejected),
        Some(found) => if found.help {
            Err(Refusal::HelpRequested)
        } else if found.free.len() == 0 {
            Err(Refusal::MissingInput)
        } else {
            let out_type = match found.output {
                None => Some(OutType::Csv),
                Some(value) => out_type_named(value),
            };
            match out_type {
                Some(out_type) => Ok(
                    ArgsView { input: found.free[0], out_type, compression: found.compression },
                ),
                None => Err(Refusal::UnknownOutput(found.output->Some_0)),
            }
        },
    }
}

/// Relates a result to the outcome that the rules prescribe.
pub open spec fn args_result_is(
    result: Result<Args, ArgsError>,
    outcome: Result<ArgsView, Refusal>,
) -> bool {
    match (result, outcome) {
        (Ok(args), Ok(expected)) => args@ == expected,
        (Err(error), Err(expected)) => error@ == expected,
        _ => false,
    }
}

/// The first line of the usage text.
pub open spec fn usage_brief() -> Seq<char> {
    "Usage: veloconv [options] <input>"@
}

/// The output option as plain text.
pub open spec fn output_option() -> OptionRowView {
    OptionRowView { short: "o"@, long: "output"@, description: "output type"@, hint: "csv|hdf"@ }
}

/// The help flag as plain text.
pub open spec fn help_option() -> OptionRowView {
    OptionRowView { short: "h"@, long: "help"@, description: "print this help menu"@, hint: ""@ }
}

/// The compression flag as plain text.
pub open spec fn compression_option() -> OptionRowView {
    OptionRowView {
        short: "c"@,
        long: "compression"@,
        description: "enable compression"@,
        hint: ""@,
    }
}

/// The kind of output that a value of the output option selects.
pub fn out_type_from(value: &str) -> (out_type: Option<OutType>)
    ensures
        out_type == out_type_named(value@),
{
    if str_equal(value, "csv") {
        Some(OutType::Csv)
    } else if str_equal(value, "hdf") {
        Some(OutType::Hdf)
    } else {
        None
    }
}

/// Whether two texts are the same.
fn str_equal(a: &str, b: &str) -> (same: bool)
    ensures
        same == (a@ == b@),
{
    let left = a.to_owned();
    let right = b.to_owned();
    left == right
}

/// Decides the arguments of a conversion from what was found on the
/// command line.
pub fn args_from_options(found: Found) -> (result: Result<Args, ArgsError>)
    ensures
        args_result_is(result, args_outcome(Some(found@))),
{
    if found.help {
        return Err(ArgsError::HelpRequested);
    }
    if found.free.len() == 0 {
        return Err(ArgsError::MissingInput);
    }
    let input = found.free[0].clone();
    let out_type = match found.output {
        None => OutType::Csv,
        Some(value) => match out_type_from(value.as_str()) {
            Some(out_type) => out_type,
            None => { return Err(ArgsError::UnknownOutput(value)); },
        },
    };
    Ok(Args { input, out_type, compression: found.compression })
}

/// The three options of the command line: output, help, compression.
fn option_rows() -> (rows: (OptionRow, OptionRow, OptionRow))
    ensures
        rows.0@ == output_option(),
        rows.1@ == help_option(),
        rows.2@ == compression_option(),
        rows.0@.well_formed(),
        rows.1@.well_formed(),
        rows.2@.well_formed(),
{
    proof {
        reveal_strlit("o");
        reveal_strlit("output");
        reveal_strlit("h");
        reveal_strlit("help");
        reveal_strlit("c");
        reveal_strlit("compression");
    }
    (
        option_row("o", "output", "output type", "csv|hdf"),
        option_row("h", "help", "print this help menu", ""),
        option_row("c", "compression", "enable compression", ""),
    )
}

/// Reads the arguments of a conversion off a command line, given without
/// the program's name: `-o`/`--output` with `csv` or `hdf`, the flags
/// `-h`/`--help` and `-c`/`--compression`, and the input.
pub fn parse_args(args: &Vec<String>) -> (result: Result<Args, ArgsError>)
    ensures
        args_result_is(
            result,
            args_outcome(
                getopts_parse(
                    output_option(),
                    help_option(),
                    compression_option(),
                    args.deep_view(),
                ),
            ),
        ),
{
    let (output, help, compression) = option_rows();
    match scan_options(&output, &help, &compression, args) {
        Ok(found) => args_from_options(found),
        Err(fail) => Err(ArgsError::Rejected(fail)),
    }
}

/// The usage text of the command line.
pub fn usage() -> (text: String)
    ensures
        text@ == getopts_usage(
            output_option(),
            help_option(),
            compression_option(),
            usage_brief(),
        ),
{
    let (output, help, compression) = option_rows();
    usage_text(&output, &help, &compression, "Usage: veloconv [options] <input>")
}

} // verus!
