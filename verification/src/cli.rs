//! Reading the command-line arguments of the control tool.

use vstd::prelude::*;

use crate::controls::Level;
use crate::lighting::RgbColor;
use crate::text;
use crate::text::{owned, parse_unsigned_text, push_str, str_eq};

verus! {

/// A command-line value that cannot be used.
#[derive(Clone, Debug, Eq, PartialEq)]
pub enum CliError {
    /// The argument is malformed; the text says what is expected.
    InvalidInput(String),
    /// The request cannot be carried out; the text says why.
    Other(String),
}

/// The text a user sees for a command-line error.
pub open spec fn cli_error_text(e: CliError) -> Seq<char> {
    match e {
        CliError::InvalidInput(m) => m@,
        CliError::Other(m) => m@,
    }
}

impl CliError {
    /// The text a user sees for this error.
    pub fn message(&self) -> (r: String)
        ensures
            r@ == cli_error_text(*self),
    {
        match self {
            CliError::InvalidInput(m) => m.clone(),
            CliError::Other(m) => m.clone(),
        }
    }
}

/// Reads a switch argument: `on` or `off`.
pub fn parse_switch(value: &str) -> (r: Result<bool, CliError>)
    ensures
        value@ == "on"@ ==> r == Ok::<bool, CliError>(true),
        value@ == "off"@ ==> r == Ok::<bool, CliError>(false),
        value@ != "on"@ && value@ != "off"@ ==> (r matches Err(CliError::InvalidInput(m))
            && m@ == "switch value must be 'on' or 'off'"@),
{
    proof {
        reveal_strlit("on");
        reveal_strlit("off");
        assert("on"@.len() != "off"@.len());
    }
    if str_eq(value, "on") {
        Ok(true)
    } else if str_eq(value, "off") {
        Ok(false)
    } else {
        Err(CliError::InvalidInput(owned("switch value must be 'on' or 'off'")))
    }
}

/// The message for a channel argument that is not a byte.
pub open spec fn channel_range_text(name: Seq<char>) -> Seq<char> {
    name + " must be an integer from 0 through 255"@
}

/// Reads one color channel argument as a `u8`.
fn parse_channel(name: &str, value: &str) -> (r: Result<u8, CliError>)
    ensures
        match text::parse_unsigned(value@, 255) {
            Some(v) => r == Ok::<u8, CliError>(v as u8),
            None => r matches Err(CliError::InvalidInput(m)) && m@ == channel_range_text(name@),
        },
{
    match parse_unsigned_text(value, 255) {
        Some(v) => Ok(v as u8),
        None => {
            let mut m = owned(name);
            push_str(&mut m, " must be an integer from 0 through 255");
            Err(CliError::InvalidInput(m))
        },
    }
}

/// Reads a color from its red, green and blue arguments, reporting the
/// first channel that is not a number from 0 through 255.
pub fn parse_color(red: &str, green: &str, blue: &str) -> (r: Result<RgbColor, CliError>)
    ensures
        match (text::parse_unsigned(red@, 255), text::parse_unsigned(green@, 255), text::parse_unsigned(blue@, 255)) {
            (Some(r8), Some(g8), Some(b8)) => r == Ok::<RgbColor, CliError>(RgbColor { red: r8 as u8, green: g8 as u8, blue: b8 as u8 }),
            (None, _, _) => r matches Err(CliError::InvalidInput(m)) && m@ == channel_range_text("red"@),
            (Some(_), None, _) => r matches Err(CliError::InvalidInput(m)) && m@ == channel_range_text("green"@),
            (Some(_), Some(_), None) => r matches Err(CliError::InvalidInput(m)) && m@ == channel_range_text("blue"@),
        },
{
    let r = parse_channel("red", red)?;
    let g = parse_channel("green", green)?;
    let b = parse_channel("blue", blue)?;
    Ok(RgbColor::new(r, g, b))
}

/// The error for a control without a playback level.
pub fn missing_level(name: &str) -> (r: CliError)
    ensures
        r matches CliError::Other(m) && m@ == "'"@ + name@ + "' has no playback level"@,
{
    let mut m = owned("'");
    push_str(&mut m, name);
    push_str(&mut m, "' has no playback level");
    CliError::Other(m)
}

/// The neighbouring value a smoke test moves a level to: one step up, or
/// one step down at the top of the range; none when the range has a single
/// value.
pub open spec fn smoke_step(l: Level) -> Option<i64> {
    if l.value < l.max {
        Some((l.value + 1) as i64)
    } else if l.value > l.min {
        Some((l.value - 1) as i64)
    } else {
        None
    }
}

/// The value a smoke test writes before restoring the starting level.
pub fn smoke_test_value(level: &Level) -> (r: Option<i64>)
    ensures
        r == smoke_step(*level),
{
    if level.value < level.max {
        Some(level.value + 1)
    } else if level.value > level.min {
        Some(level.value - 1)
    } else {
        None
    }
}

/// The controls a smoke test may exercise: a switch that must be off and
/// the level written while it is.
pub const SMOKE_TEST_CANDIDATES: [(&'static str, &'static str); 2] = [
    ("FX: Surround", "FX: Surround"),
    ("Bass Redirection", "Bass Redirection Crossover"),
];

} // verus!
