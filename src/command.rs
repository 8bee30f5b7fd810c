//! The command lines given to the display tool.
use vstd::prelude::*;

verus! {

/// The display-configuration tool that is queried and driven.
pub const DISPLAY_TOOL: &'static str = "xrandr";

pub const VERBOSE_FLAG: &'static str = "--verbose";

pub const OUTPUT_FLAG: &'static str = "--output";

pub const BRIGHTNESS_FLAG: &'static str = "--brightness";

/// The arguments of the query whose report holds the brightness.
pub fn query_args() -> (r: Vec<String>)
    ensures
        r@.len() == 1,
        r@[0]@ == VERBOSE_FLAG@,
{
    let mut r: Vec<String> = Vec::new();
    r.push(VERBOSE_FLAG.to_owned());
    r
}

/// The arguments that set the brightness of `output` to `level`, the decimal text of a
/// level already brought into range.
pub fn set_brightness_args(output: &str, level: &str) -> (r: Vec<String>)
    ensures
        r@.len() == 4,
        r@[0]@ == OUTPUT_FLAG@,
        r@[1]@ == output@,
        r@[2]@ == BRIGHTNESS_FLAG@,
        r@[3]@ == level@,
{
    let mut r: Vec<String> = Vec::new();
    r.push(OUTPUT_FLAG.to_owned());
    r.push(output.to_owned());
    r.push(BRIGHTNESS_FLAG.to_owned());
    r.push(level.to_owned());
    r
}

} // verus!
