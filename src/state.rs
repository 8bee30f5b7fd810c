//! The state of the control, as it stands once the display tool has been asked.
use vstd::prelude::*;
use crate::brightness::{interpret_report, reads_as, Reading};
use crate::output::{find_primary_output, has_primary_output, primary_output_is};

verus! {

/// The name shown beside the level.
pub const CONTROL_LABEL: &'static str = "Brightness";

/// What a finished command printed.
#[derive(Debug, Clone)]
pub struct CapturedOutput {
    pub stdout: String,
    pub stderr: String,
}

/// Why the control cannot start.
#[derive(PartialEq, Eq, Structural, Debug, Clone, Copy)]
pub enum SetupError {
    /// No line of the listing names a primary connected output.
    OutputNotFound,
}

/// The control's state: its label, the level first read, and the output it drives.
#[derive(Debug)]
pub struct Brightness {
    pub term: String,
    pub reading: Reading,
    pub output: String,
}

impl Brightness {
    /// Builds the state from the verbose query's output (`None` where it could not be run)
    /// and from the tool's plain listing, which must name a primary connected output.
    pub fn new(report: &Option<CapturedOutput>, listing: &str) -> (r: Result<Brightness, SetupError>)
        ensures
            r is Ok <==> has_primary_output(listing@),
            r matches Ok(b) ==> {
                &&& b.term@ == CONTROL_LABEL@
                &&& primary_output_is(listing@, b.output@)
                &&& match report {
                    Some(c) => reads_as(&b.reading, c.stdout@, c.stderr@),
                    None => b.reading is Failed,
                }
            },
            r matches Err(e) ==> e == SetupError::OutputNotFound,
    {
        let output = match find_primary_output(listing) {
            Some(name) => name,
            None => return Err(SetupError::OutputNotFound),
        };
        let reading = match report {
            Some(c) => interpret_report(c.stdout.as_str(), c.stderr.as_str()),
            None => Reading::Failed,
        };
        Ok(Brightness { term: CONTROL_LABEL.to_owned(), reading, output })
    }
}

} // verus!
