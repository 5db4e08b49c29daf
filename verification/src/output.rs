//! How command results are shown: as tables and text, or as JSON, and
//! whether quiet mode hides a line.

use vstd::prelude::*;

verus! {

/// Output format.
#[derive(Clone, Copy, Debug, PartialEq, Eq, Structural)]
pub enum OutputFormat {
    Table,
    Json,
}

/// Output settings of one run: the format and whether quiet mode is on.
#[derive(Clone, Copy, Debug)]
pub struct Output {
    format: OutputFormat,
    quiet: bool,
}

impl Output {
    /// The chosen format.
    pub closed spec fn format_spec(&self) -> OutputFormat {
        self.format
    }

    /// Whether quiet mode is on.
    pub closed spec fn quiet_spec(&self) -> bool {
        self.quiet
    }

    /// Whether an ordinary line is shown: quiet mode hides lines of table
    /// output only.
    pub open spec fn shows_lines_spec(&self) -> bool {
        !(self.quiet_spec() && self.format_spec() == OutputFormat::Table)
    }

    /// Create a new output handler.
    pub fn new(format: OutputFormat, quiet: bool) -> (r: Output)
        ensures
            r.format_spec() == format,
            r.quiet_spec() == quiet,
    {
        Output { format, quiet }
    }

    /// Whether JSON output is enabled.
    pub fn is_json(&self) -> (r: bool)
        ensures
            r == (self.format_spec() == OutputFormat::Json),
    {
        match self.format {
            OutputFormat::Json => true,
            OutputFormat::Table => false,
        }
    }

    /// Whether quiet mode is enabled.
    pub fn is_quiet(&self) -> (r: bool)
        ensures
            r == self.quiet_spec(),
    {
        self.quiet
    }

    /// Whether `println` shows a line: always, except for table output in
    /// quiet mode. Lines printed with `println_always` and errors are
    /// shown regardless.
    pub fn shows_lines(&self) -> (r: bool)
        ensures
            r == self.shows_lines_spec(),
    {
        !(self.quiet && !self.is_json())
    }
}

impl Default for Output {
    /// Table output, quiet mode off.
    fn default() -> (r: Output)
        ensures
            r.format_spec() == OutputFormat::Table,
            !r.quiet_spec(),
    {
        Output::new(OutputFormat::Table, false)
    }
}

} // verus!
