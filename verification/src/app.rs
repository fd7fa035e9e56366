//! What the user asks for.

use vstd::prelude::*;
use crate::pty_executor::dimension::Dimension;
use crate::pty_executor::PtyOptions;
use crate::window_decoration::WindowDecorationType;

verus! {

/// The arguments of one run.
#[derive(Debug, Clone)]
pub struct Args {
    /// The command to run, program first.
    pub command: Vec<String>,
    /// Show no progress.
    pub quiet: bool,
    /// Draw no window around the output.
    pub no_decoration: bool,
    /// The window to draw around the output.
    pub decoration: WindowDecorationType,
    /// The file to write the image to.
    pub output: Option<String>,
    /// Put the image on the clipboard.
    pub clipboard: bool,
    /// Columns of the terminal.
    pub width: Dimension,
    /// Rows of the terminal.
    pub height: Dimension,
    /// Seconds after which the command is killed; 0 lets it run.
    pub timeout: Option<u64>,
}

impl Args {
    /// The seconds after which the command is killed: none where no timeout
    /// is given or the timeout is 0.
    pub open spec fn timeout_seconds(self) -> Option<u64> {
        match self.timeout {
            Some(seconds) => if seconds == 0 {
                None
            } else {
                Some(seconds)
            },
            None => None,
        }
    }

    /// The decoration to draw: none where the user asked for none.
    pub open spec fn chosen_decoration(self) -> Option<WindowDecorationType> {
        if self.no_decoration {
            None
        } else {
            Some(self.decoration)
        }
    }

    /// How to set the pseudo-terminal up for these arguments.
    pub fn pty_options(&self) -> (options: PtyOptions)
        ensures
            options.cols == self.width,
            options.rows == self.height,
            options.timeout == self.timeout_seconds(),
    {
        let timeout = match self.timeout {
            Some(seconds) => if seconds == 0 {
                None
            } else {
                Some(seconds)
            },
            None => None,
        };
        PtyOptions { cols: self.width, rows: self.height, timeout }
    }

    /// Computes `chosen_decoration`.
    pub fn decoration_type(&self) -> (r: Option<WindowDecorationType>)
        ensures
            r == self.chosen_decoration(),
    {
        if self.no_decoration {
            None
        } else {
            Some(self.decoration)
        }
    }
}

} // verus!
