//! The one failure mode of the widgets: a construction input that cannot give a
//! working widget. Runtime operations are total.

use vstd::prelude::*;

verus! {

/// Why a widget could not be built from the given configuration.
#[derive(Clone, Copy, Debug, PartialEq, Eq, Structural)]
pub enum ConfigError {
    /// The visible window (lines, rows or items) was given a size of zero.
    ZeroWindow,
    /// The padding leaves no room for text: `width <= 2 * padding`.
    WrapWidthTooSmall,
    /// A table row does not have one cell per header.
    RaggedRow,
    /// The initially selected row is not a row of the table.
    SelectedOutOfRange,
    /// No indicator style has the requested name.
    UnknownStyle,
    /// An indicator style has no frames.
    NoFrames,
}

impl ConfigError {
    /// A sentence that describes the error.
    pub fn message(&self) -> &'static str {
        match self {
            ConfigError::ZeroWindow => "the visible window must hold at least one line",
            ConfigError::WrapWidthTooSmall => "the width must exceed twice the padding",
            ConfigError::RaggedRow => "every row must have one cell per header",
            ConfigError::SelectedOutOfRange => "the selected row must be a row of the table",
            ConfigError::UnknownStyle => "no indicator style has that name",
            ConfigError::NoFrames => "an indicator style needs at least one frame",
        }
    }
}

} // verus!
