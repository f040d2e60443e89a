//! The direction a bar moved over its span.

use vstd::prelude::*;

verus! {

/// Whether a bar closed above or below its open.
#[derive(Debug, Clone, Copy, PartialEq, Eq, Structural)]
pub enum Trend {
    Bullish,
    Bearish,
}

impl Trend {
    /// The lower-case name of the trend.
    pub open spec fn spec_str(self) -> Seq<char> {
        match self {
            Trend::Bullish => "bullish"@,
            Trend::Bearish => "bearish"@,
        }
    }

    /// The trend written as its lower-case name.
    pub fn as_text(&self) -> (r: String)
        ensures
            r@ == self.spec_str(),
    {
        match self {
            Trend::Bullish => "bullish".to_owned(),
            Trend::Bearish => "bearish".to_owned(),
        }
    }
}

} // verus!
