//! The bar widths the market-data endpoints accept.

use vstd::prelude::*;

verus! {

/// One bar width, from a minute to a month.
#[derive(Debug, Clone, Copy, PartialEq, Eq, Structural)]
pub enum TimeFrame {
    OneMinute,
    FiveMinutes,
    FifteenMinutes,
    ThirtyMinutes,
    OneHour,
    FourHours,
    OneDay,
    OneWeek,
    OneMonth,
}

impl TimeFrame {
    /// The token the API expects for this width.
    pub open spec fn spec_str(self) -> Seq<char> {
        match self {
            TimeFrame::OneMinute => "1Min"@,
            TimeFrame::FiveMinutes => "5Min"@,
            TimeFrame::FifteenMinutes => "15Min"@,
            TimeFrame::ThirtyMinutes => "30Min"@,
            TimeFrame::OneHour => "1H"@,
            TimeFrame::FourHours => "4H"@,
            TimeFrame::OneDay => "1D"@,
            TimeFrame::OneWeek => "1W"@,
            TimeFrame::OneMonth => "1M"@,
        }
    }

    /// The width a spelling names: each width's query token, the long
    /// date spellings, and the short tick spellings; anything else names
    /// none.
    pub open spec fn spec_parse(s: Seq<char>) -> Option<TimeFrame> {
        if s == "1Min"@ || s == "1T"@ {
            Some(TimeFrame::OneMinute)
        } else if s == "5Min"@ || s == "5T"@ {
            Some(TimeFrame::FiveMinutes)
        } else if s == "15Min"@ || s == "15T"@ {
            Some(TimeFrame::FifteenMinutes)
        } else if s == "30Min"@ || s == "30T"@ {
            Some(TimeFrame::ThirtyMinutes)
        } else if s == "1Hour"@ || s == "1H"@ {
            Some(TimeFrame::OneHour)
        } else if s == "4Hour"@ || s == "4H"@ {
            Some(TimeFrame::FourHours)
        } else if s == "1Day"@ || s == "1D"@ {
            Some(TimeFrame::OneDay)
        } else if s == "1Week"@ || s == "1W"@ {
            Some(TimeFrame::OneWeek)
        } else if s == "1Month"@ || s == "1M"@ {
            Some(TimeFrame::OneMonth)
        } else {
            None
        }
    }

    /// Reads a width from its spelling, when it is one.
    pub fn parse(s: &str) -> (r: Option<TimeFrame>)
        ensures
            r == Self::spec_parse(s@),
    {
        let text = s.to_owned();
        let w_min1: String = "1Min".to_owned();
        let w_t1: String = "1T".to_owned();
        let w_min5: String = "5Min".to_owned();
        let w_t5: String = "5T".to_owned();
        let w_min15: String = "15Min".to_owned();
        let w_t15: String = "15T".to_owned();
        let w_min30: String = "30Min".to_owned();
        let w_t30: String = "30T".to_owned();
        let w_hour1: String = "1Hour".to_owned();
        let w_h1: String = "1H".to_owned();
        let w_hour4: String = "4Hour".to_owned();
        let w_h4: String = "4H".to_owned();
        let w_day: String = "1Day".to_owned();
        let w_d: String = "1D".to_owned();
        let w_week: String = "1Week".to_owned();
        let w_w: String = "1W".to_owned();
        let w_month: String = "1Month".to_owned();
        let w_m: String = "1M".to_owned();
        if text.eq(&w_min1) || text.eq(&w_t1) {
            Some(TimeFrame::OneMinute)
        } else if text.eq(&w_min5) || text.eq(&w_t5) {
            Some(TimeFrame::FiveMinutes)
        } else if text.eq(&w_min15) || text.eq(&w_t15) {
            Some(TimeFrame::FifteenMinutes)
        } else if text.eq(&w_min30) || text.eq(&w_t30) {
            Some(TimeFrame::ThirtyMinutes)
        } else if text.eq(&w_hour1) || text.eq(&w_h1) {
            Some(TimeFrame::OneHour)
        } else if text.eq(&w_hour4) || text.eq(&w_h4) {
            Some(TimeFrame::FourHours)
        } else if text.eq(&w_day) || text.eq(&w_d) {
            Some(TimeFrame::OneDay)
        } else if text.eq(&w_week) || text.eq(&w_w) {
            Some(TimeFrame::OneWeek)
        } else if text.eq(&w_month) || text.eq(&w_m) {
            Some(TimeFrame::OneMonth)
        } else {
            None
        }
    }

    /// The width written as the API's query token.
    pub fn as_text(&self) -> (r: String)
        ensures
            r@ == self.spec_str(),
    {
        match self {
            TimeFrame::OneMinute => "1Min".to_owned(),
            TimeFrame::FiveMinutes => "5Min".to_owned(),
            TimeFrame::FifteenMinutes => "15Min".to_owned(),
            TimeFrame::ThirtyMinutes => "30Min".to_owned(),
            TimeFrame::OneHour => "1H".to_owned(),
            TimeFrame::FourHours => "4H".to_owned(),
            TimeFrame::OneDay => "1D".to_owned(),
            TimeFrame::OneWeek => "1W".to_owned(),
            TimeFrame::OneMonth => "1M".to_owned(),
        }
    }
}

} // verus!
