//! The catalog of sampling periods a candle series can have.

use vstd::prelude::*;

verus! {

/// A supported sampling period, from one minute to one week.
#[derive(Clone, Copy, PartialEq, Eq, Structural, Debug, Hash, Default)]
pub enum Resolution {
    #[default]
    M1,
    M5,
    M15,
    M30,
    H1,
    H4,
    D1,
    W1,
}

impl Resolution {
    /// The length of the period in seconds.
    pub open spec fn spec_seconds(self) -> int {
        match self {
            Resolution::M1 => 60,
            Resolution::M5 => 300,
            Resolution::M15 => 900,
            Resolution::M30 => 1800,
            Resolution::H1 => 3600,
            Resolution::H4 => 14400,
            Resolution::D1 => 86400,
            Resolution::W1 => 604800,
        }
    }

    /// The catalog entry whose period is exactly `seconds` long, if any.
    pub open spec fn spec_from_seconds(seconds: int) -> Option<Resolution> {
        if seconds == 60 {
            Some(Resolution::M1)
        } else if seconds == 300 {
            Some(Resolution::M5)
        } else if seconds == 900 {
            Some(Resolution::M15)
        } else if seconds == 1800 {
            Some(Resolution::M30)
        } else if seconds == 3600 {
            Some(Resolution::H1)
        } else if seconds == 14400 {
            Some(Resolution::H4)
        } else if seconds == 86400 {
            Some(Resolution::D1)
        } else if seconds == 604800 {
            Some(Resolution::W1)
        } else {
            None
        }
    }

    pub fn to_seconds(&self) -> (r: i64)
        ensures
            r == self.spec_seconds(),
    {
        match self {
            Resolution::M1 => 60,
            Resolution::M5 => 300,
            Resolution::M15 => 900,
            Resolution::M30 => 1800,
            Resolution::H1 => 3600,
            Resolution::H4 => 14400,
            Resolution::D1 => 86400,
            Resolution::W1 => 604800,
        }
    }

    pub fn to_milliseconds(&self) -> (r: i64)
        ensures
            r == self.spec_seconds() * 1000,
    {
        self.to_seconds() * 1000
    }

    /// Exact lookup: `Some` only for a period that is in the catalog.
    pub fn from_seconds(seconds: i64) -> (r: Option<Resolution>)
        ensures
            r == Self::spec_from_seconds(seconds as int),
            r matches Some(res) ==> res.spec_seconds() == seconds,
            r is None <==> forall|res: Resolution| res.spec_seconds() != seconds,
    {
        match seconds {
            60 => Some(Resolution::M1),
            300 => Some(Resolution::M5),
            900 => Some(Resolution::M15),
            1800 => Some(Resolution::M30),
            3600 => Some(Resolution::H1),
            14400 => Some(Resolution::H4),
            86400 => Some(Resolution::D1),
            604800 => Some(Resolution::W1),
            _ => None,
        }
    }
}

/// Looking up the length of any catalog period gives that period back.
pub proof fn lemma_seconds_round_trip(r: Resolution)
    ensures
        Resolution::spec_from_seconds(r.spec_seconds()) == Some(r),
{
}

} // verus!
