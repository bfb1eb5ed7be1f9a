//! The candle series: seven index-aligned columns that grow one row at a time,
//! with the time direction and resolution inferred once from the first rows.

use vstd::prelude::*;

use crate::data_source::Resolution;

verus! {

/// An instant, as whole milliseconds since the Unix epoch (UTC).
#[derive(Clone, Copy, PartialEq, Eq, Structural, Debug, Hash)]
pub struct Timestamp {
    pub millis: i64,
}

impl Timestamp {
    pub fn from_millis(millis: i64) -> (r: Timestamp)
        ensures
            r.millis == millis,
    {
        Timestamp { millis }
    }

    pub fn timestamp_millis(&self) -> (r: i64)
        ensures
            r == self.millis,
    {
        self.millis
    }
}

/// The distance between two instants in whole seconds, whichever comes first;
/// a partial second is dropped.
pub open spec fn spec_gap_seconds(a: Timestamp, b: Timestamp) -> int {
    let d = a.millis - b.millis;
    (if d < 0 { -d } else { d }) / 1000
}

/// Computes `spec_gap_seconds` without overflow for any two instants.
pub fn gap_seconds(a: Timestamp, b: Timestamp) -> (r: i64)
    ensures
        r == spec_gap_seconds(a, b),
{
    let d: i128 = a.millis as i128 - b.millis as i128;
    let abs: i128 = if d < 0 { -d } else { d };
    assert(abs / 1000 <= i64::MAX) by (nonlinear_arith)
        requires
            0 <= abs <= 0x1_0000_0000_0000_0000,
    ;
    (abs / 1000) as i64
}

/// One OHLCV sample. `V` is the caller's numeric type for prices and volumes;
/// the series only ever reads `open_time`.
#[derive(Clone, Copy, PartialEq, Debug)]
pub struct Candle<V> {
    pub open_time: Timestamp,
    pub open: V,
    pub high: V,
    pub low: V,
    pub close: V,
    pub volume: Option<V>,
    pub trade_count: Option<V>,
}

/// The chronological order of a series' rows.
#[derive(Clone, Copy, PartialEq, Eq, Structural, Debug, Hash)]
pub enum Direction {
    /// Oldest first.
    Ascending,
    /// Newest first.
    Descending,
}

/// What is known of a series' sampling period.
#[derive(Clone, Copy, PartialEq, Eq, Structural, Debug, Hash)]
pub enum ResolutionState {
    /// Fewer than two rows have been seen.
    Unknown,
    /// The gap between the first two rows is a catalog period.
    Known(Resolution),
    /// The gap between the first two rows matched no catalog period; this is final.
    Unrecognized,
}

/// Why an append was refused. The series is left as it was.
#[derive(Clone, Copy, PartialEq, Eq, Structural, Debug, Hash)]
pub enum ContinuityError {
    /// The direction is known and the new row's time is not the boundary time.
    NotContiguous { expected: Timestamp, actual: Timestamp },
    /// Two or more rows are held but no direction was established.
    DirectionIndeterminate,
}

/// The contents of a series as mathematical sequences.
pub struct CandlesView<V> {
    pub open_times: Seq<Timestamp>,
    pub opens: Seq<V>,
    pub highs: Seq<V>,
    pub lows: Seq<V>,
    pub closes: Seq<V>,
    pub volumes: Seq<Option<V>>,
    pub trade_counts: Seq<Option<V>>,
    pub direction: Option<Direction>,
    pub resolution: ResolutionState,
}

impl<V> CandlesView<V> {
    /// The row count.
    pub open spec fn len(self) -> nat {
        self.open_times.len()
    }

    /// All seven columns have the same length.
    pub open spec fn columns_aligned(self) -> bool {
        &&& self.opens.len() == self.len()
        &&& self.highs.len() == self.len()
        &&& self.lows.len() == self.len()
        &&& self.closes.len() == self.len()
        &&& self.volumes.len() == self.len()
        &&& self.trade_counts.len() == self.len()
    }

    /// Why a row at time `t` may not be appended, if it may not.
    pub open spec fn continuity_error(self, t: Timestamp) -> Option<ContinuityError> {
        match self.direction {
            Some(Direction::Descending) => {
                if self.len() > 0 && self.open_times[0] != t {
                    Some(ContinuityError::NotContiguous { expected: self.open_times[0], actual: t })
                } else {
                    None
                }
            },
            Some(Direction::Ascending) => {
                if self.len() > 0 && self.open_times.last() != t {
                    Some(
                        ContinuityError::NotContiguous {
                            expected: self.open_times.last(),
                            actual: t,
                        },
                    )
                } else {
                    None
                }
            },
            None => {
                if self.len() >= 2 {
                    Some(ContinuityError::DirectionIndeterminate)
                } else {
                    None
                }
            },
        }
    }

    /// The columns with one more row at the end; direction and resolution unchanged.
    pub open spec fn push_row(self, c: Candle<V>) -> CandlesView<V> {
        CandlesView {
            open_times: self.open_times.push(c.open_time),
            opens: self.opens.push(c.open),
            highs: self.highs.push(c.high),
            lows: self.lows.push(c.low),
            closes: self.closes.push(c.close),
            volumes: self.volumes.push(c.volume),
            trade_counts: self.trade_counts.push(c.trade_count),
            ..self
        }
    }

    /// The direction, decided once when exactly two rows are held: descending
    /// when the first is strictly later than the second.
    pub open spec fn inferred_direction(self) -> Option<Direction> {
        if self.direction is None && self.len() == 2 {
            if self.open_times[0].millis > self.open_times[1].millis {
                Some(Direction::Descending)
            } else {
                Some(Direction::Ascending)
            }
        } else {
            self.direction
        }
    }

    /// The resolution, decided once from the gap between the first two rows.
    pub open spec fn inferred_resolution(self) -> ResolutionState {
        if self.resolution is Unknown && self.len() >= 2 {
            match Resolution::spec_from_seconds(spec_gap_seconds(self.open_times[0], self.open_times[1])) {
                Some(r) => ResolutionState::Known(r),
                None => ResolutionState::Unrecognized,
            }
        } else {
            self.resolution
        }
    }

    /// The series after a successful append of `c`.
    pub open spec fn appended(self, c: Candle<V>) -> CandlesView<V> {
        let p = self.push_row(c);
        CandlesView { direction: p.inferred_direction(), resolution: p.inferred_resolution(), ..p }
    }
}

/// An append-only series of candles held as seven index-aligned columns.
pub struct Candles<V> {
    open_times: Vec<Timestamp>,
    opens: Vec<V>,
    highs: Vec<V>,
    lows: Vec<V>,
    closes: Vec<V>,
    volumes: Vec<Option<V>>,
    trade_count: Vec<Option<V>>,
    direction: Option<Direction>,
    resolution: ResolutionState,
}

impl<V> View for Candles<V> {
    type V = CandlesView<V>;

    closed spec fn view(&self) -> CandlesView<V> {
        CandlesView {
            open_times: self.open_times@,
            opens: self.opens@,
            highs: self.highs@,
            lows: self.lows@,
            closes: self.closes@,
            volumes: self.volumes@,
            trade_counts: self.trade_count@,
            direction: self.direction,
            resolution: self.resolution,
        }
    }
}

impl<V> Candles<V> {
    /// The series' invariant: its columns stay aligned, and direction and
    /// resolution are settled exactly when two or more rows are held.
    pub open spec fn wf(&self) -> bool {
        &&& self@.columns_aligned()
        &&& (self@.direction is None <==> self@.len() < 2)
        &&& (self@.resolution is Unknown <==> self@.len() < 2)
    }

    pub fn new() -> (r: Candles<V>)
        ensures
            r.wf(),
            r@.len() == 0,
            r@.direction is None,
            r@.resolution is Unknown,
    {
        Candles {
            open_times: Vec::new(),
            opens: Vec::new(),
            highs: Vec::new(),
            lows: Vec::new(),
            closes: Vec::new(),
            volumes: Vec::new(),
            trade_count: Vec::new(),
            direction: None,
            resolution: ResolutionState::Unknown,
        }
    }
    /// Settles the direction once exactly two rows are held.
    fn detect_time_desc(&mut self)
        ensures
            final(self)@ == (CandlesView { direction: old(self)@.inferred_direction(), ..old(self)@ }),
    {
        if self.direction.is_none() && self.open_times.len() == 2 {
            let first = self.open_times[0];
            let second = self.open_times[1];
            self.direction = if first.millis > second.millis {
                Some(Direction::Descending)
            } else {
                Some(Direction::Ascending)
            };
        }
    }

    /// Settles the resolution once two or more rows are held.
    fn detect_resolution(&mut self)
        ensures
            final(self)@ == (CandlesView { resolution: old(self)@.inferred_resolution(), ..old(self)@ }),
    {
        if self.resolution == ResolutionState::Unknown && self.open_times.len() >= 2 {
            let gap = gap_seconds(self.open_times[0], self.open_times[1]);
            self.resolution = match Resolution::from_seconds(gap) {
                Some(r) => ResolutionState::Known(r),
                None => ResolutionState::Unrecognized,
            };
        }
    }

    /// Appends one row after checking that its time continues the series.
    ///
    /// With a known direction, a non-empty series only takes a row whose time
    /// equals its boundary time: the first row's when descending, the last
    /// row's when ascending. Without a direction, up to two rows are taken
    /// freely. On success the row is added to every column, then the direction
    /// and the resolution are inferred if they are still open. On failure
    /// nothing changes.
    pub fn push_candle(&mut self, candle: Candle<V>) -> (r: Result<(), ContinuityError>)
        requires
            old(self).wf(),
        ensures
            final(self).wf(),
            match old(self)@.continuity_error(candle.open_time) {
                Some(e) => r == Err::<(), ContinuityError>(e) && final(self)@ == old(self)@,
                None => r is Ok && final(self)@ == old(self)@.appended(candle),
            },
            r != Err::<(), ContinuityError>(ContinuityError::DirectionIndeterminate),
            old(self)@.direction is Some ==> final(self)@.direction == old(self)@.direction,
            !(old(self)@.resolution is Unknown) ==> final(self)@.resolution == old(self)@.resolution,
            old(self)@.len() == 1 && old(self)@.direction is None && candle.open_time
                == old(self)@.open_times[0] ==> r is Ok && final(self)@.direction == Some(
                Direction::Ascending,
            ),
    {
        match self.direction {
            Some(Direction::Descending) => {
                if self.open_times.len() > 0 {
                    let expected = self.open_times[0];
                    if expected.millis != candle.open_time.millis {
                        return Err(
                            ContinuityError::NotContiguous { expected, actual: candle.open_time },
                        );
                    }
                }
            },
            Some(Direction::Ascending) => {
                if self.open_times.len() > 0 {
                    let expected = self.open_times[self.open_times.len() - 1];
                    if expected.millis != candle.open_time.millis {
                        return Err(
                            ContinuityError::NotContiguous { expected, actual: candle.open_time },
                        );
                    }
                }
            },
            None => {
                if self.open_times.len() >= 2 {
                    return Err(ContinuityError::DirectionIndeterminate);
                }
            },
        }
        self.open_times.push(candle.open_time);
        self.opens.push(candle.open);
        self.highs.push(candle.high);
        self.lows.push(candle.low);
        self.closes.push(candle.close);
        self.volumes.push(candle.volume);
        self.trade_count.push(candle.trade_count);
        self.detect_resolution();
        self.detect_time_desc();
        Ok(())
    }
    /// The direction as a flag: `Some(true)` when newest first.
    pub fn time_desc(&self) -> (r: Option<bool>)
        ensures
            r == match self@.direction {
                Some(Direction::Descending) => Some(true),
                Some(Direction::Ascending) => Some(false),
                None => None::<bool>,
            },
    {
        match self.direction {
            Some(Direction::Descending) => Some(true),
            Some(Direction::Ascending) => Some(false),
            None => None,
        }
    }

    pub fn time_direction(&self) -> (r: Option<Direction>)
        ensures
            r == self@.direction,
    {
        self.direction
    }

    /// The resolution, when the first two rows matched a catalog period.
    pub fn resolution(&self) -> (r: Option<Resolution>)
        ensures
            r == match self@.resolution {
                ResolutionState::Known(res) => Some(res),
                _ => None::<Resolution>,
            },
    {
        match self.resolution {
            ResolutionState::Known(res) => Some(res),
            _ => None,
        }
    }

    pub fn resolution_state(&self) -> (r: ResolutionState)
        ensures
            r == self@.resolution,
    {
        self.resolution
    }

    /// The time of the row at index 0, the newest when descending.
    pub fn get_last_close_time(&self) -> (r: Option<Timestamp>)
        ensures
            r == if self@.len() > 0 {
                Some(self@.open_times[0])
            } else {
                None::<Timestamp>
            },
    {
        if self.open_times.len() > 0 {
            Some(self.open_times[0])
        } else {
            None
        }
    }

    /// The time of the row at the last index, the oldest when descending.
    pub fn get_oldest_close_time(&self) -> (r: Option<Timestamp>)
        ensures
            r == if self@.len() > 0 {
                Some(self@.open_times.last())
            } else {
                None::<Timestamp>
            },
    {
        if self.open_times.len() > 0 {
            Some(self.open_times[self.open_times.len() - 1])
        } else {
            None
        }
    }

    pub fn len(&self) -> (r: usize)
        ensures
            r == self@.len(),
    {
        self.open_times.len()
    }

    pub fn open_times(&self) -> (r: &Vec<Timestamp>)
        ensures
            r@ == self@.open_times,
    {
        &self.open_times
    }

    pub fn opens(&self) -> (r: &Vec<V>)
        ensures
            r@ == self@.opens,
    {
        &self.opens
    }

    pub fn highs(&self) -> (r: &Vec<V>)
        ensures
            r@ == self@.highs,
    {
        &self.highs
    }

    pub fn lows(&self) -> (r: &Vec<V>)
        ensures
            r@ == self@.lows,
    {
        &self.lows
    }

    pub fn closes(&self) -> (r: &Vec<V>)
        ensures
            r@ == self@.closes,
    {
        &self.closes
    }

    pub fn volumes(&self) -> (r: &Vec<Option<V>>)
        ensures
            r@ == self@.volumes,
    {
        &self.volumes
    }

    pub fn trade_count(&self) -> (r: &Vec<Option<V>>)
        ensures
            r@ == self@.trade_counts,
    {
        &self.trade_count
    }
}

} // verus!
