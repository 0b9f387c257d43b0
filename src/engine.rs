//! The target-size search as a state machine.
//!
//! A scale factor is held in millionths (`SCALE_ONE` is the unscaled size).
//! The engine never touches pixels: the caller resizes and encodes at the
//! scale the engine holds, reports the measured size with `record`, and
//! feeds a random draw from the returned bracket back with `advance`.
use vstd::prelude::*;

verus! {

/// One scale factor unit: the unscaled size.
pub const SCALE_ONE: i64 = 1_000_000;

/// The smallest target the search accepts, in bytes.
pub const MIN_TARGET: u64 = 128;

/// Targets and tolerances must stay below this value.
pub const SIZE_LIMIT: u64 = 4_294_967_295;

/// The fewest and (exclusive) most iterations the search accepts.
pub const MIN_CEILING: u32 = 8;
pub const CEILING_LIMIT: u32 = 16_384;

/// Why a search was refused or could not go on.
#[derive(Debug, Clone, Copy, PartialEq, Eq, Structural)]
pub enum ParamError {
    TargetOutOfRange,
    ToleranceOutOfRange,
    CeilingOutOfRange,
}

/// The caller's request: target size and tolerance in bytes, and the
/// iteration ceiling.
#[derive(Debug, Clone, Copy, PartialEq, Eq, Structural)]
pub struct SearchParams {
    pub target: u64,
    pub tolerance: u64,
    pub ceiling: u32,
}

pub open spec fn params_valid(target: u64, tolerance: u64, ceiling: u32) -> bool {
    MIN_TARGET <= target < SIZE_LIMIT && tolerance < SIZE_LIMIT && MIN_CEILING <= ceiling
        < CEILING_LIMIT
}

impl SearchParams {
    pub open spec fn valid(self) -> bool {
        params_valid(self.target, self.tolerance, self.ceiling)
    }

    /// Checks the request against the accepted bounds, target first.
    pub fn new(target: u64, tolerance: u64, ceiling: u32) -> (r: Result<SearchParams, ParamError>)
        ensures
            r is Ok <==> params_valid(target, tolerance, ceiling),
            r is Ok ==> r->Ok_0 == (SearchParams { target, tolerance, ceiling }),
            r == Err::<SearchParams, _>(ParamError::TargetOutOfRange) <==> !(MIN_TARGET <= target
                < SIZE_LIMIT),
            r == Err::<SearchParams, _>(ParamError::ToleranceOutOfRange) <==> (MIN_TARGET <= target
                < SIZE_LIMIT && tolerance >= SIZE_LIMIT),
            r == Err::<SearchParams, _>(ParamError::CeilingOutOfRange) <==> (MIN_TARGET <= target
                < SIZE_LIMIT && tolerance < SIZE_LIMIT && !(MIN_CEILING <= ceiling
                < CEILING_LIMIT)),
    {
        if target < MIN_TARGET || target >= SIZE_LIMIT {
            Err(ParamError::TargetOutOfRange)
        } else if tolerance >= SIZE_LIMIT {
            Err(ParamError::ToleranceOutOfRange)
        } else if ceiling < MIN_CEILING || ceiling >= CEILING_LIMIT {
            Err(ParamError::CeilingOutOfRange)
        } else {
            Ok(SearchParams { target, tolerance, ceiling })
        }
    }
}

/// The estimated compression ratio `encoded / raw`, held as the two byte
/// counts it was measured from.
#[derive(Debug, Clone, Copy, PartialEq, Eq, Structural)]
pub struct CompressionRatio {
    pub encoded: u64,
    pub raw: u64,
}

impl CompressionRatio {
    /// Whether `size * ratio / target` is exactly one.
    pub open spec fn scaled_is_one(self, size: u64, target: u64) -> bool {
        self.raw > 0 && size * self.encoded == target * self.raw
    }

    pub fn is_scaled_one(&self, size: u64, target: u64) -> (r: bool)
        ensures
            r == self.scaled_is_one(size, target),
    {
        proof {
            let m = u64::MAX as int;
            assert(size as int * self.encoded as int <= m * m) by (nonlinear_arith)
                requires 0 <= size <= m, 0 <= self.encoded <= m;
            assert(target as int * self.raw as int <= m * m) by (nonlinear_arith)
                requires 0 <= target <= m, 0 <= self.raw <= m;
        }
        self.raw > 0 && (size as u128) * (self.encoded as u128) == (target as u128) * (
        self.raw as u128)
    }
}

/// The best candidate seen: the largest size not above the target.
/// `deficit` is `None` until some candidate fits.
#[derive(Debug, Clone, Copy, PartialEq, Eq, Structural)]
pub struct BestKnown {
    pub scale: i64,
    pub size: u64,
    pub deficit: Option<u64>,
}

impl BestKnown {
    pub open spec fn wf(self, target: u64) -> bool {
        self.deficit is Some ==> self.size + self.deficit->0 == target
    }
}

/// The best candidate after a candidate of `size` bytes at `scale` was
/// measured: it replaces the best one when it fits and falls short by less.
pub open spec fn improved(best: BestKnown, scale: i64, size: u64, target: u64) -> BestKnown {
    if size <= target && (best.deficit is None || target - size < best.deficit->0) {
        BestKnown { scale, size, deficit: Some((target - size) as u64) }
    } else {
        best
    }
}

/// The best candidate after each candidate `(scale, size)` of `cands` in
/// turn.
pub open spec fn best_after(best: BestKnown, cands: Seq<(i64, u64)>, target: u64) -> BestKnown
    decreases cands.len(),
{
    if cands.len() == 0 {
        best
    } else {
        let prev = best_after(best, cands.drop_last(), target);
        improved(prev, cands.last().0, cands.last().1, target)
    }
}

/// The step by which a bound moves at iteration `i`: `1 / (i + 2)`.
pub open spec fn step_at(i: u32) -> int {
    SCALE_ONE as int / (i as int + 2)
}

/// A bound that every scale stays within at iteration `i`: the widest
/// starting bracket, `1.05 * target`, plus one for each iteration.
pub open spec fn reach(target: u64, i: int) -> int {
    target as int * 1_050_000 + i * SCALE_ONE as int
}

/// The bracket `[low, high]`, with `0 < high`, has collapsed:
/// `1 - low/high < 1/20`.
pub open spec fn collapsed(low: int, high: int) -> bool {
    20 * (high - low) < high
}

pub open spec fn abs_diff(x: int, y: int) -> int {
    if x <= y { y - x } else { x - y }
}

/// What the engine asks of the caller after a measurement.
#[derive(Debug, Clone, Copy, PartialEq, Eq, Structural)]
pub enum Step {
    /// The search is over: output the best candidate.
    Stop,
    /// Draw the next scale from `[low, high]` and pass it to `advance`.
    Sample { low: i64, high: i64 },
}

/// The state of one search.
#[derive(Debug, Clone, Copy, PartialEq, Eq, Structural)]
pub struct SearchEngine {
    pub params: SearchParams,
    pub ratio: CompressionRatio,
    /// The bracket's two bounds, lower first.
    pub low: i64,
    pub high: i64,
    /// The scale of the candidate being measured.
    pub scale: i64,
    pub iteration: u32,
    pub best: BestKnown,
    /// The size passed to the last `record`.
    pub last_size: Option<u64>,
    /// A bracket was handed out and awaits its draw.
    pub pending: bool,
}

impl SearchEngine {
    pub open spec fn wf(self) -> bool {
        &&& self.params.valid()
        &&& self.best.wf(self.params.target)
        &&& self.iteration <= self.params.ceiling + 1
        &&& self.pending ==> self.iteration <= self.params.ceiling
        &&& 0 <= self.scale <= reach(self.params.target, self.iteration as int)
        &&& 0 <= self.best.scale <= reach(self.params.target, self.iteration as int)
        &&& -SCALE_ONE <= self.low < self.high
        &&& self.low <= self.scale <= self.high
        &&& self.high <= reach(self.params.target, self.iteration + 1)
    }

    /// The bracket at the start: `[0, 1]`, or, when the target is above the
    /// unscaled size, `[1, 1.05 * target / original]`.
    pub open spec fn initial_bracket(target: u64, original: u64) -> (int, int) {
        if target > original {
            (
                SCALE_ONE as int,
                (target as int * 1_050_000) / (if original == 0 { 1int } else { original as int }),
            )
        } else {
            (0, SCALE_ONE as int)
        }
    }

    /// Starts a search whose unscaled candidate encodes to `original` bytes.
    pub fn start(params: SearchParams, original: u64, ratio: CompressionRatio) -> (r: SearchEngine)
        requires
            params.valid(),
        ensures
            r.wf(),
            r.params == params,
            r.ratio == ratio,
            (r.low as int, r.high as int) == Self::initial_bracket(params.target, original),
            r.scale == SCALE_ONE,
            r.iteration == 0,
            r.best == (BestKnown {
                scale: SCALE_ONE,
                size: if original < params.target { params.target } else { original },
                deficit: None,
            }),
            r.last_size is None,
            !r.pending,
    {
        let (low, high) = if params.target > original {
            let div: u64 = if original == 0 { 1 } else { original };
            let h = (params.target as u128 * 1_050_000) / (div as u128);
            proof {
                let n = params.target as int * 1_050_000;
                let m = div as int;
                assert(n / m <= n) by (nonlinear_arith)
                    requires n >= 0, m >= 1;
                let t = params.target as int;
                assert(n / m >= 1_050_000) by (nonlinear_arith)
                    requires n == t * 1_050_000, t >= m, m >= 1;
            }
            (SCALE_ONE, h as i64)
        } else {
            (0i64, SCALE_ONE)
        };
        let size = if original < params.target { params.target } else { original };
        SearchEngine {
            params,
            ratio,
            low,
            high,
            scale: SCALE_ONE,
            iteration: 0,
            best: BestKnown { scale: SCALE_ONE, size, deficit: None },
            last_size: None,
            pending: false,
        }
    }

    /// Whether the loop goes on to measure a candidate of `size` bytes: always
    /// on the first pass and while the candidate is above the target, and
    /// otherwise while the last measurement missed the tolerance or the
    /// ratio-scaled size.
    pub open spec fn keeps_going(self, size: u64) -> bool {
        ||| self.iteration == 0
        ||| size > self.params.target
        ||| match self.last_size {
            None => true,
            Some(s) => abs_diff(s as int, self.params.target as int) > self.params.tolerance
                || !self.ratio.scaled_is_one(s, self.params.target),
        }
    }

    pub fn continues(&self, size: u64) -> (r: bool)
        ensures
            r == self.keeps_going(size),
    {
        if self.iteration == 0 || size > self.params.target {
            return true;
        }
        match self.last_size {
            None => true,
            Some(s) => {
                let t = self.params.target;
                let d = if s <= t { t - s } else { s - t };
                d > self.params.tolerance || !self.ratio.is_scaled_one(s, t)
            },
        }
    }

    /// The search stops at a measurement of `size` bytes once the ceiling is
    /// passed; before that, never on the first pass nor over target, and
    /// otherwise once the bracket has collapsed or the size is within
    /// tolerance.
    pub open spec fn stops_at(self, size: u64) -> bool {
        ||| self.iteration > self.params.ceiling
        ||| {
            &&& self.iteration >= 1
            &&& size <= self.params.target
            &&& (collapsed(self.low as int, self.high as int) || abs_diff(
                size as int,
                self.params.target as int,
            ) < self.params.tolerance)
        }
    }

    /// The bracket after a measurement of `size` bytes that did not stop the
    /// search: the lower bound moves to just below the current scale when
    /// the candidate is under target, else the upper bound to just above it.
    pub open spec fn narrowed(self, size: u64) -> (int, int) {
        if size < self.params.target {
            (self.scale - step_at(self.iteration), self.high as int)
        } else {
            (self.low as int, self.scale + step_at(self.iteration))
        }
    }

    /// Takes in the measured size of the current candidate.
    pub fn record(&mut self, size: u64) -> (r: Step)
        requires
            old(self).wf(),
            !old(self).pending,
        ensures
            final(self).wf(),
            final(self).params == old(self).params,
            final(self).ratio == old(self).ratio,
            final(self).scale == old(self).scale,
            final(self).iteration == old(self).iteration,
            final(self).best == improved(old(self).best, old(self).scale, size, old(self).params.target),
            final(self).last_size == Some(size),
            (r == Step::Stop) <==> old(self).stops_at(size),
            r == Step::Stop ==> final(self).low == old(self).low && final(self).high == old(self).high
                && !final(self).pending,
            r != Step::Stop ==> {
                &&& final(self).pending
                &&& (final(self).low as int, final(self).high as int) == old(self).narrowed(size)
                &&& r == (Step::Sample { low: final(self).low, high: final(self).high })
            },
    {
        let t = self.params.target;
        if size <= t {
            let d = t - size;
            let better = match self.best.deficit {
                None => true,
                Some(bd) => d < bd,
            };
            if better {
                self.best = BestKnown { scale: self.scale, size, deficit: Some(d) };
            }
        }
        self.last_size = Some(size);
        let d = if size <= t { t - size } else { size - t };
        let settled = 20 * (self.high as i128 - self.low as i128) < self.high as i128 || d
            < self.params.tolerance;
        if self.iteration > self.params.ceiling || (self.iteration >= 1 && size <= t && settled) {
            return Step::Stop;
        }
        let step = SCALE_ONE / (self.iteration as i64 + 2);
        proof {
            let k = self.iteration as int + 2;
            assert(1 <= SCALE_ONE as int / k <= SCALE_ONE as int) by (nonlinear_arith)
                requires 2 <= k <= 20000;
        }
        if size < t {
            self.low = self.scale - step;
        } else {
            self.high = self.scale + step;
        }
        self.pending = true;
        Step::Sample { low: self.low, high: self.high }
    }

    /// Takes the scale drawn from the bracket that `record` handed out. A
    /// negative draw is dropped and the current scale kept.
    pub fn advance(&mut self, draw: i64)
        requires
            old(self).wf(),
            old(self).pending,
            old(self).low <= draw <= old(self).high,
        ensures
            final(self).wf(),
            final(self).scale == if draw < 0 { old(self).scale } else { draw },
            final(self).iteration == old(self).iteration + 1,
            !final(self).pending,
            final(self).params == old(self).params,
            final(self).ratio == old(self).ratio,
            final(self).low == old(self).low,
            final(self).high == old(self).high,
            final(self).best == old(self).best,
            final(self).last_size == old(self).last_size,
    {
        if draw >= 0 {
            self.scale = draw;
        }
        self.iteration = self.iteration + 1;
        self.pending = false;
    }
}

} // verus!
