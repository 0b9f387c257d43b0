//! The search over a unit: resize, encode and measure at each scale the
//! engine asks for, then encode once more at the best scale seen.
use vstd::prelude::*;
use rand::Rng;
use crate::engine::{
    best_after, reach, BestKnown, CompressionRatio, SearchEngine, SearchParams, Step,
    SCALE_ONE,
};
use crate::laws::lemma_fitting_candidate_kept;
use crate::media::{MediaError, ResizableUnit};

verus! {

/// Relies on rand's `thread_rng` and `Rng::gen_range` over an inclusive
/// range: the value lies within it.
#[verifier::external_body]
fn draw_between(low: i64, high: i64) -> (r: i64)
    requires
        low <= high,
    ensures
        low <= r <= high,
{
    rand::thread_rng().gen_range(low..=high)
}

/// What the compression estimate was made from: the unit encoded at its own
/// size, and those bytes decoded back.
pub struct CompressionEstimate {
    /// Encoded bytes over the decoded unit's raw pixel bytes.
    pub ratio: CompressionRatio,
    pub probe: Vec<u8>,
    pub decoded: ResizableUnit,
}

/// The ratio of `probe`'s length to `decoded`'s raw pixel bytes.
pub fn compression_ratio(probe: &Vec<u8>, decoded: &ResizableUnit) -> (r: CompressionRatio)
    requires
        decoded.wf(),
    ensures
        r.encoded == probe@.len(),
        r.raw == decoded.raw_len(),
{
    CompressionRatio { encoded: probe.len() as u64, raw: decoded.raw_bytes() }
}

/// Encodes the unit at its own size and decodes it back, to estimate how
/// well it compresses.
pub fn estimate_compression(unit: &ResizableUnit) -> (r: Result<CompressionEstimate, MediaError>)
    requires
        unit.wf(),
    ensures
        r is Ok ==> {
            let e = r->Ok_0;
            &&& e.decoded.wf()
            &&& e.decoded.is_sequence() == unit.is_sequence()
            &&& e.ratio.encoded == e.probe@.len()
            &&& e.ratio.raw == e.decoded.raw_len()
        },
        r is Err ==> !(r->Err_0 is DimensionOverflow),
        r is Err && !unit.is_sequence() ==> r->Err_0 is Codec,
{
    let probe = unit.encode()?;
    let decoded = unit.decode_like(probe.as_slice())?;
    let ratio = compression_ratio(&probe, &decoded);
    Ok(CompressionEstimate { ratio, probe, decoded })
}

/// The encoded size of `unit` scaled by `scale` millionths.
fn measure(base: &ResizableUnit, scale: i64) -> (r: Result<u64, MediaError>)
    requires
        base.wf(),
        0 <= scale <= i64::MAX / 4,
    ensures
        r is Err ==> r->Err_0 is Codec || r->Err_0 is DimensionOverflow,
        r is Err && r->Err_0 is DimensionOverflow ==> base.scaled_dims(scale as int) is None,
{
    let candidate = base.scaled(scale)?;
    let bytes = candidate.encode()?;
    Ok(bytes.len() as u64)
}

/// The best candidate before any measurement: the unscaled one, at the
/// larger of its size and the target.
pub open spec fn initial_best(original: u64, target: u64) -> BestKnown {
    BestKnown { scale: SCALE_ONE, size: if original < target { target } else { original }, deficit: None }
}

/// What a search produced.
pub struct SearchOutcome {
    /// The unit encoded at the best scale.
    pub bytes: Vec<u8>,
    /// The best candidate: its scale, measured size and shortfall.
    pub best: BestKnown,
    pub width: u32,
    pub height: u32,
    /// The encoded size of the unit before any resizing.
    pub original_size: u64,
    /// The compression estimate the search ran with.
    pub ratio: CompressionRatio,
    /// How many candidates were resized and encoded after the first.
    pub iterations: u32,
    /// Each measured candidate, `(scale, size)`, in order.
    pub measured: Vec<(i64, u64)>,
    /// Each draw, in order: the bracket's bounds `low` and `high`, the value
    /// drawn, and the scale before and after it.
    pub draws: Ghost<Seq<(i64, i64, i64, i64, i64)>>,
}

/// A draw lies within its bracket, and sets the scale unless it is negative,
/// which keeps the scale before it.
pub open spec fn draw_kept(d: (i64, i64, i64, i64, i64)) -> bool {
    let (low, high, draw, before, after) = d;
    &&& low <= draw <= high
    &&& after == if draw < 0 { before } else { draw }
    &&& low <= after <= high
}

/// Searches for the largest scale of `unit` whose encoding fits `params`'
/// target, and encodes `unit` at the best scale seen. The best candidate is
/// the running best over all measurements, which fits the target whenever
/// any measured candidate did; at most the ceiling plus one candidates are
/// drawn after the first, each from the bracket of its time. Apart from the
/// codec's own errors, the search fails only where some scale it could reach
/// gives a size that does not fit.
pub fn search_image(unit: &ResizableUnit, params: SearchParams) -> (r: Result<
    SearchOutcome,
    MediaError,
>)
    requires
        unit.wf(),
        params.valid(),
    ensures
        r is Ok ==> {
            let o = r->Ok_0;
            &&& o.iterations <= params.ceiling + 1
            &&& o.iterations <= o.measured@.len() <= o.iterations + 1
            &&& o.measured@.len() >= 1
            &&& o.measured@[0].0 == SCALE_ONE
            &&& o.original_size == o.ratio.encoded
            &&& o.best == best_after(initial_best(o.original_size, params.target), o.measured@, params.target)
            &&& Some((o.width, o.height)) == unit.scaled_dims(o.best.scale as int)
            &&& forall|j: int| 0 <= j < o.measured@.len() ==> 0 <= (#[trigger] o.measured@[j]).0
            &&& (exists|j: int| 0 <= j < o.measured@.len() && (#[trigger] o.measured@[j]).1 <= params.target)
                ==> o.best.deficit is Some && o.best.size <= params.target
            &&& o.draws@.len() == o.iterations
            &&& forall|j: int| 0 <= j < o.draws@.len() ==> draw_kept(#[trigger] o.draws@[j])
            &&& forall|j: int| 0 <= j < o.draws@.len() ==> (#[trigger] o.draws@[j]).3 == o.measured@[j].0
            &&& forall|j: int| 0 <= j < o.draws@.len() && j + 1 < o.measured@.len()
                ==> (#[trigger] o.draws@[j]).4 == o.measured@[j + 1].0
        },
        r is Err ==> match r->Err_0 {
            MediaError::Codec(_) => true,
            MediaError::DimensionOverflow => exists|s: int|
                0 <= s <= reach(params.target, params.ceiling + 1) && #[trigger] unit.scaled_dims(s)
                    is None,
            MediaError::EmptySequence | MediaError::MismatchedFrames => unit.is_sequence(),
        },
{
    let ratio = estimate_compression(unit)?.ratio;
    let original = ratio.encoded;
    let mut engine = SearchEngine::start(params, original, ratio);
    let mut size = measure(unit, SCALE_ONE)?;
    let mut measured: Vec<(i64, u64)> = Vec::new();
    let ghost init = initial_best(original, params.target);
    let ghost mut draws: Seq<(i64, i64, i64, i64, i64)> = Seq::empty();
    assert(measured@ =~= Seq::<(i64, u64)>::empty());
    loop
        invariant_except_break
            measured@.len() == engine.iteration,
        invariant
            unit.wf(),
            engine.wf(),
            !engine.pending,
            engine.params == params,
            engine.best == best_after(init, measured@, params.target),
            engine.iteration <= measured@.len() <= engine.iteration + 1,
            engine.iteration == 0 ==> engine.scale == SCALE_ONE,
            measured@.len() > 0 ==> measured@[0].0 == SCALE_ONE,
            draws.len() == engine.iteration,
            forall|j: int| 0 <= j < draws.len() ==> draw_kept(#[trigger] draws[j]),
            forall|j: int| 0 <= j < draws.len() ==> (#[trigger] draws[j]).3 == measured@[j].0,
            forall|j: int| 0 <= j < draws.len() && j + 1 < measured@.len()
                ==> (#[trigger] draws[j]).4 == measured@[j + 1].0,
            draws.len() > 0 ==> draws.last().4 == engine.scale,
            forall|j: int| 0 <= j < measured@.len() ==> 0 <= (#[trigger] measured@[j]).0,
        ensures
            measured@.len() >= 1,
        decreases params.ceiling + 2 - engine.iteration,
    {
        if !engine.continues(size) {
            break;
        }
        let ghost before = measured@;
        measured.push((engine.scale, size));
        assert(measured@.drop_last() =~= before);
        match engine.record(size) {
            Step::Stop => break,
            Step::Sample { low, high } => {
                let draw = draw_between(low, high);
                let ghost before = engine.scale;
                engine.advance(draw);
                proof {
                    draws = draws.push((low, high, draw, before, engine.scale));
                }
                size = measure(unit, engine.scale)?;
            },
        }
    }
    let best = engine.best;
    let last = unit.scaled(best.scale)?;
    let (width, height) = last.dimensions();
    let bytes = last.encode()?;
    proof {
        if exists|j: int| 0 <= j < measured@.len() && (#[trigger] measured@[j]).1 <= params.target {
            let j = choose|j: int| 0 <= j < measured@.len() && (#[trigger] measured@[j]).1 <= params.target;
            lemma_fitting_candidate_kept(init, measured@, params.target, j);
        }
    }
    Ok(SearchOutcome {
        bytes,
        best,
        width,
        height,
        original_size: original,
        ratio,
        iterations: engine.iteration,
        measured,
        draws: Ghost(draws),
    })
}

} // verus!
