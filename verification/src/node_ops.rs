//! Simulated sensor emission.
//!
//! A reading describes the state of a small grid-tied battery: the grid
//! frequency, the battery's state of charge, and the power drawn from and fed
//! into the grid. Every quantity is held in fixed point, as a whole number of
//! tenths of its unit, so that a reading is an exact value: `600` stands for
//! 60.0 Hz and `5` for 0.5.
//!
//! Readings vary: each call draws a small whole-unit deviation from the
//! thread-local random generator and adds it to the nominal value. The
//! contracts therefore describe the set of readings that can come back, and the
//! functions that take the deviation as an argument say exactly which reading
//! belongs to which deviation.

use vstd::prelude::*;

verus! {

/// Tenths that make up one whole unit.
pub const TENTHS_PER_UNIT: i32 = 10;

/// Nominal grid frequency: 60.0 Hz.
pub const GRID_FREQUENCY: i32 = 600;

/// Nominal state of charge: 95.0 %.
pub const STATE_OF_CHARGE: i32 = 950;

/// Power drawn from the grid: 0.0.
pub const GRID_IMPORT: i32 = 0;

/// Power fed into the grid: 0.5.
pub const GRID_EXPORT: i32 = 5;

/// Bound on the deviation of the state of charge, in whole percent.
pub const MAX_START_VARIANCE: i16 = 5;

/// Bound on the deviation of the grid frequency, in whole hertz. The frequency
/// is the more sensitive quantity, so its bound is the tighter one.
pub const GRID_VARIANCE: i16 = 1;

/// One reading of the simulated sensor. All quantities but `variance` are in
/// tenths of their unit.
#[derive(Debug, Clone, Copy, PartialEq, Eq, Structural)]
pub struct GridStats {
    /// The bound, in whole hertz, within which the frequency was drawn.
    pub variance: i16,
    /// Grid frequency, in tenths of a hertz.
    pub frequency: i32,
    /// State of charge, in tenths of a percent.
    pub soc: i32,
    /// Power drawn from the grid, in tenths.
    pub import: i32,
    /// Power fed into the grid, in tenths.
    pub export: i32,
}

/// Whether `deviation` is one that a draw within `bound` can give: the draw is
/// taken from the half-open range `-bound .. bound`.
pub open spec fn within(bound: int, deviation: int) -> bool {
    -bound <= deviation < bound
}

/// The grid frequency, in tenths of a hertz, that deviates from the nominal
/// value by `deviation` whole hertz.
pub open spec fn frequency_of(deviation: int) -> int {
    GRID_FREQUENCY + TENTHS_PER_UNIT * deviation
}

/// The state of charge, in tenths of a percent, that deviates from the nominal
/// value by `deviation` whole percent.
pub open spec fn state_of_charge_of(deviation: int) -> int {
    STATE_OF_CHARGE + TENTHS_PER_UNIT * deviation
}

impl GridStats {
    /// The reading whose frequency deviates by `frequency_deviation` hertz and
    /// whose state of charge deviates by `charge_deviation` percent.
    pub open spec fn of(frequency_deviation: int, charge_deviation: int) -> GridStats {
        GridStats {
            variance: GRID_VARIANCE,
            frequency: frequency_of(frequency_deviation) as i32,
            soc: state_of_charge_of(charge_deviation) as i32,
            import: GRID_IMPORT,
            export: GRID_EXPORT,
        }
    }

    /// The readings that the sensor can emit: those whose two deviations lie
    /// within their bounds.
    pub open spec fn emitted(self) -> bool {
        exists|f: int, c: int|
            within(GRID_VARIANCE as int, f) && within(MAX_START_VARIANCE as int, c) && self
                == #[trigger] GridStats::of(f, c)
    }
}

/// Draws a whole number from the half-open range `low .. high`.
///
/// Trusted: calls `rand::rng()` and `rand::Rng::random_range` on the range
/// `low..high`. `random_range` panics on an empty range, which `requires` rules
/// out, and otherwise returns a sample of the range. Nothing is claimed about
/// which sample: two calls may differ. The generator seeds itself from the
/// operating system when a thread first uses it, and panics if it cannot.
#[verifier::external_body]
fn draw(low: i16, high: i16) -> (sample: i16)
    requires
        low < high,
    ensures
        low <= sample < high,
{
    rand::Rng::random_range(&mut rand::rng(), low..high)
}

/// The grid frequency at the given deviation from the nominal value.
pub fn frequency_with(deviation: i16) -> (tenths: i32)
    ensures
        tenths == frequency_of(deviation as int),
{
    GRID_FREQUENCY + TENTHS_PER_UNIT * (deviation as i32)
}

/// The state of charge at the given deviation from the nominal value.
pub fn state_of_charge_with(deviation: i16) -> (tenths: i32)
    ensures
        tenths == state_of_charge_of(deviation as int),
{
    STATE_OF_CHARGE + TENTHS_PER_UNIT * (deviation as i32)
}

/// A grid frequency, in tenths of a hertz, that deviates from the nominal value
/// by a freshly drawn number of whole hertz within [`GRID_VARIANCE`].
pub fn gen_grid_frequency() -> (tenths: i32)
    ensures
        exists|deviation: int|
            within(GRID_VARIANCE as int, deviation) && tenths == #[trigger] frequency_of(deviation),
{
    let deviation: i16 = draw(-GRID_VARIANCE, GRID_VARIANCE);
    frequency_with(deviation)
}

/// A state of charge, in tenths of a percent, that deviates from the nominal
/// value by a freshly drawn number of whole percent within
/// [`MAX_START_VARIANCE`].
pub fn gen_state_of_charge() -> (tenths: i32)
    ensures
        exists|deviation: int|
            within(MAX_START_VARIANCE as int, deviation) && tenths == #[trigger] state_of_charge_of(
                deviation,
            ),
{
    let deviation: i16 = draw(-MAX_START_VARIANCE, MAX_START_VARIANCE);
    state_of_charge_with(deviation)
}

/// The power drawn from the grid, which does not vary.
pub fn gen_grid_import() -> (tenths: i32)
    ensures
        tenths == GRID_IMPORT,
{
    GRID_IMPORT
}

/// The power fed into the grid, which does not vary.
pub fn gen_grid_export() -> (tenths: i32)
    ensures
        tenths == GRID_EXPORT,
{
    GRID_EXPORT
}

/// Trusted: declares `std::io::Error`, the error type of [`run`], as an opaque
/// type. Nothing is claimed of its values. The simulated sensor never fails; a
/// real one may.
#[verifier::external_type_specification]
#[verifier::external_body]
pub struct ExIoError(std::io::Error);

/// Takes one reading of the simulated sensor.
///
/// The frequency and the state of charge are drawn independently; the call
/// always succeeds, and what comes back is one of the readings described by
/// [`GridStats::emitted`].
pub fn run() -> (reading: Result<GridStats, std::io::Error>)
    ensures
        reading is Ok,
        reading->Ok_0.emitted(),
{
    let variance = GRID_VARIANCE;
    let freq = gen_grid_frequency();
    let soc = gen_state_of_charge();
    let import = gen_grid_import();
    let export = gen_grid_export();
    let stats = GridStats { variance, frequency: freq, soc, import, export };
    proof {
        let f = choose|f: int|
            within(GRID_VARIANCE as int, f) && freq == #[trigger] frequency_of(f);
        let c = choose|c: int|
            within(MAX_START_VARIANCE as int, c) && soc == #[trigger] state_of_charge_of(c);
        assert(stats == GridStats::of(f, c));
    }
    Ok(stats)
}

} // verus!
