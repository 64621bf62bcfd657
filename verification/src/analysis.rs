//! The integer side of the spectrum analyser: which plot columns the analysed
//! frequency bins land on, and from where each column takes its level when the
//! measured levels are spread over the 320 columns.
//!
//! The bins are log-spaced over the columns, so at low frequencies many
//! columns get no bin and at high frequencies many bins share a column. A
//! column with a bin shows its own level; a column between two such columns is
//! interpolated linearly between them; a column after the last one holds the
//! last level; a column before the first one shows the floor level (-80 dBFS).

use vstd::prelude::*;

verus! {

/// Number of samples per analysis frame.
pub const FFT_SIZE: usize = 1024;

/// Target sampling rate of the capture, in hertz.
pub const SAMPLE_RATE_HZ: usize = 40_000;

/// Lowest frequency shown, in hertz.
pub const BAND_LO_HZ: usize = 20;

/// Highest frequency shown, in hertz.
pub const BAND_HI_HZ: usize = 20_000;

/// The lowest bin analysed: the bin of `BAND_LO_HZ`, but never the DC bin.
pub open spec fn spec_first_bin() -> int {
    let k: int = (BAND_LO_HZ * FFT_SIZE) as int / SAMPLE_RATE_HZ as int;
    if k < 1 {
        1
    } else {
        k
    }
}

/// The highest bin analysed: the bin of `BAND_HI_HZ`, but never the Nyquist
/// bin or above.
pub open spec fn spec_last_bin() -> int {
    let k: int = (BAND_HI_HZ * FFT_SIZE) as int / SAMPLE_RATE_HZ as int;
    if k > FFT_SIZE / 2 - 1 {
        FFT_SIZE / 2 - 1
    } else {
        k
    }
}

/// The inclusive range of frequency bins worth computing: those whose
/// frequency lies in the audio band, without DC and Nyquist. With 1024
/// samples at 40 kHz that is bins 1 to 511.
pub fn analysed_bins() -> (r: (usize, usize))
    ensures
        r.0 == spec_first_bin(),
        r.1 == spec_last_bin(),
        r == (1usize, 511usize),
{
    let lo = BAND_LO_HZ * FFT_SIZE / SAMPLE_RATE_HZ;
    let hi = BAND_HI_HZ * FFT_SIZE / SAMPLE_RATE_HZ;
    let first = if lo < 1 {
        1
    } else {
        lo
    };
    let last = if hi > FFT_SIZE / 2 - 1 {
        FFT_SIZE / 2 - 1
    } else {
        hi
    };
    (first, last)
}

/// Number of plot columns the spectrum is spread over.
pub const COLUMNS: usize = 320;

/// Marks the columns that at least one frequency bin lands on. `columns`
/// holds the column of each bin; columns past the plot are ignored.
pub fn mark_known_pixels(columns: &[usize]) -> (known: Vec<bool>)
    ensures
        known@.len() == COLUMNS,
        forall|p: int|
            0 <= p < COLUMNS ==> (known@[p] <==> exists|j: int|
                0 <= j < columns@.len() && columns@[j] == p),
{
    let mut known: Vec<bool> = Vec::new();
    let mut p: usize = 0;
    while p < COLUMNS
        invariant
            p <= COLUMNS,
            known@.len() == p,
            forall|q: int| 0 <= q < p ==> !known@[q],
        decreases COLUMNS - p,
    {
        known.push(false);
        p = p + 1;
    }
    let n = columns.len();
    let mut j: usize = 0;
    while j < n
        invariant
            n == columns@.len(),
            j <= n,
            known@.len() == COLUMNS,
            forall|p: int|
                0 <= p < COLUMNS ==> (known@[p] <==> exists|k: int|
                    0 <= k < j && columns@[k] == p),
        decreases n - j,
    {
        let c = columns[j];
        if c < COLUMNS {
            known.set(c, true);
        }
        proof {
            assert forall|p: int| 0 <= p < COLUMNS implies (known@[p] <==> exists|k: int|
                0 <= k < j + 1 && columns@[k] == p) by {
                if columns@[j as int] == p {
                    assert(0 <= j < j + 1 && columns@[j as int] == p);
                }
                if exists|k: int| 0 <= k < j + 1 && columns@[k] == p {
                    let k = choose|k: int| 0 <= k < j + 1 && columns@[k] == p;
                    if k < j {
                        assert(exists|k: int| 0 <= k < j && columns@[k] == p);
                    }
                }
            }
        }
        j = j + 1;
    }
    known
}

/// Where a plot column takes its level from.
#[derive(Clone, Copy, PartialEq, Eq, Debug, Structural)]
pub enum PixelSource {
    /// No column at or before this one known a bin: the floor level.
    Floor,
    /// The column known a bin: its own level.
    Known(usize),
    /// Linear interpolation between the nearest columns with a bin on either
    /// side.
    Between { left: usize, right: usize },
    /// No column after this one known a bin: the level of the last one that known.
    Hold(usize),
}

/// No column in `lo..hi` known a bin.
pub open spec fn none_known(known: Seq<bool>, lo: int, hi: int) -> bool {
    forall|j: int| lo <= j < hi ==> !known[j]
}

/// `src` is where column `i` takes its level from.
pub open spec fn source_of(known: Seq<bool>, i: int, src: PixelSource) -> bool {
    match src {
        PixelSource::Floor => none_known(known, 0, i + 1),
        PixelSource::Known(k) => k == i && known[i],
        PixelSource::Between { left, right } => left < i < right < known.len() && known[left as int]
            && known[right as int] && none_known(known, left + 1, right as int),
        PixelSource::Hold(left) => left < i && known[left as int] && none_known(
            known,
            left + 1,
            known.len() as int,
        ),
    }
}

/// Works out, for each column, where it takes its level from, given which
/// columns have a bin.
pub fn fill_plan(known: &[bool]) -> (plan: Vec<PixelSource>)
    ensures
        plan@.len() == known@.len(),
        forall|i: int| 0 <= i < known@.len() ==> source_of(known@, i, #[trigger] plan@[i]),
{
    let n = known.len();
    let mut plan: Vec<PixelSource> = Vec::new();
    let mut i: usize = 0;
    while i < n
        invariant
            i <= n,
            plan@.len() == i,
            forall|k: int| 0 <= k < i ==> plan@[k] == PixelSource::Floor,
        decreases n - i,
    {
        plan.push(PixelSource::Floor);
        i = i + 1;
    }
    let mut left: Option<usize> = None;
    let mut px: usize = 0;
    while px < n
        invariant
            n == known@.len(),
            px <= n,
            plan@.len() == n,
            left matches Some(l) ==> l < px && known@[l as int] && none_known(
                known@,
                l + 1,
                px as int,
            ),
            left is None ==> none_known(known@, 0, px as int),
            forall|k: int|
                0 <= k < px ==> (if left matches Some(l) && k > l {
                    plan@[k] == PixelSource::Floor
                } else {
                    source_of(known@, k, plan@[k])
                }),
            forall|k: int| px <= k < n ==> plan@[k] == PixelSource::Floor,
        decreases n - px,
    {
        if known[px] {
            if let Some(lp) = left {
                let mut k: usize = lp + 1;
                while k < px
                    invariant
                        n == known@.len(),
                        lp < k <= px < n,
                        plan@.len() == n,
                        known@[lp as int],
                        known@[px as int],
                        none_known(known@, lp + 1, px as int),
                        forall|q: int|
                            0 <= q <= lp ==> source_of(known@, q, plan@[q]),
                        forall|q: int|
                            lp < q < k ==> plan@[q] == (PixelSource::Between { left: lp, right: px }),
                        forall|q: int| k <= q < n ==> plan@[q] == PixelSource::Floor,
                    decreases px - k,
                {
                    plan.set(k, PixelSource::Between { left: lp, right: px });
                    k = k + 1;
                }
            }
            plan.set(px, PixelSource::Known(px));
            left = Some(px);
        }
        px = px + 1;
    }
    if let Some(lp) = left {
        let mut k: usize = lp + 1;
        while k < n
            invariant
                n == known@.len(),
                lp < k <= n,
                plan@.len() == n,
                known@[lp as int],
                none_known(known@, lp + 1, n as int),
                forall|q: int| 0 <= q <= lp ==> source_of(known@, q, plan@[q]),
                forall|q: int| lp < q < k ==> plan@[q] == PixelSource::Hold(lp),
            decreases n - k,
        {
            plan.set(k, PixelSource::Hold(lp));
            k = k + 1;
        }
    }
    plan
}

/// The source of a column is unique: the contract of `fill_plan` leaves no
/// choice for any column.
pub proof fn lemma_source_unique(known: Seq<bool>, i: int, a: PixelSource, b: PixelSource)
    requires
        0 <= i < known.len(),
        source_of(known, i, a),
        source_of(known, i, b),
    ensures
        a == b,
{
    match (a, b) {
        (PixelSource::Between { left: l1, right: r1 }, PixelSource::Between { left: l2, right: r2 }) => {
            if l1 < l2 {
                assert(!known[l2 as int]);
            }
            if l2 < l1 {
                assert(!known[l1 as int]);
            }
            if r1 < r2 {
                assert(!known[r1 as int]);
            }
            if r2 < r1 {
                assert(!known[r2 as int]);
            }
        },
        (PixelSource::Hold(l1), PixelSource::Hold(l2)) => {
            if l1 < l2 {
                assert(!known[l2 as int]);
            }
            if l2 < l1 {
                assert(!known[l1 as int]);
            }
        },
        (PixelSource::Between { left, right }, PixelSource::Hold(l2)) => {
            assert(!known[right as int]);
        },
        (PixelSource::Hold(l1), PixelSource::Between { left, right }) => {
            assert(!known[right as int]);
        },
        (PixelSource::Floor, PixelSource::Between { left, right }) => {
            assert(!known[left as int]);
        },
        (PixelSource::Between { left, right }, PixelSource::Floor) => {
            assert(!known[left as int]);
        },
        (PixelSource::Floor, PixelSource::Hold(l)) => {
            assert(!known[l as int]);
        },
        (PixelSource::Hold(l), PixelSource::Floor) => {
            assert(!known[l as int]);
        },
        _ => {},
    }
}

} // verus!
