//! Section bookkeeping of the vocal tract waveguide.
//!
//! A tract is a row of sections, each with a cross-sectional area, a
//! diameter, a reflection coefficient and two pairs of travelling-wave
//! samples.  The rows are allocated once; afterwards only their contents and
//! the number of sections in use change.  The sample type `T` is opaque here:
//! samples are stored and moved, never computed with.

use vstd::prelude::*;
use crate::rows::filled;

verus! {

/// Number of control values of the distinct region model.
pub const DRM_REGIONS: usize = 8;

/// Why a tract cannot be built or resized.
#[derive(Copy, Clone, Debug, PartialEq, Eq, Structural)]
pub enum TractError {
    /// The sample rate is zero.
    ZeroSampleRate,
    /// The oversampling factor is zero.
    ZeroOversample,
    /// The tract would have no section.
    ZeroSections,
}

/// The control value that governs section `i` of a tract with `n` sections.
///
/// From the glottis to the lips the eight regions take a tenth, a fifteenth,
/// two fifteenths, a fifth, a fifth, two fifteenths and a fifteenth of the
/// sections, each share rounded down; the last region takes its tenth and
/// every section that the rounding left over.
pub open spec fn region_of(n: int, i: int) -> int {
    let tenth = n / 10;
    let fifteenth = n / 15;
    let fifth = n / 5;
    if i < tenth {
        0
    } else if i < tenth + fifteenth {
        1
    } else if i < tenth + 3 * fifteenth {
        2
    } else if i < tenth + 3 * fifteenth + fifth {
        3
    } else if i < tenth + 3 * fifteenth + 2 * fifth {
        4
    } else if i < tenth + 5 * fifteenth + 2 * fifth {
        5
    } else if i < tenth + 6 * fifteenth + 2 * fifth {
        6
    } else {
        7
    }
}

/// Number of sections that the rounded shares of all eight regions cover.
pub open spec fn region_cover(n: int) -> int {
    2 * (n / 10) + 6 * (n / 15) + 2 * (n / 5)
}

/// The areas after the region values `regions` have been laid over the first
/// `n` sections of `areas`.
pub open spec fn drm_areas<T>(areas: Seq<T>, n: int, regions: Seq<T>) -> Seq<T> {
    Seq::new(
        areas.len(),
        |i: int|
            if i < n {
                regions[region_of(n, i)]
            } else {
                areas[i]
            },
    )
}

/// The number of sections in use after `sections` have been asked for of a
/// tract that was allocated with `capacity` sections.
pub open spec fn clamped_sections(sections: usize, capacity: usize) -> usize {
    if sections > capacity {
        capacity
    } else {
        sections
    }
}

pub struct Tract<T> {
    /// Wave travelling towards the glottis, one sample per section.
    pub left: Vec<T>,
    /// Wave travelling towards the lips, one sample per section.
    pub right: Vec<T>,
    /// Scattered leftward wave of the step in progress.
    pub junc_left: Vec<T>,
    /// Scattered rightward wave of the step in progress.
    pub junc_right: Vec<T>,
    /// Cross-sectional area of each section.
    pub areas: Vec<T>,
    /// Diameter of each section.
    pub diams: Vec<T>,
    /// Reflection coefficient at the glottal side of each section.
    pub reflections: Vec<T>,
    /// Number of sections in use.
    pub tractlen: usize,
    /// Number of sections allocated.
    pub tractlen_max: usize,
    /// Simulation steps per output sample.
    pub oversample: u16,
    /// Output sample rate in hertz.
    pub sr: usize,
}

/// Writes `value` into `count` sections starting at `start` and returns the
/// index after the last one written.
fn fill_run<T: Copy>(areas: &mut Vec<T>, start: usize, count: usize, value: T) -> (end: usize)
    requires
        start + count <= old(areas)@.len(),
    ensures
        end == start + count,
        final(areas)@.len() == old(areas)@.len(),
        forall|i: int|
            0 <= i < old(areas)@.len() ==> #[trigger] final(areas)@[i] == (if start <= i < end {
                value
            } else {
                old(areas)@[i]
            }),
{
    assert(areas@.len() == areas.len());
    let mut pos: usize = start;
    let end: usize = start + count;
    while pos < end
        invariant
            start <= pos <= end,
            end <= areas@.len(),
            areas@.len() == old(areas)@.len(),
            forall|i: int|
                0 <= i < areas@.len() ==> #[trigger] areas@[i] == (if start <= i < pos {
                    value
                } else {
                    old(areas)@[i]
                }),
        decreases end - pos,
    {
        areas[pos] = value;
        pos += 1;
    }
    pos
}

impl<T: Copy> Tract<T> {
    /// All seven rows have the allocated length, and between one and all of
    /// the allocated sections are in use.
    pub open spec fn wf(&self) -> bool {
        &&& self.left@.len() == self.tractlen_max
        &&& self.right@.len() == self.tractlen_max
        &&& self.junc_left@.len() == self.tractlen_max
        &&& self.junc_right@.len() == self.tractlen_max
        &&& self.areas@.len() == self.tractlen_max
        &&& self.diams@.len() == self.tractlen_max
        &&& self.reflections@.len() == self.tractlen_max
        &&& 1 <= self.tractlen <= self.tractlen_max
        &&& self.oversample >= 1
        &&& self.sr >= 1
    }

    /// The error that `new` reports for these settings, if any.  The sample
    /// rate is looked at first, then the oversampling factor, then the
    /// number of sections.
    pub open spec fn rejection(sr: usize, sections: usize, oversample: u16) -> Option<TractError> {
        if sr == 0 {
            Some(TractError::ZeroSampleRate)
        } else if oversample == 0 {
            Some(TractError::ZeroOversample)
        } else if sections == 0 {
            Some(TractError::ZeroSections)
        } else {
            None
        }
    }

    /// A tract of `sections` sections, all in use, every row filled with
    /// `silence`.
    pub fn new(sr: usize, sections: usize, oversample: u16, silence: T) -> (r: Result<
        Self,
        TractError,
    >)
        ensures
            match Self::rejection(sr, sections, oversample) {
                Some(e) => r == Err::<Self, TractError>(e),
                None => r is Ok && {
                    let t = r->Ok_0;
                    &&& t.wf()
                    &&& t.tractlen == sections
                    &&& t.tractlen_max == sections
                    &&& t.oversample == oversample
                    &&& t.sr == sr
                    &&& t.left@ == Seq::new(sections as nat, |i: int| silence)
                    &&& t.right@ == t.left@
                    &&& t.junc_left@ == t.left@
                    &&& t.junc_right@ == t.left@
                    &&& t.areas@ == t.left@
                    &&& t.diams@ == t.left@
                    &&& t.reflections@ == t.left@
                },
            },
    {
        if sr == 0 {
            return Err(TractError::ZeroSampleRate);
        }
        if oversample == 0 {
            return Err(TractError::ZeroOversample);
        }
        if sections == 0 {
            return Err(TractError::ZeroSections);
        }
        Ok(
            Tract {
                left: filled(silence, sections),
                right: filled(silence, sections),
                junc_left: filled(silence, sections),
                junc_right: filled(silence, sections),
                areas: filled(silence, sections),
                diams: filled(silence, sections),
                reflections: filled(silence, sections),
                tractlen: sections,
                tractlen_max: sections,
                oversample,
                sr,
            },
        )
    }

    /// Tells whether the tract is well formed.
    pub fn is_wf(&self) -> (b: bool)
        ensures
            b == self.wf(),
    {
        let n: usize = self.tractlen_max;
        self.left.len() == n && self.right.len() == n && self.junc_left.len() == n
            && self.junc_right.len() == n && self.areas.len() == n && self.diams.len() == n
            && self.reflections.len() == n && 1 <= self.tractlen && self.tractlen <= n
            && self.oversample >= 1 && self.sr >= 1
    }

    /// Lays the eight region values over the sections in use: the distinct
    /// region model.  Sections beyond those in use keep their areas, and
    /// nothing but the areas changes.
    pub fn drm(&mut self, regions: &[T])
        requires
            old(self).wf(),
            regions@.len() >= DRM_REGIONS,
        ensures
            final(self).wf(),
            final(self).areas@ == drm_areas(
                old(self).areas@,
                old(self).tractlen as int,
                regions@,
            ),
            *final(self) == (Tract { areas: final(self).areas, ..*old(self) }),
    {
        let n: usize = self.tractlen;
        let l_10: usize = n / 10;
        let l_15: usize = n / 15;
        let l_5: usize = n / 5;
        let mut pos: usize = 0;

        pos = fill_run(&mut self.areas, pos, l_10, regions[0]);
        pos = fill_run(&mut self.areas, pos, l_15, regions[1]);
        pos = fill_run(&mut self.areas, pos, 2 * l_15, regions[2]);
        pos = fill_run(&mut self.areas, pos, l_5, regions[3]);
        pos = fill_run(&mut self.areas, pos, l_5, regions[4]);
        pos = fill_run(&mut self.areas, pos, 2 * l_15, regions[5]);
        pos = fill_run(&mut self.areas, pos, l_15, regions[6]);
        pos = fill_run(&mut self.areas, pos, l_10, regions[7]);
        pos = fill_run(&mut self.areas, pos, n - pos, regions[7]);

        assert(self.areas@ =~= drm_areas(old(self).areas@, n as int, regions@));
    }

    /// Tells whether a side branch can join the tract at section `index`:
    /// the junction lies between section `index - 1` and section `index`
    /// and looks at the area of section `index + 1` too, so all three must
    /// be in use.
    pub fn admits_junction(&self, index: usize) -> (b: bool)
        ensures
            b == (1 <= index && index + 1 < self.tractlen),
    {
        1 <= index && index < self.tractlen && index + 1 < self.tractlen
    }

    /// Puts `sections` sections in use, or all that were allocated where
    /// fewer were.  A request for no section is refused and changes nothing.
    pub fn set_length(&mut self, sections: usize) -> (r: Result<(), TractError>)
        requires
            old(self).wf(),
        ensures
            final(self).wf(),
            sections == 0 ==> r == Err::<(), TractError>(TractError::ZeroSections) && *final(self)
                == *old(self),
            sections > 0 ==> r == Ok::<(), TractError>(()) && *final(self) == (Tract {
                tractlen: clamped_sections(sections, old(self).tractlen_max),
                ..*old(self)
            }),
    {
        if sections == 0 {
            return Err(TractError::ZeroSections);
        }
        if sections > self.tractlen_max {
            self.tractlen = self.tractlen_max;
        } else {
            self.tractlen = sections;
        }
        Ok(())
    }
}

/// Whatever holds of all eight control values holds of every section in use
/// after they have been laid over the tract: each such section carries one of
/// the eight.  Sections that are not in use keep their areas.
pub proof fn lemma_drm_sections_inherit<T>(
    areas: Seq<T>,
    n: int,
    regions: Seq<T>,
    holds: spec_fn(T) -> bool,
)
    requires
        0 <= n <= areas.len(),
        regions.len() >= DRM_REGIONS,
        forall|k: int| 0 <= k < DRM_REGIONS ==> holds(#[trigger] regions[k]),
    ensures
        drm_areas(areas, n, regions).len() == areas.len(),
        forall|i: int| 0 <= i < n ==> holds(#[trigger] drm_areas(areas, n, regions)[i]),
        forall|i: int| n <= i < areas.len() ==> #[trigger] drm_areas(areas, n, regions)[i] == areas[i],
{
    assert forall|i: int| 0 <= i < n implies holds(#[trigger] drm_areas(areas, n, regions)[i]) by {
        let k = region_of(n, i);
        assert(0 <= k < 8);
        assert(drm_areas(areas, n, regions)[i] == regions[k]);
    }
}

/// The rounded shares of the eight regions never cover more sections than
/// there are, and every section in use that they leave over carries the last
/// control value.
pub proof fn lemma_drm_leftover_is_last<T>(areas: Seq<T>, n: int, regions: Seq<T>)
    requires
        0 <= n <= areas.len(),
        regions.len() >= DRM_REGIONS,
    ensures
        0 <= region_cover(n) <= n,
        forall|i: int|
            region_cover(n) <= i < n ==> #[trigger] drm_areas(areas, n, regions)[i] == regions[7],
{
}

/// Laying the same control values over the tract a second time changes
/// nothing.
pub proof fn lemma_drm_idempotent<T>(areas: Seq<T>, n: int, regions: Seq<T>)
    requires
        0 <= n <= areas.len(),
        regions.len() >= DRM_REGIONS,
    ensures
        drm_areas(drm_areas(areas, n, regions), n, regions) == drm_areas(areas, n, regions),
{
    assert(drm_areas(drm_areas(areas, n, regions), n, regions) =~= drm_areas(areas, n, regions));
}

} // verus!
