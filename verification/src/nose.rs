//! Section bookkeeping of the nasal tract waveguide.
//!
//! The nasal tract is a second, shorter row of sections.  It is open at the
//! nostrils and meets the vocal tract at the velum, whose opening is its one
//! control.  As in the vocal tract, the rows are allocated once and the
//! sample type `T` is only stored and moved.

use vstd::prelude::*;
use crate::rows::filled;
use crate::tract::{TractError, clamped_sections};

verus! {

pub struct Nose<T> {
    /// Wave travelling towards the velum, one sample per section.
    pub left: Vec<T>,
    /// Wave travelling towards the nostrils, one sample per section.
    pub right: Vec<T>,
    /// Scattered leftward wave of the step in progress.
    pub junc_left: Vec<T>,
    /// Scattered rightward wave of the step in progress.
    pub junc_right: Vec<T>,
    /// Cross-sectional area of each section.
    pub areas: Vec<T>,
    /// Diameter of each section.
    pub diams: Vec<T>,
    /// Reflection coefficient at the velar side of each section.
    pub reflections: Vec<T>,
    /// Reflection coefficient of the junction towards the glottis.
    pub reflection_left: T,
    /// Reflection coefficient of the junction towards the lips.
    pub reflection_right: T,
    /// Reflection coefficient of the junction towards the nose.
    pub reflection_nose: T,
    /// Number of sections in use.
    pub length: usize,
    /// Number of sections allocated.
    pub length_max: usize,
    /// Opening of the velum.
    pub velum: T,
    /// Simulation steps per output sample.
    pub oversample: u16,
    /// Output sample rate in hertz.
    pub sr: usize,
}

impl<T: Copy> Nose<T> {
    /// All seven rows have the allocated length, and between one and all of
    /// the allocated sections are in use.
    pub open spec fn wf(&self) -> bool {
        &&& self.left@.len() == self.length_max
        &&& self.right@.len() == self.length_max
        &&& self.junc_left@.len() == self.length_max
        &&& self.junc_right@.len() == self.length_max
        &&& self.areas@.len() == self.length_max
        &&& self.diams@.len() == self.length_max
        &&& self.reflections@.len() == self.length_max
        &&& 1 <= self.length <= self.length_max
        &&& self.oversample >= 1
        &&& self.sr >= 1
    }

    /// The error that `new` reports for these settings, if any.  The sample
    /// rate is looked at first, then the oversampling factor, then the
    /// number of sections.
    pub open spec fn rejection(sr: usize, sections: usize, oversample: u16) -> Option<TractError> {
        if sr == 0 {
            Some(TractError::ZeroSampleRate)
        } else if oversample == 0 {
            Some(TractError::ZeroOversample)
        } else if sections == 0 {
            Some(TractError::ZeroSections)
        } else {
            None
        }
    }

    /// A nasal tract of `sections` sections, all in use, with every row,
    /// the three junction coefficients and the velum set to `silence`, which
    /// for the velum means closed.
    pub fn new(sr: usize, sections: usize, oversample: u16, silence: T) -> (r: Result<
        Self,
        TractError,
    >)
        ensures
            match Self::rejection(sr, sections, oversample) {
                Some(e) => r == Err::<Self, TractError>(e),
                None => r is Ok && {
                    let n = r->Ok_0;
                    &&& n.wf()
                    &&& n.length == sections
                    &&& n.length_max == sections
                    &&& n.oversample == oversample
                    &&& n.sr == sr
                    &&& n.velum == silence
                    &&& n.reflection_left == silence
                    &&& n.reflection_right == silence
                    &&& n.reflection_nose == silence
                    &&& n.left@ == Seq::new(sections as nat, |i: int| silence)
                    &&& n.right@ == n.left@
                    &&& n.junc_left@ == n.left@
                    &&& n.junc_right@ == n.left@
                    &&& n.areas@ == n.left@
                    &&& n.diams@ == n.left@
                    &&& n.reflections@ == n.left@
                },
            },
    {
        if sr == 0 {
            return Err(TractError::ZeroSampleRate);
        }
        if oversample == 0 {
            return Err(TractError::ZeroOversample);
        }
        if sections == 0 {
            return Err(TractError::ZeroSections);
        }
        Ok(
            Nose {
                left: filled(silence, sections),
                right: filled(silence, sections),
                junc_left: filled(silence, sections),
                junc_right: filled(silence, sections),
                areas: filled(silence, sections),
                diams: filled(silence, sections),
                reflections: filled(silence, sections),
                reflection_left: silence,
                reflection_right: silence,
                reflection_nose: silence,
                length: sections,
                length_max: sections,
                velum: silence,
                oversample,
                sr,
            },
        )
    }

    /// Tells whether the nasal tract is well formed.
    pub fn is_wf(&self) -> (b: bool)
        ensures
            b == self.wf(),
    {
        let n: usize = self.length_max;
        self.left.len() == n && self.right.len() == n && self.junc_left.len() == n
            && self.junc_right.len() == n && self.areas.len() == n && self.diams.len() == n
            && self.reflections.len() == n && 1 <= self.length && self.length <= n
            && self.oversample >= 1 && self.sr >= 1
    }

    /// Sets the opening of the velum.  It takes effect when the junction
    /// with the vocal tract is next computed.
    pub fn set_velum(&mut self, velum: T)
        ensures
            *final(self) == (Nose { velum, ..*old(self) }),
    {
        self.velum = velum;
    }

    /// Puts `sections` sections in use, or all that were allocated where
    /// fewer were.  A request for no section is refused and changes nothing.
    pub fn set_length(&mut self, sections: usize) -> (r: Result<(), TractError>)
        requires
            old(self).wf(),
        ensures
            final(self).wf(),
            sections == 0 ==> r == Err::<(), TractError>(TractError::ZeroSections) && *final(self)
                == *old(self),
            sections > 0 ==> r == Ok::<(), TractError>(()) && *final(self) == (Nose {
                length: clamped_sections(sections, old(self).length_max),
                ..*old(self)
            }),
    {
        if sections == 0 {
            return Err(TractError::ZeroSections);
        }
        if sections > self.length_max {
            self.length = self.length_max;
        } else {
            self.length = sections;
        }
        Ok(())
    }
}

} // verus!
