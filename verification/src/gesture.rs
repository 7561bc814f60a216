//! Gesture sequencing: vertices, the gesture state they flow through and
//! the gestures that take their vertices from a path.
//!
//! A gesture moves from one target value to the next.  Each target is a
//! vertex: the value itself, the rate at which the segment towards it is
//! traversed (a ratio of two integers) and the behaviour of the segment.  The
//! value type `T` is opaque here; it is carried from the caller to the
//! vertex and from the vertex to the gesture state.

use vstd::prelude::*;
use crate::ring::ring_successor;

verus! {

/// How a segment moves from its start value to its target.
#[derive(Copy, Clone, Debug, PartialEq, Eq, Structural)]
pub enum Behavior {
    Step,
    Linear,
    GlissTiny,
    GlissSmall,
    GlissMedium,
    GlissLarge,
    GlissHuge,
}

/// One target of a gesture.
#[derive(Debug)]
pub struct GestureVertex<T> {
    /// Target value.
    pub val: T,
    /// Numerator of the rate multiplier of the segment.
    pub num: u32,
    /// Denominator of the rate multiplier of the segment.
    pub den: u32,
    /// Behaviour of the segment.
    pub bhvr: Behavior,
}

impl<T: Copy> Clone for GestureVertex<T> {
    fn clone(&self) -> (r: Self)
        ensures
            r == *self,
    {
        *self
    }
}

impl<T: Copy> Copy for GestureVertex<T> {

}

/// The behaviour that the number `code` stands for, if it stands for one.
pub open spec fn behavior_of(code: u16) -> Option<Behavior> {
    if code == 0 {
        Some(Behavior::Step)
    } else if code == 1 {
        Some(Behavior::Linear)
    } else if code == 2 {
        Some(Behavior::GlissTiny)
    } else if code == 3 {
        Some(Behavior::GlissSmall)
    } else if code == 4 {
        Some(Behavior::GlissMedium)
    } else if code == 5 {
        Some(Behavior::GlissLarge)
    } else if code == 6 {
        Some(Behavior::GlissHuge)
    } else {
        None
    }
}

/// Decodes a behaviour from its number; a number that stands for none is
/// handed back as the error.
pub fn behavior_from_integer(bhvr: u16) -> (r: Result<Behavior, u16>)
    ensures
        r == (match behavior_of(bhvr) {
            Some(b) => Ok::<Behavior, u16>(b),
            None => Err::<Behavior, u16>(bhvr),
        }),
{
    match bhvr {
        0 => Ok(Behavior::Step),
        1 => Ok(Behavior::Linear),
        2 => Ok(Behavior::GlissTiny),
        3 => Ok(Behavior::GlissSmall),
        4 => Ok(Behavior::GlissMedium),
        5 => Ok(Behavior::GlissLarge),
        6 => Ok(Behavior::GlissHuge),
        _ => Err(bhvr),
    }
}

/// The part of a gesture's state that vertices flow through.
///
/// `prev` and `next` are the ends of the segment being traversed.
/// `behavior` shapes that segment and `next_behavior` the one after it.
/// `ratemul` is the rate multiplier, numerator then denominator, that the
/// segment after the current one will be traversed with.
#[derive(Debug)]
pub struct Gesture<T> {
    pub prev: T,
    pub next: T,
    pub ratemul: [u32; 2],
    pub behavior: Behavior,
    pub next_behavior: Behavior,
}

impl<T: Copy> Clone for Gesture<T> {
    fn clone(&self) -> (r: Self)
        ensures
            r == *self,
    {
        *self
    }
}

impl<T: Copy> Copy for Gesture<T> {

}

impl<T: Copy> Gesture<T> {
    /// A gesture at rest on `origin`, with a rate multiplier of one and a
    /// medium glissando as behaviour.
    pub fn new(origin: T) -> (g: Self)
        ensures
            g.prev == origin,
            g.next == origin,
            g.ratemul@ == seq![1u32, 1u32],
            g.behavior == Behavior::GlissMedium,
            g.next_behavior == Behavior::GlissMedium,
    {
        let g = Gesture {
            prev: origin,
            next: origin,
            ratemul: [1, 1],
            behavior: Behavior::GlissMedium,
            next_behavior: Behavior::GlissMedium,
        };
        assert(g.ratemul@ =~= seq![1u32, 1u32]);
        g
    }

    /// Starts the segment towards `vtx`.
    ///
    /// The old target becomes the start of the segment and the value of
    /// `vtx` its target.  The rate and the behaviour that arrived with the
    /// old target now come into force: the rate is returned for the caller
    /// to apply, the behaviour becomes the current one.  The rate and the
    /// behaviour of `vtx` are kept for the segment after this one.
    pub fn update(&mut self, vtx: &GestureVertex<T>) -> (applied: [u32; 2])
        ensures
            applied == old(self).ratemul,
            final(self).prev == old(self).next,
            final(self).next == vtx.val,
            final(self).ratemul@ == seq![vtx.num, vtx.den],
            final(self).behavior == old(self).next_behavior,
            final(self).next_behavior == vtx.bhvr,
    {
        let applied: [u32; 2] = self.ratemul;
        self.ratemul = [vtx.num, vtx.den];
        self.prev = self.next;
        self.next = vtx.val;
        self.behavior = self.next_behavior;
        self.next_behavior = vtx.bhvr;
        assert(self.ratemul@ =~= seq![vtx.num, vtx.den]);
        applied
    }
}

/// The vertex that a gesture without a path produces: linear, at rate one,
/// on `origin`.
pub open spec fn resting_vertex<T>(origin: T) -> GestureVertex<T> {
    GestureVertex { val: origin, num: 1, den: 1, bhvr: Behavior::Linear }
}

/// The position after the vertex at `pos` of a path of `len` vertices has
/// been taken, where the path stays on its last vertex.
pub open spec fn holding_successor(pos: int, len: int) -> int {
    if pos + 1 >= len {
        len - 1
    } else {
        pos + 1
    }
}

/// A gesture that walks a borrowed path of vertices round and round.
pub struct LinearGesture<'a, T> {
    gest: Gesture<T>,
    path: Option<&'a Vec<GestureVertex<T>>>,
    pos: usize,
    origin: T,
}

impl<'a, T> LinearGesture<'a, T> {
    #[verifier::type_invariant]
    spec fn inv(&self) -> bool {
        self.path is Some ==> self.pos < self.path->Some_0@.len()
    }

    /// The gesture state.
    pub closed spec fn gest_view(&self) -> Gesture<T> {
        self.gest
    }

    /// The path being walked, if one was given.
    pub closed spec fn path_view(&self) -> Option<Seq<GestureVertex<T>>> {
        match self.path {
            Some(p) => Some(p@),
            None => None,
        }
    }

    /// Index of the vertex that is taken next.
    pub closed spec fn pos_view(&self) -> int {
        self.pos as int
    }

    /// The value that the gesture rests on while it has no path.
    pub closed spec fn origin_view(&self) -> T {
        self.origin
    }
}

impl<'a, T: Copy> LinearGesture<'a, T> {
    /// A gesture at rest on `origin`, without a path.
    pub fn new(origin: T) -> (g: Self)
        ensures
            g.path_view() is None,
            g.pos_view() == 0,
            g.origin_view() == origin,
            g.gest_view().prev == origin,
            g.gest_view().next == origin,
            g.gest_view().ratemul@ == seq![1u32, 1u32],
            g.gest_view().behavior == Behavior::GlissMedium,
            g.gest_view().next_behavior == Behavior::GlissMedium,
    {
        LinearGesture { gest: Gesture::new(origin), path: None, pos: 0, origin }
    }

    /// Gives the gesture its path and starts the segment towards the vertex
    /// at the current position, which a fresh gesture has at the start of
    /// the path.  Returns the rate multiplier to apply to that segment.
    pub fn init(&mut self, path: &'a Vec<GestureVertex<T>>) -> (applied: [u32; 2])
        requires
            old(self).pos_view() < path@.len(),
        ensures
            final(self).path_view() == Some(path@),
            final(self).pos_view() == ring_successor(old(self).pos_view(), path@.len() as int),
            final(self).origin_view() == old(self).origin_view(),
            applied == old(self).gest_view().ratemul,
            final(self).gest_view().prev == old(self).gest_view().next,
            final(self).gest_view().next == path@[old(self).pos_view()].val,
            final(self).gest_view().ratemul@ == seq![
                path@[old(self).pos_view()].num,
                path@[old(self).pos_view()].den,
            ],
            final(self).gest_view().behavior == old(self).gest_view().next_behavior,
            final(self).gest_view().next_behavior == path@[old(self).pos_view()].bhvr,
    {
        self.path = Some(path);
        let a = self.next_vertex();
        self.update(&a)
    }

    /// The next vertex of the path; after the last one the path starts
    /// over.  Without a path the gesture produces its resting vertex.
    pub fn next_vertex(&mut self) -> (r: GestureVertex<T>)
        ensures
            final(self).path_view() == old(self).path_view(),
            final(self).gest_view() == old(self).gest_view(),
            final(self).origin_view() == old(self).origin_view(),
            match old(self).path_view() {
                Some(p) => 0 <= old(self).pos_view() < p.len() && r == p[old(self).pos_view()]
                    && final(self).pos_view() == ring_successor(
                    old(self).pos_view(),
                    p.len() as int,
                ),
                None => r == resting_vertex(old(self).origin_view()) && final(self).pos_view()
                    == old(self).pos_view(),
            },
    {
        proof {
            use_type_invariant(&*self);
        }
        match self.path {
            Some(x) => {
                let len: usize = x.len();
                let nxt = x[self.pos];
                if self.pos + 1 >= len {
                    self.pos = 0;
                } else {
                    self.pos = self.pos + 1;
                }
                nxt
            },
            None => GestureVertex { val: self.origin, num: 1, den: 1, bhvr: Behavior::Linear },
        }
    }

    /// Starts the segment towards `vtx`; see [`Gesture::update`].
    pub fn update(&mut self, vtx: &GestureVertex<T>) -> (applied: [u32; 2])
        ensures
            applied == old(self).gest_view().ratemul,
            final(self).gest_view().prev == old(self).gest_view().next,
            final(self).gest_view().next == vtx.val,
            final(self).gest_view().ratemul@ == seq![vtx.num, vtx.den],
            final(self).gest_view().behavior == old(self).gest_view().next_behavior,
            final(self).gest_view().next_behavior == vtx.bhvr,
            final(self).path_view() == old(self).path_view(),
            final(self).pos_view() == old(self).pos_view(),
            final(self).origin_view() == old(self).origin_view(),
    {
        proof {
            use_type_invariant(&*self);
        }
        let mut gest: Gesture<T> = self.gest;
        let applied: [u32; 2] = gest.update(vtx);
        self.gest = gest;
        applied
    }

    /// The gesture state.
    pub fn gest(&self) -> (g: Gesture<T>)
        ensures
            g == self.gest_view(),
    {
        self.gest
    }

    /// Index of the vertex that is taken next.
    pub fn pos(&self) -> (pos: usize)
        ensures
            pos == self.pos_view(),
            self.path_view() is Some ==> pos < self.path_view()->Some_0.len(),
    {
        proof {
            use_type_invariant(self);
        }
        self.pos
    }
}

/// A gesture that owns its path, which is built by appending vertices, and
/// walks it once: when the path is used up it stays on the last vertex.
pub struct LinearGestureBuilder<T> {
    gest: Gesture<T>,
    path: Vec<GestureVertex<T>>,
    pos: usize,
}

impl<T> LinearGestureBuilder<T> {
    /// The position is inside the path, or at its start while the path is
    /// empty.
    pub closed spec fn wf(&self) -> bool {
        self.pos < self.path@.len() || self.pos == 0
    }

    /// The gesture state.
    pub closed spec fn gest_view(&self) -> Gesture<T> {
        self.gest
    }

    /// The vertices appended so far.
    pub closed spec fn path_view(&self) -> Seq<GestureVertex<T>> {
        self.path@
    }

    /// Index of the vertex that is taken next.
    pub closed spec fn pos_view(&self) -> int {
        self.pos as int
    }
}

impl<T: Copy> LinearGestureBuilder<T> {
    /// A gesture at rest on `origin`, with an empty path.
    pub fn new(origin: T) -> (g: Self)
        ensures
            g.wf(),
            g.path_view() == Seq::<GestureVertex<T>>::empty(),
            g.pos_view() == 0,
            g.gest_view().prev == origin,
            g.gest_view().next == origin,
            g.gest_view().ratemul@ == seq![1u32, 1u32],
            g.gest_view().behavior == Behavior::GlissMedium,
            g.gest_view().next_behavior == Behavior::GlissMedium,
    {
        LinearGestureBuilder { gest: Gesture::new(origin), path: Vec::new(), pos: 0 }
    }

    /// Appends `vtx` to the path.
    pub fn append(&mut self, vtx: GestureVertex<T>)
        requires
            old(self).wf(),
        ensures
            final(self).wf(),
            final(self).path_view() == old(self).path_view().push(vtx),
            final(self).pos_view() == old(self).pos_view(),
            final(self).gest_view() == old(self).gest_view(),
    {
        self.path.push(vtx);
    }

    /// Ends the building of the path.  Where the path has a vertex, the
    /// segment towards the one at the current position is started and the
    /// rate multiplier to apply to it is returned; an empty path changes
    /// nothing.
    pub fn done(&mut self) -> (applied: Option<[u32; 2]>)
        requires
            old(self).wf(),
        ensures
            final(self).wf(),
            final(self).path_view() == old(self).path_view(),
            old(self).path_view().len() == 0 ==> applied is None && final(self).pos_view() == old(
                self,
            ).pos_view() && final(self).gest_view() == old(self).gest_view(),
            old(self).path_view().len() > 0 ==> {
                let vtx = old(self).path_view()[old(self).pos_view()];
                &&& 0 <= old(self).pos_view() < old(self).path_view().len()
                &&& applied == Some(old(self).gest_view().ratemul)
                &&& final(self).pos_view() == holding_successor(
                    old(self).pos_view(),
                    old(self).path_view().len() as int,
                )
                &&& final(self).gest_view().prev == old(self).gest_view().next
                &&& final(self).gest_view().next == vtx.val
                &&& final(self).gest_view().ratemul@ == seq![vtx.num, vtx.den]
                &&& final(self).gest_view().behavior == old(self).gest_view().next_behavior
                &&& final(self).gest_view().next_behavior == vtx.bhvr
            },
    {
        if !self.path.is_empty() {
            let a = self.next_vertex();
            Some(self.update(&a))
        } else {
            None
        }
    }

    /// The next vertex of the path; once the last one has been taken it is
    /// produced again and again.
    pub fn next_vertex(&mut self) -> (r: GestureVertex<T>)
        requires
            old(self).wf(),
            old(self).path_view().len() > 0,
        ensures
            final(self).wf(),
            0 <= old(self).pos_view() < old(self).path_view().len(),
            r == old(self).path_view()[old(self).pos_view()],
            final(self).pos_view() == holding_successor(
                old(self).pos_view(),
                old(self).path_view().len() as int,
            ),
            final(self).path_view() == old(self).path_view(),
            final(self).gest_view() == old(self).gest_view(),
    {
        let len: usize = self.path.len();
        let nxt = self.path[self.pos];
        if self.pos + 1 >= len {
            self.pos = len - 1;
        } else {
            self.pos = self.pos + 1;
        }
        nxt
    }

    /// Starts the segment towards `vtx`; see [`Gesture::update`].
    pub fn update(&mut self, vtx: &GestureVertex<T>) -> (applied: [u32; 2])
        requires
            old(self).wf(),
        ensures
            final(self).wf(),
            applied == old(self).gest_view().ratemul,
            final(self).gest_view().prev == old(self).gest_view().next,
            final(self).gest_view().next == vtx.val,
            final(self).gest_view().ratemul@ == seq![vtx.num, vtx.den],
            final(self).gest_view().behavior == old(self).gest_view().next_behavior,
            final(self).gest_view().next_behavior == vtx.bhvr,
            final(self).path_view() == old(self).path_view(),
            final(self).pos_view() == old(self).pos_view(),
    {
        self.gest.update(vtx)
    }

    /// The gesture state.
    pub fn gest(&self) -> (g: Gesture<T>)
        ensures
            g == self.gest_view(),
    {
        self.gest
    }

    /// Number of vertices appended so far.
    pub fn len(&self) -> (n: usize)
        ensures
            n == self.path_view().len(),
    {
        self.path.len()
    }
}

/// Appends the vertex made of `val`, the rate `num / den` and the behaviour
/// that the number `bhvr` stands for.  A number that stands for no behaviour
/// leaves the path as it is.
pub fn vb_gesture_append<T: Copy>(
    vb: &mut LinearGestureBuilder<T>,
    val: T,
    num: u32,
    den: u32,
    bhvr: u16,
)
    requires
        old(vb).wf(),
    ensures
        final(vb).wf(),
        final(vb).pos_view() == old(vb).pos_view(),
        final(vb).gest_view() == old(vb).gest_view(),
        final(vb).path_view() == (match behavior_of(bhvr) {
            Some(b) => old(vb).path_view().push(GestureVertex { val, num, den, bhvr: b }),
            None => old(vb).path_view(),
        }),
{
    match behavior_from_integer(bhvr) {
        Ok(b) => {
            vb.append(GestureVertex { val, num, den, bhvr: b });
        },
        Err(_) => {},
    }
}

/// The position reached from `pos` by taking `k` vertices of a path of
/// `len` vertices that stays on its last vertex.
pub open spec fn holding_advanced(pos: int, len: int, k: nat) -> int
    decreases k,
{
    if k == 0 {
        pos
    } else {
        holding_successor(holding_advanced(pos, len, (k - 1) as nat), len)
    }
}

/// A path that stays on its last vertex is walked once: after `k` vertices
/// the position has moved on by `k`, but not beyond the last vertex.
pub proof fn lemma_holding_advanced(pos: int, len: int, k: nat)
    requires
        0 <= pos < len,
    ensures
        holding_advanced(pos, len, k) == (if pos + k >= len {
            len - 1
        } else {
            pos + k
        }),
    decreases k,
{
    if k > 0 {
        lemma_holding_advanced(pos, len, (k - 1) as nat);
    }
}

} // verus!
