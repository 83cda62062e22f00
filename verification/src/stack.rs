//! The transform/clip state stack.
//!
//! A [`State`] is the pair of the accumulated affine transform and the
//! optional clip rectangle. [`TransformClipStack`] owns the current
//! state plus a save/restore stack of unbounded depth, and computes
//! world-space placements for host nodes: the accumulated transform is
//! applied to a local point and the result is run through a fixed
//! vertical flip parameterized by the viewport height, because the host
//! renderer's vertical axis points up while the drawing contract's
//! points down.

use crate::affine::{
    apply_fits, compose_fits, in_i64, spec_apply, spec_compose, spec_identity, Affine, AffineModel,
};
use crate::geom::{Point, Rect};
use crate::Error;
use vstd::prelude::*;

verus! {

/// One saved drawing state: accumulated transform plus optional clip.
#[derive(Clone, Copy, Debug, PartialEq, Eq, Structural)]
pub struct State {
    pub transform: Affine,
    pub clip: Option<Rect>,
}

/// The mathematical value of a [`State`].
pub ghost struct StateModel {
    pub transform: AffineModel,
    pub clip: Option<Rect>,
}

impl View for State {
    type V = StateModel;

    open spec fn view(&self) -> StateModel {
        StateModel { transform: self.transform@, clip: self.clip }
    }
}

/// The current state, the saved states (innermost save last), and the
/// viewport height that parameterizes the vertical flip.
pub ghost struct StackModel {
    pub cur: StateModel,
    pub saved: Seq<StateModel>,
    pub height: int,
}

/// `save`: push a copy of the current state; the current state is kept.
pub open spec fn spec_save(s: StackModel) -> StackModel {
    StackModel { cur: s.cur, saved: s.saved.push(s.cur), height: s.height }
}

/// `restore`: pop the last saved state and install it.
pub open spec fn spec_restore(s: StackModel) -> StackModel
    recommends
        s.saved.len() > 0,
{
    StackModel { cur: s.saved.last(), saved: s.saved.drop_last(), height: s.height }
}

/// `compose`: apply `delta` in the caller's local space, composing it
/// with (not replacing) the accumulated transform.
pub open spec fn spec_compose_state(s: StackModel, delta: AffineModel) -> StackModel {
    StackModel {
        cur: StateModel { transform: spec_compose(s.cur.transform, delta), clip: s.cur.clip },
        saved: s.saved,
        height: s.height,
    }
}

/// `set_clip`: replace the current clip outright. Nested clips are not
/// intersected with the outer clip; replace-semantics is the documented
/// behaviour of this backend.
pub open spec fn spec_set_clip(s: StackModel, clip: Option<Rect>) -> StackModel {
    StackModel {
        cur: StateModel { transform: s.cur.transform, clip },
        saved: s.saved,
        height: s.height,
    }
}

/// The world placement for local point `(px, py)`: the linear part of
/// the accumulated transform, with the transformed point as the
/// translation, vertically flipped against the viewport height.
pub open spec fn spec_place(s: StackModel, px: int, py: int) -> AffineModel {
    let q = spec_apply(s.cur.transform, px, py);
    AffineModel {
        a: s.cur.transform.a,
        b: s.cur.transform.b,
        c: s.cur.transform.c,
        d: s.cur.transform.d,
        e: q.0,
        f: s.height - q.1,
    }
}

/// Overflow-freedom condition for [`spec_place`].
pub open spec fn place_fits(s: StackModel, px: int, py: int) -> bool {
    &&& apply_fits(s.cur.transform, px, py)
    &&& in_i64(s.height - spec_apply(s.cur.transform, px, py).1)
}

/// The save/restore stack with the current drawing state.
#[derive(Debug)]
pub struct TransformClipStack {
    pub state: State,
    pub stack: Vec<State>,
    pub height: i64,
}

impl View for TransformClipStack {
    type V = StackModel;

    open spec fn view(&self) -> StackModel {
        StackModel {
            cur: self.state@,
            saved: self.stack@.map_values(|s: State| s@),
            height: self.height as int,
        }
    }
}

impl TransformClipStack {
    /// A fresh stack: identity transform, no clip, nothing saved.
    /// `height` is the height of the drawable area in logical units.
    pub fn new(height: i64) -> (r: TransformClipStack)
        ensures
            r@.cur.transform == spec_identity(),
            r@.cur.clip is None,
            r@.saved.len() == 0,
            r@.height == height,
    {
        let r = TransformClipStack {
            state: State { transform: Affine::identity(), clip: None },
            stack: Vec::new(),
            height,
        };
        proof {
            assert(r@.saved =~= Seq::<StateModel>::empty());
        }
        r
    }

    pub fn current_transform(&self) -> (r: Affine)
        ensures
            r@ == self@.cur.transform,
    {
        self.state.transform
    }

    pub fn current_clip(&self) -> (r: Option<Rect>)
        ensures
            r == self@.cur.clip,
    {
        self.state.clip
    }

    /// How many saves are outstanding.
    pub fn depth(&self) -> (r: usize)
        ensures
            r == self@.saved.len(),
    {
        self.stack.len()
    }

    /// Push a copy of the current state. Unbounded depth; never fails.
    pub fn save(&mut self) -> (r: Result<(), Error>)
        ensures
            r is Ok,
            final (self)@ == spec_save(old(self)@),
    {
        let saved = State { transform: self.state.transform, clip: self.state.clip };
        self.stack.push(saved);
        proof {
            assert(final (self)@.saved =~= spec_save(old(self)@).saved);
        }
        Ok(())
    }

    /// Pop and install the last saved state. With an empty stack this
    /// fails with `StackUnderflow` and changes nothing.
    pub fn restore(&mut self) -> (r: Result<(), Error>)
        ensures
            old(self)@.saved.len() == 0 ==> r == Err::<(), Error>(Error::StackUnderflow) && final (
            self)@ == old(self)@,
            old(self)@.saved.len() > 0 ==> r == Ok::<(), Error>(()) && final (self)@ == spec_restore(
                old(self)@,
            ),
    {
        match self.stack.pop() {
            Some(state) => {
                self.state = state;
                proof {
                    assert(final (self)@.saved =~= spec_restore(old(self)@).saved);
                }
                Ok(())
            },
            None => Err(Error::StackUnderflow),
        }
    }

    /// Compose `delta` onto the accumulated transform.
    pub fn compose(&mut self, delta: &Affine)
        requires
            compose_fits(old(self)@.cur.transform, delta@),
        ensures
            final (self)@ == spec_compose_state(old(self)@, delta@),
    {
        self.state.transform = self.state.transform.compose(delta);
    }

    /// Replace the current clip with `rect`.
    pub fn set_clip(&mut self, rect: Rect)
        ensures
            final (self)@ == spec_set_clip(old(self)@, Some(rect)),
    {
        self.state.clip = Some(rect);
    }

    /// Drop any current clip.
    pub fn clear_clip(&mut self)
        ensures
            final (self)@ == spec_set_clip(old(self)@, None),
    {
        self.state.clip = None;
    }

    /// The world placement of the local point `p`; see [`spec_place`].
    pub fn place(&self, p: Point) -> (r: Affine)
        requires
            place_fits(self@, p.x as int, p.y as int),
        ensures
            r@ == spec_place(self@, p.x as int, p.y as int),
    {
        let q = self.state.transform.apply(p);
        Affine {
            a: self.state.transform.a,
            b: self.state.transform.b,
            c: self.state.transform.c,
            d: self.state.transform.d,
            e: q.x,
            f: self.height - q.y,
        }
    }
}

/// `n` saves in a row.
pub open spec fn spec_save_n(s: StackModel, n: nat) -> StackModel
    decreases n,
{
    if n == 0 {
        s
    } else {
        spec_save(spec_save_n(s, (n - 1) as nat))
    }
}

/// `n` restores in a row.
pub open spec fn spec_restore_n(s: StackModel, n: nat) -> StackModel
    decreases n,
{
    if n == 0 {
        s
    } else {
        spec_restore_n(spec_restore(s), (n - 1) as nat)
    }
}

/// A restore undoes the matching save even if the current state was
/// changed arbitrarily in between: any state `u` whose saved stack is
/// the one left by `save` on `s` restores to the transform and clip `s`
/// had before the save.
pub proof fn lemma_restore_after_save(s: StackModel, u: StackModel)
    requires
        u.saved == spec_save(s).saved,
    ensures
        spec_restore(u).cur == s.cur,
        spec_restore(u).saved == s.saved,
{
    assert(u.saved.last() == s.cur);
    assert(u.saved.drop_last() =~= s.saved);
}

/// For any sequence of `n` `save`s followed by `n` `restore`s, the
/// final transform and clip (and the whole stack) equal their pre-save
/// values.
pub proof fn lemma_save_restore_n(s: StackModel, n: nat)
    ensures
        spec_restore_n(spec_save_n(s, n), n) == s,
    decreases n,
{
    if n > 0 {
        let prev = spec_save_n(s, (n - 1) as nat);
        assert(spec_restore(spec_save(prev)).saved =~= prev.saved);
        assert(spec_restore(spec_save(prev)) == prev);
        lemma_save_restore_n(s, (n - 1) as nat);
        assert(spec_restore_n(spec_save_n(s, n), n) == spec_restore_n(
            spec_restore(spec_save(prev)),
            (n - 1) as nat,
        ));
    }
}

} // verus!
