//! The touch-to-pointer translator: a stateful reducer that synthesizes
//! desktop-style left-click / right-click / drag / two-finger-pinch-zoom
//! semantics from a raw multi-touch stream.
//!
//! The host reports per-pointer phases (start, move, end) and the frame
//! driver calls `update` once per frame so that the long-press timer advances
//! with wall-clock time even when no touch event arrives. Times are
//! milliseconds supplied by the caller; positions are whole pixels.

use vstd::prelude::*;
use crate::input::{InputEvent, Pos, PtrButton};

verus! {

/// A single press within this squared pixel distance of its start stays a
/// candidate for a click.
pub const HOLD_RADIUS_SQ: i128 = 2500;

/// A stationary press held longer than this many milliseconds becomes a
/// right click.
pub const HOLD_MILLIS: u64 = 500;

/// A zoom event's delta in ten-thousandths is the squared-distance change
/// multiplied by this factor: delta = (d - prev_d) * 3 / 10000.
pub const ZOOM_NUM_E4: i128 = 3;

/// The largest squared distance of two pixel positions.
pub const DIST_SQ_MAX: i128 = 0x1_FFFF_FFFC_0000_0002;

/// The squared euclidean distance of two positions.
pub open spec fn dist_sq(a: Pos, b: Pos) -> int {
    (a.x - b.x) * (a.x - b.x) + (a.y - b.y) * (a.y - b.y)
}

/// Squares of values up to `m` in magnitude stay below `m * m`.
proof fn lemma_sq_bound(v: int, m: int)
    requires
        -m <= v <= m,
        0 <= m,
    ensures
        0 <= v * v <= m * m,
{
    assert(0 <= v * v <= m * m) by (nonlinear_arith)
        requires
            -m <= v <= m,
            0 <= m,
    ;
}

/// Computes the squared distance of two positions exactly.
pub fn dist_sq_px(a: Pos, b: Pos) -> (d: i128)
    ensures
        d == dist_sq(a, b),
        0 <= d <= DIST_SQ_MAX,
{
    proof {
        lemma_sq_bound(a.x - b.x, 0xFFFF_FFFF);
        lemma_sq_bound(a.y - b.y, 0xFFFF_FFFF);
    }
    let dx: i128 = a.x as i128 - b.x as i128;
    let dy: i128 = a.y as i128 - b.y as i128;
    dx * dx + dy * dy
}

/// The coordinate halfway between the smaller and the larger of two, rounded
/// toward the smaller.
pub open spec fn mid_coord(a: int, b: int) -> int {
    let lo = if a <= b {
        a
    } else {
        b
    };
    let hi = if a <= b {
        b
    } else {
        a
    };
    lo + (hi - lo) / 2
}

/// The axis-aligned midpoint of two positions: the center of their bounding
/// rectangle.
pub open spec fn midpoint(a: Pos, b: Pos) -> Pos {
    Pos { x: mid_coord(a.x as int, b.x as int) as i32, y: mid_coord(a.y as int, b.y as int) as i32 }
}

/// Computes the midpoint of two coordinates exactly.
pub fn mid_px(a: i32, b: i32) -> (m: i32)
    ensures
        m == mid_coord(a as int, b as int),
{
    let lo: i32 = if a <= b {
        a
    } else {
        b
    };
    let hi: i32 = if a <= b {
        b
    } else {
        a
    };
    let span: u32 = (hi as i64 - lo as i64) as u32;
    let m: i32 = (lo as i64 + (span / 2) as i64) as i32;
    m
}

/// The positions of the live pointers, in index order.
pub open spec fn actives(ptrs: Seq<Option<Pos>>) -> Seq<Pos>
    decreases ptrs.len(),
{
    if ptrs.len() == 0 {
        Seq::empty()
    } else {
        match ptrs[0] {
            Some(p) => seq![p] + actives(ptrs.skip(1)),
            None => actives(ptrs.skip(1)),
        }
    }
}

/// One for a live pointer slot, zero for a free one.
pub open spec fn active_bit(slot: Option<Pos>) -> int {
    match slot {
        Some(_) => 1,
        None => 0,
    }
}

/// Appending a slot appends its position (if live) to the live list.
pub proof fn lemma_actives_push(ptrs: Seq<Option<Pos>>, slot: Option<Pos>)
    ensures
        actives(ptrs.push(slot)) == actives(ptrs) + (match slot {
            Some(p) => seq![p],
            None => Seq::<Pos>::empty(),
        }),
    decreases ptrs.len(),
{
    if ptrs.len() == 0 {
        let one = ptrs.push(slot);
        assert(one.len() == 1 && one[0] == slot);
        assert(one.skip(1) =~= Seq::<Option<Pos>>::empty());
        assert(actives(one.skip(1)) == Seq::<Pos>::empty());
        match slot {
            Some(p) => {
                assert(actives(one) =~= actives(ptrs) + seq![p]);
            }
            None => {
                assert(actives(one) =~= actives(ptrs));
            }
        }
    } else {
        lemma_actives_push(ptrs.skip(1), slot);
        assert(ptrs.push(slot)[0] == ptrs[0]);
        assert(ptrs.push(slot).skip(1) =~= ptrs.skip(1).push(slot));
        match slot {
            Some(p) => {
                assert(actives(ptrs.push(slot)) =~= actives(ptrs) + seq![p]);
            }
            None => {
                assert(actives(ptrs.push(slot)) =~= actives(ptrs));
            }
        }
    }
}

/// There are never more live pointers than slots.
pub proof fn lemma_actives_le_len(ptrs: Seq<Option<Pos>>)
    ensures
        actives(ptrs).len() <= ptrs.len(),
    decreases ptrs.len(),
{
    if ptrs.len() > 0 {
        lemma_actives_le_len(ptrs.skip(1));
    }
}

/// Replacing one slot changes the number of live pointers by the difference
/// of the slot's live bits.
pub proof fn lemma_actives_update_len(ptrs: Seq<Option<Pos>>, idx: int, slot: Option<Pos>)
    requires
        0 <= idx < ptrs.len(),
    ensures
        actives(ptrs.update(idx, slot)).len() == actives(ptrs).len() - active_bit(ptrs[idx])
            + active_bit(slot),
    decreases ptrs.len(),
{
    if idx == 0 {
        assert(ptrs.update(0, slot).skip(1) =~= ptrs.skip(1));
    } else {
        lemma_actives_update_len(ptrs.skip(1), idx - 1, slot);
        assert(ptrs.update(idx, slot).skip(1) =~= ptrs.skip(1).update(idx - 1, slot));
        assert(ptrs.update(idx, slot)[0] == ptrs[0]);
    }
}

/// A sequence of slots padded with free slots up to a length.
pub open spec fn spec_pad(ptrs: Seq<Option<Pos>>, n: int) -> Seq<Option<Pos>> {
    ptrs + Seq::new((n - ptrs.len()) as nat, |i: int| None::<Pos>)
}

/// Padding with free slots leaves the live list unchanged.
pub proof fn lemma_actives_pad(ptrs: Seq<Option<Pos>>, n: int)
    requires
        ptrs.len() <= n,
    ensures
        actives(spec_pad(ptrs, n)) == actives(ptrs),
    decreases n - ptrs.len(),
{
    if n == ptrs.len() {
        assert(spec_pad(ptrs, n) =~= ptrs);
    } else {
        lemma_actives_push(ptrs, None);
        lemma_actives_pad(ptrs.push(None), n);
        assert(spec_pad(ptrs, n) =~= spec_pad(ptrs.push(None), n));
    }
}

/// An ongoing two-finger zoom gesture: the squared pointer distance at its
/// start, the squared distance at the last move, and the fixed anchor point.
#[derive(Clone, Copy, Debug, PartialEq, Eq, Structural)]
pub struct Zoom {
    pub start_dist_sq: i128,
    pub prev_dist_sq: i128,
    pub anchor: Pos,
}

/// The translator's state.
pub struct TouchTranslater {
    /// Suppresses the synthesized click on the next release.
    pub ignore_release: bool,
    /// When the current single-finger press began.
    pub last_press_millis: u64,
    /// The last position any pointer reported.
    pub last_pos: Pos,
    /// Where the current single-finger press began, while it stays within the
    /// hold radius.
    pub press_pos: Option<Pos>,
    /// Whether a single-finger press has remained within the hold radius.
    pub holding: bool,
    /// The number of live pointers.
    pub pointer_count: usize,
    /// Per-index pointer slots, padded with `None`.
    pub pointers: Vec<Option<Pos>>,
    /// The zoom gesture, while two or more pointers are live.
    pub zoom: Option<Zoom>,
}

/// The translator's state, mathematically.
pub struct TranslaterView {
    pub ignore_release: bool,
    pub last_press_millis: u64,
    pub last_pos: Pos,
    pub press_pos: Option<Pos>,
    pub holding: bool,
    pub pointer_count: nat,
    pub pointers: Seq<Option<Pos>>,
    pub zoom: Option<Zoom>,
}

impl View for TouchTranslater {
    type V = TranslaterView;

    open spec fn view(&self) -> TranslaterView {
        TranslaterView {
            ignore_release: self.ignore_release,
            last_press_millis: self.last_press_millis,
            last_pos: self.last_pos,
            press_pos: self.press_pos,
            holding: self.holding,
            pointer_count: self.pointer_count as nat,
            pointers: self.pointers@,
            zoom: self.zoom,
        }
    }
}

impl TranslaterView {
    /// The pointer count mirrors the live slots, a zoom gesture is present
    /// whenever two or more pointers are live, and its squared distances are
    /// genuine squared pixel distances.
    pub open spec fn wf(self) -> bool {
        &&& self.pointer_count == actives(self.pointers).len()
        &&& actives(self.pointers).len() >= 2 ==> self.zoom is Some
        &&& match self.zoom {
            Some(z) => 0 <= z.start_dist_sq <= DIST_SQ_MAX && 0 <= z.prev_dist_sq <= DIST_SQ_MAX,
            None => true,
        }
    }

    /// Whether a slot holds a live pointer at this index.
    pub open spec fn idx_active(self, idx: int) -> bool {
        0 <= idx < self.pointers.len() && self.pointers[idx] is Some
    }
}

/// Milliseconds elapsed from `t0` to `now`; zero when the clock went
/// backwards.
pub open spec fn elapsed(t0: u64, now: u64) -> int {
    if now >= t0 {
        now - t0
    } else {
        0
    }
}

/// The per-frame long-press check: a press still held after more than
/// `HOLD_MILLIS` becomes one right click, and the following release will not
/// click again.
pub open spec fn spec_update(s: TranslaterView, now: u64) -> (TranslaterView, Seq<InputEvent>) {
    if s.holding && elapsed(s.last_press_millis, now) > HOLD_MILLIS {
        (
            TranslaterView { ignore_release: true, holding: false, ..s },
            seq![InputEvent::Click(s.last_pos, PtrButton::Right)],
        )
    } else {
        (s, Seq::empty())
    }
}

/// A pointer going down. The first finger hovers and presses; the second
/// finger ends the single-finger gesture and opens a zoom gesture anchored at
/// the midpoint of the two pointers. A start on an already-live index is
/// ignored.
pub open spec fn spec_phase_start(s: TranslaterView, idx: int, pos: Pos, now: u64) -> (
    TranslaterView,
    Seq<InputEvent>,
) {
    if s.idx_active(idx) || idx < 0 {
        (s, Seq::empty())
    } else {
        let padded = if idx < s.pointers.len() {
            s.pointers
        } else {
            spec_pad(s.pointers, idx + 1)
        };
        let ptrs = padded.update(idx, Some(pos));
        if actives(ptrs).len() == 2 {
            let a = actives(ptrs)[0];
            let b = actives(ptrs)[1];
            let d = dist_sq(a, b) as i128;
            (
                TranslaterView {
                    press_pos: None,
                    ignore_release: true,
                    holding: false,
                    pointer_count: actives(ptrs).len(),
                    pointers: ptrs,
                    zoom: Some(Zoom { start_dist_sq: d, prev_dist_sq: d, anchor: midpoint(a, b) }),
                    ..s
                },
                seq![InputEvent::PointerLeft, InputEvent::Release(PtrButton::Left)],
            )
        } else {
            (
                TranslaterView {
                    pointer_count: actives(ptrs).len(),
                    pointers: ptrs,
                    last_pos: pos,
                    last_press_millis: now,
                    press_pos: Some(pos),
                    holding: true,
                    ignore_release: false,
                    ..s
                },
                seq![InputEvent::Hover(pos), InputEvent::Press(pos, PtrButton::Left)],
            )
        }
    }
}

/// A pointer moving. A lone pointer hovers; a press that strays past the hold
/// radius stops being a click candidate; with two pointers live, a changed
/// squared distance emits one zoom event against the gesture's anchor.
pub open spec fn spec_phase_move(s: TranslaterView, idx: int, pos: Pos) -> (
    TranslaterView,
    Seq<InputEvent>,
) {
    let hover_evs: Seq<InputEvent> = if s.pointer_count == 1 {
        seq![InputEvent::Hover(pos)]
    } else {
        Seq::empty()
    };
    let past_radius = match s.press_pos {
        Some(pp) => dist_sq(pp, pos) >= HOLD_RADIUS_SQ,
        None => false,
    };
    let press_pos = if past_radius {
        None
    } else {
        s.press_pos
    };
    let holding = if past_radius {
        false
    } else {
        s.holding
    };
    let ptrs = if s.idx_active(idx) {
        s.pointers.update(idx, Some(pos))
    } else {
        s.pointers
    };
    let s1 = TranslaterView { last_pos: pos, press_pos, holding, pointers: ptrs, ..s };
    if s.pointer_count == 2 {
        match s.zoom {
            Some(z) => {
                let a = actives(ptrs)[0];
                let b = actives(ptrs)[1];
                let d = dist_sq(a, b);
                let zoom_evs: Seq<InputEvent> = if d != z.start_dist_sq {
                    seq![InputEvent::Zoom(z.anchor, ((d - z.prev_dist_sq) * ZOOM_NUM_E4) as i128)]
                } else {
                    Seq::empty()
                };
                (
                    TranslaterView { zoom: Some(Zoom { prev_dist_sq: d as i128, ..z }), ..s1 },
                    hover_evs + zoom_evs,
                )
            },
            None => (s1, hover_evs),
        }
    } else {
        (s1, hover_evs)
    }
}

/// A pointer going up: a release, then — if the press stayed within the hold
/// radius and no long press fired — one left click at the lift position, then
/// the pointer leaves. The second-to-last finger lifting closes the zoom
/// gesture. An end on a free index is ignored.
pub open spec fn spec_phase_end(s: TranslaterView, idx: int, pos: Pos) -> (
    TranslaterView,
    Seq<InputEvent>,
) {
    if !s.idx_active(idx) {
        (s, Seq::empty())
    } else {
        let click_evs: Seq<InputEvent> = if !s.ignore_release && s.holding {
            seq![InputEvent::Click(pos, PtrButton::Left)]
        } else {
            Seq::empty()
        };
        let evs = seq![InputEvent::Release(PtrButton::Left)] + click_evs
            + seq![InputEvent::PointerLeft];
        let zoom = if s.pointer_count == 2 {
            None
        } else {
            s.zoom
        };
        (
            TranslaterView {
                press_pos: None,
                holding: false,
                zoom,
                pointers: s.pointers.update(idx, None),
                pointer_count: (s.pointer_count - 1) as nat,
                ..s
            },
            evs,
        )
    }
}

/// Grows the slot vector with free slots until `idx` is in range.
fn pad_to(ptrs: &mut Vec<Option<Pos>>, idx: usize)
    ensures
        final(ptrs)@ == if idx < old(ptrs)@.len() {
            old(ptrs)@
        } else {
            spec_pad(old(ptrs)@, idx + 1)
        },
        final(ptrs)@.len() > idx,
{
    proof {
        assert(ptrs@ =~= spec_pad(ptrs@, ptrs@.len() as int));
    }
    while ptrs.len() <= idx
        invariant
            old(ptrs)@.len() <= ptrs@.len(),
            ptrs@.len() <= idx + 1 || ptrs@.len() == old(ptrs)@.len(),
            ptrs@ == spec_pad(old(ptrs)@, ptrs@.len() as int),
        decreases idx + 1 - ptrs@.len(),
    {
        ptrs.push(None);
        proof {
            assert(ptrs@ =~= spec_pad(old(ptrs)@, ptrs@.len() as int));
        }
    }
    proof {
        if idx < old(ptrs)@.len() {
            assert(ptrs@ =~= old(ptrs)@);
        } else {
            assert(ptrs@ =~= spec_pad(old(ptrs)@, idx + 1));
        }
    }
}

/// Finds the first two live pointers, in index order.
fn first_two_active(ptrs: &Vec<Option<Pos>>) -> (r: Option<(Pos, Pos)>)
    ensures
        match r {
            Some(ab) => actives(ptrs@).len() >= 2 && ab.0 == actives(ptrs@)[0] && ab.1 == actives(
                ptrs@,
            )[1],
            None => actives(ptrs@).len() < 2,
        },
{
    let mut first: Option<Pos> = None;
    let mut second: Option<Pos> = None;
    let mut i: usize = 0;
    while i < ptrs.len()
        invariant
            i <= ptrs@.len(),
            second is Some ==> first is Some,
            ({
                let acts = actives(ptrs@.subrange(0, i as int));
                &&& (first is None ==> acts.len() == 0)
                &&& (first is Some && second is None ==> acts == seq![first->0])
                &&& (first is Some && second is Some ==> acts.len() >= 2 && acts[0] == first->0
                    && acts[1] == second->0)
            }),
        decreases ptrs@.len() - i,
    {
        let ghost prefix = ptrs@.subrange(0, i as int);
        let slot = ptrs[i];
        proof {
            lemma_actives_push(prefix, ptrs@[i as int]);
            assert(ptrs@.subrange(0, i + 1) =~= prefix.push(ptrs@[i as int]));
        }
        match slot {
            Some(p) => {
                if first.is_none() {
                    first = Some(p);
                } else if second.is_none() {
                    second = Some(p);
                }
            }
            None => {}
        }
        i = i + 1;
    }
    proof {
        assert(ptrs@.subrange(0, ptrs@.len() as int) =~= ptrs@);
    }
    match (first, second) {
        (Some(a), Some(b)) => Some((a, b)),
        _ => None,
    }
}

impl Default for TouchTranslater {
    /// The idle translator: no pointers, no press, no gesture.
    fn default() -> (t: Self)
        ensures
            t@ == TouchTranslater::idle(),
            t@.wf(),
    {
        let t = TouchTranslater {
            ignore_release: false,
            last_press_millis: 0,
            last_pos: Pos { x: 0, y: 0 },
            press_pos: None,
            holding: false,
            pointer_count: 0,
            pointers: Vec::new(),
            zoom: None,
        };
        proof {
            assert(actives(t.pointers@) =~= Seq::<Pos>::empty());
        }
        t
    }
}

impl TouchTranslater {
    /// The idle translator's state.
    pub open spec fn idle() -> TranslaterView {
        TranslaterView {
            ignore_release: false,
            last_press_millis: 0,
            last_pos: Pos { x: 0, y: 0 },
            press_pos: None,
            holding: false,
            pointer_count: 0,
            pointers: Seq::empty(),
            zoom: None,
        }
    }

    /// The once-per-frame long-press check.
    pub fn update(&mut self, now_millis: u64, out: &mut Vec<InputEvent>)
        ensures
            final(self)@ == spec_update(old(self)@, now_millis).0,
            final(out)@ == old(out)@ + spec_update(old(self)@, now_millis).1,
            old(self)@.wf() ==> final(self)@.wf(),
    {
        if self.holding && now_millis.saturating_sub(self.last_press_millis) > HOLD_MILLIS {
            out.push(InputEvent::Click(self.last_pos, PtrButton::Right));
            self.ignore_release = true;
            self.holding = false;
        }
    }

    /// A pointer going down.
    pub fn phase_start(&mut self, idx: usize, pos: Pos, now_millis: u64, out: &mut Vec<InputEvent>)
        requires
            old(self)@.wf(),
        ensures
            final(self)@ == spec_phase_start(old(self)@, idx as int, pos, now_millis).0,
            final(out)@ == old(out)@ + spec_phase_start(old(self)@, idx as int, pos, now_millis).1,
            final(self)@.wf(),
    {
        if idx < self.pointers.len() {
            if self.pointers[idx].is_some() {
                return;
            }
        }
        let ghost old_ptrs = self.pointers@;
        pad_to(&mut self.pointers, idx);
        let ghost padded = self.pointers@;
        self.pointers[idx] = Some(pos);
        proof {
            if idx >= old_ptrs.len() {
                lemma_actives_pad(old_ptrs, idx + 1);
                assert(padded[idx as int] is None);
            } else {
                assert(padded =~= old_ptrs);
            }
            assert(actives(padded) == actives(old_ptrs));
            lemma_actives_update_len(padded, idx as int, Some(pos));
            lemma_actives_le_len(self.pointers@);
            assert(actives(self.pointers@).len() == old(self)@.pointer_count + 1);
        }
        let slots = self.pointers.len();
        proof {
            assert(actives(self.pointers@).len() <= slots);
        }
        self.pointer_count = self.pointer_count + 1;

        if self.pointer_count == 2 {
            self.press_pos = None;
            self.ignore_release = true;
            self.holding = false;

            out.push(InputEvent::PointerLeft);
            out.push(InputEvent::Release(PtrButton::Left));

            let pair = first_two_active(&self.pointers);
            let (a, b) = match pair {
                Some(ab) => ab,
                None => unreached(),
            };
            let d = dist_sq_px(a, b);
            let anchor = Pos { x: mid_px(a.x, b.x), y: mid_px(a.y, b.y) };
            self.zoom = Some(Zoom { start_dist_sq: d, prev_dist_sq: d, anchor });
        } else {
            out.push(InputEvent::Hover(pos));
            out.push(InputEvent::Press(pos, PtrButton::Left));

            self.last_pos = pos;
            self.last_press_millis = now_millis;
            self.press_pos = Some(pos);
            self.holding = true;
            self.ignore_release = false;
        }
    }

    /// A pointer moving.
    pub fn phase_move(&mut self, idx: usize, pos: Pos, out: &mut Vec<InputEvent>)
        requires
            old(self)@.wf(),
        ensures
            final(self)@ == spec_phase_move(old(self)@, idx as int, pos).0,
            final(out)@ == old(out)@ + spec_phase_move(old(self)@, idx as int, pos).1,
            final(self)@.wf(),
    {
        self.last_pos = pos;
        if self.pointer_count == 1 {
            out.push(InputEvent::Hover(pos));
        }

        if let Some(pp) = self.press_pos {
            let press_dist = dist_sq_px(pp, pos);
            if press_dist >= HOLD_RADIUS_SQ {
                self.holding = false;
                self.press_pos = None;
            }
        }

        if idx < self.pointers.len() {
            if self.pointers[idx].is_some() {
                proof {
                    lemma_actives_update_len(self.pointers@, idx as int, Some(pos));
                }
                self.pointers[idx] = Some(pos);
            }
        }

        if self.pointer_count == 2 {
            let pair = first_two_active(&self.pointers);
            let (a, b) = match pair {
                Some(ab) => ab,
                None => unreached(),
            };
            let d = dist_sq_px(a, b);
            if let Some(z) = &mut self.zoom {
                if d != z.start_dist_sq {
                    out.push(InputEvent::Zoom(z.anchor, (d - z.prev_dist_sq) * ZOOM_NUM_E4));
                }
                z.prev_dist_sq = d;
            }
        }
    }

    /// A pointer going up.
    pub fn phase_end(&mut self, idx: usize, pos: Pos, out: &mut Vec<InputEvent>)
        requires
            old(self)@.wf(),
        ensures
            final(self)@ == spec_phase_end(old(self)@, idx as int, pos).0,
            final(out)@ == old(out)@ + spec_phase_end(old(self)@, idx as int, pos).1,
            final(self)@.wf(),
    {
        let live = idx < self.pointers.len() && self.pointers[idx].is_some();
        if !live {
            return;
        }

        out.push(InputEvent::Release(PtrButton::Left));

        // If the pointer has been held still and no long press fired, this
        // release is a left click.
        if !self.ignore_release && self.holding {
            out.push(InputEvent::Click(pos, PtrButton::Left));
        }
        self.press_pos = None;
        self.holding = false;
        out.push(InputEvent::PointerLeft);

        if self.pointer_count == 2 {
            self.zoom = None;
        }

        proof {
            lemma_actives_update_len(self.pointers@, idx as int, None);
        }
        self.pointers[idx] = None;
        self.pointer_count = self.pointer_count - 1;
    }
}

/// One translator call: the gesture laws quantify over sequences of these.
#[derive(Clone, Copy, Debug, PartialEq, Eq, Structural)]
pub enum TouchOp {
    Start { idx: usize, pos: Pos, now: u64 },
    MovePtr { idx: usize, pos: Pos },
    End { idx: usize, pos: Pos },
    Update { now: u64 },
}

/// The translator state and emitted events after one call.
pub open spec fn touch_step(s: TranslaterView, op: TouchOp) -> (TranslaterView, Seq<InputEvent>) {
    match op {
        TouchOp::Start { idx, pos, now } => spec_phase_start(s, idx as int, pos, now),
        TouchOp::MovePtr { idx, pos } => spec_phase_move(s, idx as int, pos),
        TouchOp::End { idx, pos } => spec_phase_end(s, idx as int, pos),
        TouchOp::Update { now } => spec_update(s, now),
    }
}

/// The translator state and emitted events after a sequence of calls.
pub open spec fn touch_run(s: TranslaterView, ops: Seq<TouchOp>) -> (TranslaterView, Seq<InputEvent>)
    decreases ops.len(),
{
    if ops.len() == 0 {
        (s, Seq::empty())
    } else {
        let first = touch_step(s, ops[0]);
        let rest = touch_run(first.0, ops.skip(1));
        (rest.0, first.1 + rest.1)
    }
}

/// Runs compose: a run over concatenated calls is the run over the first part
/// followed by the run over the second.
pub proof fn lemma_touch_run_concat(s: TranslaterView, a: Seq<TouchOp>, b: Seq<TouchOp>)
    ensures
        ({
            let first = touch_run(s, a);
            let rest = touch_run(first.0, b);
            touch_run(s, a + b) == (rest.0, first.1 + rest.1)
        }),
    decreases a.len(),
{
    if a.len() == 0 {
        assert(a + b =~= b);
        assert(touch_run(s, a).1 + touch_run(touch_run(s, a).0, b).1 =~= touch_run(s, b).1);
    } else {
        let step = touch_step(s, a[0]);
        lemma_touch_run_concat(step.0, a.skip(1), b);
        assert((a + b).skip(1) =~= a.skip(1) + b);
        assert((a + b)[0] == a[0]);
        let first = touch_run(s, a);
        let rest = touch_run(first.0, b);
        assert(touch_run(s, a + b).1 =~= first.1 + rest.1);
    }
}

/// A run over one call is that call's step.
pub proof fn lemma_touch_run_one(s: TranslaterView, op: TouchOp)
    ensures
        touch_run(s, seq![op]).0 == touch_step(s, op).0,
        touch_run(s, seq![op]).1 == touch_step(s, op).1,
{
    reveal_with_fuel(touch_run, 2);
    let ops = seq![op];
    assert(ops[0] == op);
    assert(ops.skip(1) =~= Seq::<TouchOp>::empty());
    assert(touch_run(s, ops).1 =~= touch_step(s, op).1);
}

/// A run over two calls is the two steps in order.
pub proof fn lemma_touch_run_two(s: TranslaterView, op1: TouchOp, op2: TouchOp)
    ensures
        ({
            let first = touch_step(s, op1);
            let second = touch_step(first.0, op2);
            touch_run(s, seq![op1, op2]).0 == second.0 && touch_run(s, seq![op1, op2]).1
                == first.1 + second.1
        }),
{
    reveal_with_fuel(touch_run, 2);
    let ops = seq![op1, op2];
    assert(ops[0] == op1);
    assert(ops.skip(1) =~= seq![op2]);
    lemma_touch_run_one(touch_step(s, op1).0, op2);
    assert(touch_run(s, ops).1 =~= touch_step(s, op1).1 + touch_step(touch_step(s, op1).0, op2).1);
}

/// A sequence with a live pointer has at least one live slot.
proof fn lemma_active_at(ptrs: Seq<Option<Pos>>, i: int)
    requires
        0 <= i < ptrs.len(),
        ptrs[i] is Some,
    ensures
        actives(ptrs).len() >= 1,
    decreases ptrs.len(),
{
    if i > 0 {
        lemma_active_at(ptrs.skip(1), i - 1);
    }
}

/// A quiet single-finger state: one pointer held at index `idx`, still a
/// click candidate for the press that began at `p0` at time `t0`.
pub open spec fn tap_state(s: TranslaterView, idx: usize, p0: Pos, t0: u64) -> bool {
    &&& s.holding
    &&& !s.ignore_release
    &&& s.press_pos == Some(p0)
    &&& s.last_press_millis == t0
    &&& s.pointer_count == 1
    &&& actives(s.pointers).len() == 1
    &&& s.idx_active(idx as int)
}

/// A call that keeps a tap quiet: a move of the held pointer within the hold
/// radius of the press, or a frame update within the hold time.
pub open spec fn tap_quiet_op(op: TouchOp, idx: usize, p0: Pos, t0: u64) -> bool {
    match op {
        TouchOp::MovePtr { idx: j, pos } => j == idx && dist_sq(p0, pos) < HOLD_RADIUS_SQ,
        TouchOp::Update { now } => elapsed(t0, now) <= HOLD_MILLIS,
        _ => false,
    }
}

/// The hover events of a call sequence: one per move, nothing else.
pub open spec fn hovers_of(ops: Seq<TouchOp>) -> Seq<InputEvent>
    decreases ops.len(),
{
    if ops.len() == 0 {
        Seq::empty()
    } else {
        let rest = hovers_of(ops.skip(1));
        match ops[0] {
            TouchOp::MovePtr { idx, pos } => seq![InputEvent::Hover(pos)] + rest,
            _ => rest,
        }
    }
}

/// The hover events of a call sequence are hovers and nothing else.
pub proof fn lemma_hovers_only(ops: Seq<TouchOp>)
    ensures
        forall|i: int|
            0 <= i < hovers_of(ops).len() ==> (#[trigger] hovers_of(ops)[i]) matches
                InputEvent::Hover(_),
    decreases ops.len(),
{
    if ops.len() > 0 {
        lemma_hovers_only(ops.skip(1));
    }
}

/// Quiet calls keep a quiet tap quiet: the state stays a click candidate and
/// only hover events come out.
pub proof fn lemma_tap_quiet_run(s: TranslaterView, ops: Seq<TouchOp>, idx: usize, p0: Pos, t0: u64)
    requires
        tap_state(s, idx, p0, t0),
        forall|i: int| 0 <= i < ops.len() ==> tap_quiet_op(#[trigger] ops[i], idx, p0, t0),
    ensures
        ({
            let run = touch_run(s, ops);
            tap_state(run.0, idx, p0, t0) && run.1 == hovers_of(ops)
        }),
    decreases ops.len(),
{
    if ops.len() > 0 {
        assert(tap_quiet_op(ops[0], idx, p0, t0));
        let step = touch_step(s, ops[0]);
        match ops[0] {
            TouchOp::MovePtr { idx: j, pos } => {
                lemma_actives_update_len(s.pointers, idx as int, Some(pos));
                assert(tap_state(step.0, idx, p0, t0));
                assert(step.1 =~= seq![InputEvent::Hover(pos)]);
            }
            TouchOp::Update { now } => {
                assert(step.1 =~= Seq::<InputEvent>::empty());
            }
            _ => {
                assert(false);
            }
        }
        lemma_tap_quiet_run(step.0, ops.skip(1), idx, p0, t0);
        assert(touch_run(s, ops).1 =~= hovers_of(ops));
    } else {
        assert(touch_run(s, ops).1 =~= hovers_of(ops));
    }
}

/// The single-tap law. From an idle translator, a pointer going down, moving
/// only within the hold radius of its press, updating only within the hold
/// time, and lifting at `pe`, emits exactly: a hover and a left press at the
/// press position, one hover per move, and then a left release, exactly one
/// click — a left click at the lift position — and the pointer leaving.
pub proof fn lemma_single_tap_clicks_once(
    s0: TranslaterView,
    idx: usize,
    p0: Pos,
    t0: u64,
    mid: Seq<TouchOp>,
    pe: Pos,
)
    requires
        actives(s0.pointers).len() == 0,
        s0.pointer_count == 0,
        forall|i: int| 0 <= i < mid.len() ==> tap_quiet_op(#[trigger] mid[i], idx, p0, t0),
    ensures
        ({
            let ops = seq![TouchOp::Start { idx, pos: p0, now: t0 }] + mid + seq![
                TouchOp::End { idx, pos: pe },
            ];
            touch_run(s0, ops).1 == seq![
                InputEvent::Hover(p0),
                InputEvent::Press(p0, PtrButton::Left),
            ] + hovers_of(mid) + seq![
                InputEvent::Release(PtrButton::Left),
                InputEvent::Click(pe, PtrButton::Left),
                InputEvent::PointerLeft,
            ]
        }),
        forall|i: int|
            0 <= i < hovers_of(mid).len() ==> (#[trigger] hovers_of(mid)[i]) matches
                InputEvent::Hover(_),
{
    lemma_hovers_only(mid);
    let start_op = seq![TouchOp::Start { idx, pos: p0, now: t0 }];
    let end_op = seq![TouchOp::End { idx, pos: pe }];

    // The start: from idle, the index is free, so one pointer goes live and
    // the press is recorded.
    if s0.idx_active(idx as int) {
        lemma_active_at(s0.pointers, idx as int);
        assert(false);
    }
    let s1 = spec_phase_start(s0, idx as int, p0, t0).0;
    let padded = if idx < s0.pointers.len() {
        s0.pointers
    } else {
        spec_pad(s0.pointers, idx + 1)
    };
    if idx >= s0.pointers.len() {
        lemma_actives_pad(s0.pointers, idx + 1);
    }
    lemma_actives_update_len(padded, idx as int, Some(p0));
    assert(actives(padded.update(idx as int, Some(p0))).len() == 1);
    assert(tap_state(s1, idx, p0, t0));
    assert(spec_phase_start(s0, idx as int, p0, t0).1 =~= seq![
        InputEvent::Hover(p0),
        InputEvent::Press(p0, PtrButton::Left),
    ]);
    lemma_touch_run_one(s0, TouchOp::Start { idx, pos: p0, now: t0 });
    assert(touch_run(s0, start_op).0 == s1);
    assert(touch_run(s0, start_op).1 =~= seq![
        InputEvent::Hover(p0),
        InputEvent::Press(p0, PtrButton::Left),
    ]);

    // The quiet middle keeps the tap a click candidate.
    lemma_tap_quiet_run(s1, mid, idx, p0, t0);
    let s2 = touch_run(s1, mid).0;

    // The end: still holding and not suppressed, so the release clicks once.
    assert(spec_phase_end(s2, idx as int, pe).1 =~= seq![
        InputEvent::Release(PtrButton::Left),
        InputEvent::Click(pe, PtrButton::Left),
        InputEvent::PointerLeft,
    ]);
    lemma_touch_run_one(s2, TouchOp::End { idx, pos: pe });
    assert(touch_run(s2, end_op).1 =~= spec_phase_end(s2, idx as int, pe).1);

    lemma_touch_run_concat(s0, start_op, mid);
    lemma_touch_run_concat(s0, start_op + mid, end_op);
    assert(touch_run(s0, start_op + mid).0 == s2);
    assert((start_op + mid) + end_op =~= start_op + mid + end_op);
    assert(touch_run(s0, start_op + mid + end_op).1 =~= seq![
        InputEvent::Hover(p0),
        InputEvent::Press(p0, PtrButton::Left),
    ] + hovers_of(mid) + seq![
        InputEvent::Release(PtrButton::Left),
        InputEvent::Click(pe, PtrButton::Left),
        InputEvent::PointerLeft,
    ]);
}

/// The long-press law. A press held quietly past the hold time right-clicks
/// exactly once, at the last pointer position, when the frame update fires;
/// the later release emits only the left release and the pointer leaving — no
/// left click.
pub proof fn lemma_long_press_right_clicks(
    s0: TranslaterView,
    idx: usize,
    p0: Pos,
    t0: u64,
    mid: Seq<TouchOp>,
    t1: u64,
    pe: Pos,
)
    requires
        actives(s0.pointers).len() == 0,
        s0.pointer_count == 0,
        forall|i: int| 0 <= i < mid.len() ==> tap_quiet_op(#[trigger] mid[i], idx, p0, t0),
        elapsed(t0, t1) > HOLD_MILLIS,
    ensures
        ({
            let ops = seq![TouchOp::Start { idx, pos: p0, now: t0 }] + mid + seq![
                TouchOp::Update { now: t1 },
                TouchOp::End { idx, pos: pe },
            ];
            let quiet = touch_run(
                spec_phase_start(s0, idx as int, p0, t0).0,
                mid,
            ).0;
            touch_run(s0, ops).1 == seq![
                InputEvent::Hover(p0),
                InputEvent::Press(p0, PtrButton::Left),
            ] + hovers_of(mid) + seq![
                InputEvent::Click(quiet.last_pos, PtrButton::Right),
                InputEvent::Release(PtrButton::Left),
                InputEvent::PointerLeft,
            ]
        }),
        forall|i: int|
            0 <= i < hovers_of(mid).len() ==> (#[trigger] hovers_of(mid)[i]) matches
                InputEvent::Hover(_),
{
    lemma_hovers_only(mid);
    let start_op = seq![TouchOp::Start { idx, pos: p0, now: t0 }];
    let tail_ops = seq![TouchOp::Update { now: t1 }, TouchOp::End { idx, pos: pe }];

    if s0.idx_active(idx as int) {
        lemma_active_at(s0.pointers, idx as int);
        assert(false);
    }
    let s1 = spec_phase_start(s0, idx as int, p0, t0).0;
    let padded = if idx < s0.pointers.len() {
        s0.pointers
    } else {
        spec_pad(s0.pointers, idx + 1)
    };
    if idx >= s0.pointers.len() {
        lemma_actives_pad(s0.pointers, idx + 1);
    }
    lemma_actives_update_len(padded, idx as int, Some(p0));
    assert(tap_state(s1, idx, p0, t0));
    lemma_touch_run_one(s0, TouchOp::Start { idx, pos: p0, now: t0 });
    assert(touch_run(s0, start_op).0 == s1);
    assert(touch_run(s0, start_op).1 =~= seq![
        InputEvent::Hover(p0),
        InputEvent::Press(p0, PtrButton::Left),
    ]);

    lemma_tap_quiet_run(s1, mid, idx, p0, t0);
    let s2 = touch_run(s1, mid).0;

    // The update fires the long press: one right click, and the release is
    // suppressed from then on.
    let s3 = spec_update(s2, t1).0;
    assert(spec_update(s2, t1).1 =~= seq![InputEvent::Click(s2.last_pos, PtrButton::Right)]);
    assert(s3.ignore_release && !s3.holding);
    assert(s3.idx_active(idx as int));

    // The end emits no click: the release was suppressed.
    assert(spec_phase_end(s3, idx as int, pe).1 =~= seq![
        InputEvent::Release(PtrButton::Left),
        InputEvent::PointerLeft,
    ]);
    lemma_touch_run_two(s2, TouchOp::Update { now: t1 }, TouchOp::End { idx, pos: pe });
    assert(touch_run(s2, tail_ops).1 =~= seq![
        InputEvent::Click(s2.last_pos, PtrButton::Right),
        InputEvent::Release(PtrButton::Left),
        InputEvent::PointerLeft,
    ]);

    lemma_touch_run_concat(s0, start_op, mid);
    lemma_touch_run_concat(s0, start_op + mid, tail_ops);
    assert(touch_run(s0, start_op + mid).0 == s2);
    assert((start_op + mid) + tail_ops =~= start_op + mid + tail_ops);
    assert(touch_run(s0, start_op + mid + tail_ops).1 =~= seq![
        InputEvent::Hover(p0),
        InputEvent::Press(p0, PtrButton::Left),
    ] + hovers_of(mid) + seq![
        InputEvent::Click(s2.last_pos, PtrButton::Right),
        InputEvent::Release(PtrButton::Left),
        InputEvent::PointerLeft,
    ]);
}

/// The pinch-open law, first half. With exactly one pointer live, a second
/// pointer going down ends the single-finger gesture — the pointer leaves and
/// the left button releases, before any zoom event — and opens a zoom gesture
/// whose anchor is the midpoint of the two pointers and whose starting and
/// previous squared distances are their squared distance.
pub proof fn lemma_second_pointer_opens_zoom(s: TranslaterView, idx: usize, pos: Pos, now: u64)
    requires
        s.wf(),
        actives(s.pointers).len() == 1,
        !s.idx_active(idx as int),
    ensures
        ({
            let next = spec_phase_start(s, idx as int, pos, now);
            let ptrs = next.0.pointers;
            let a = actives(ptrs)[0];
            let b = actives(ptrs)[1];
            &&& next.1 == seq![InputEvent::PointerLeft, InputEvent::Release(PtrButton::Left)]
            &&& next.0.zoom == Some(
                Zoom {
                    start_dist_sq: dist_sq(a, b) as i128,
                    prev_dist_sq: dist_sq(a, b) as i128,
                    anchor: midpoint(a, b),
                },
            )
            &&& next.0.press_pos is None
            &&& next.0.ignore_release
            &&& !next.0.holding
            &&& next.0.pointer_count == 2
        }),
{
    let padded = if idx < s.pointers.len() {
        s.pointers
    } else {
        spec_pad(s.pointers, idx + 1)
    };
    if idx >= s.pointers.len() {
        lemma_actives_pad(s.pointers, idx + 1);
    }
    lemma_actives_update_len(padded, idx as int, Some(pos));
}

/// The pinch-move law, second half. With two pointers live in a zoom gesture,
/// a move emits exactly one zoom event when the squared pointer distance
/// differs from the gesture's starting distance — carrying the gesture's
/// fixed anchor and the delta `(d - prev_d) * 3` ten-thousandths — and no
/// event when it equals it; either way the new distance becomes the previous
/// one and the anchor and starting distance stay.
pub proof fn lemma_pinch_move_zoom(s: TranslaterView, idx: usize, pos: Pos, z: Zoom)
    requires
        s.wf(),
        s.pointer_count == 2,
        s.zoom == Some(z),
    ensures
        ({
            let next = spec_phase_move(s, idx as int, pos);
            let ptrs = next.0.pointers;
            let d = dist_sq(actives(ptrs)[0], actives(ptrs)[1]);
            &&& next.1 == if d != z.start_dist_sq {
                seq![InputEvent::Zoom(z.anchor, ((d - z.prev_dist_sq) * ZOOM_NUM_E4) as i128)]
            } else {
                Seq::<InputEvent>::empty()
            }
            &&& next.0.zoom == Some(
                Zoom { start_dist_sq: z.start_dist_sq, prev_dist_sq: d as i128, anchor: z.anchor },
            )
        }),
{
    let next = spec_phase_move(s, idx as int, pos);
    let ptrs = next.0.pointers;
    let d = dist_sq(actives(ptrs)[0], actives(ptrs)[1]);
    if d != z.start_dist_sq {
        assert(next.1 =~= seq![
            InputEvent::Zoom(z.anchor, ((d - z.prev_dist_sq) * ZOOM_NUM_E4) as i128),
        ]);
    } else {
        assert(next.1 =~= Seq::<InputEvent>::empty());
    }
}

} // verus!
