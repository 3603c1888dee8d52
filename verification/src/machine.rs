//! The gesture state machine.
//!
//! It consumes a raw stream of pointer events, drives the outline and
//! stroke trackers, and emits high-level effects: a completed screen
//! outline asks for confirmation, and a valid horizontal stroke confirms
//! the backup.  While disabled (a backup is running) every event is
//! ignored.

use vstd::prelude::*;

use crate::edges::ScreenEdges;
use crate::edges::spec_contour_complete;
use crate::edges::spec_record;
use crate::edges::spec_on_top;
use crate::edges::spec_on_right;
use crate::edges::spec_on_bottom;
use crate::edges::spec_on_left;
use crate::stroke::HorizontalLineTracker;
use crate::stroke::StrokeView;
use crate::stroke::spec_stroke_empty;
use crate::stroke::spec_stroke_valid;

verus! {

/// Tolerance, in coordinate units, within which a pointer position counts
/// as touching a screen edge.
pub const OUTLINE_TOLERANCE: i32 = 30;

/// Number of buckets each screen edge is divided into for the coverage
/// check.
pub const OUTLINE_SEGMENT_COUNT: usize = 20;

/// One event of the raw pointer stream.
#[derive(Clone, Copy, PartialEq, Eq, Structural, Debug)]
pub enum PointerEvent {
    /// The primary button went down.
    ButtonDown,
    /// The primary button went up.
    ButtonUp,
    /// The pointer moved to `(x, y)`.
    Move { x: i32, y: i32 },
}

/// The phase the gesture recognition is in.
#[derive(Clone, Copy, PartialEq, Eq, Structural, Debug)]
pub enum GestureState {
    /// No gesture in progress.
    Idle,
    /// A drag is being traced along the screen outline.
    TracingOutline,
    /// The outline was recognized; a horizontal stroke confirms the backup.
    AwaitingConfirmation,
}

/// What one event made the machine decide.
#[derive(Clone, Copy, PartialEq, Eq, Structural, Debug)]
pub enum GestureEffect {
    /// No externally visible effect.
    Nothing,
    /// The full screen outline was just recognized; ask for confirmation.
    OutlineRecognized,
    /// A drag ended without covering the whole outline; back to idle.
    OutlineIncomplete,
    /// The confirming stroke was valid; start the backup.
    BackupConfirmed,
    /// The confirming stroke was not horizontal; the user may retry.
    StrokeInvalid,
}

/// Abstract state of a [`GestureStateMachine`].
#[verifier::ext_equal]
pub struct MachineModel {
    /// Current phase.
    pub state: GestureState,
    /// Recorded x coordinates on the top edge.
    pub top: Seq<i32>,
    /// Recorded y coordinates on the right edge.
    pub right: Seq<i32>,
    /// Recorded x coordinates on the bottom edge.
    pub bottom: Seq<i32>,
    /// Recorded y coordinates on the left edge.
    pub left: Seq<i32>,
    /// State of the confirmation-stroke tracker.
    pub stroke: StrokeView,
    /// Whether events have any effect at all.
    pub enabled: bool,
    /// Screen width used by the outline check.
    pub screen_width: int,
    /// Screen height used by the outline check.
    pub screen_height: int,
    /// Edge-touch tolerance.
    pub tolerance: int,
    /// Buckets per edge of the coverage check.
    pub segment_count: int,
}

/// Consumes pointer events and recognizes the two-step backup gesture.
pub struct GestureStateMachine {
    /// Current phase.
    pub state: GestureState,
    /// Outline coverage of the current tracing drag.
    pub edges: ScreenEdges,
    /// Confirmation-stroke tracker.
    pub stroke: HorizontalLineTracker,
    /// Whether events have any effect; cleared while a backup runs.
    pub enabled: bool,
    /// Screen width in coordinate units.
    pub screen_width: i32,
    /// Screen height in coordinate units.
    pub screen_height: i32,
    /// Edge-touch tolerance in coordinate units.
    pub tolerance: i32,
    /// Buckets per edge of the coverage check.
    pub segment_count: usize,
}

impl View for GestureStateMachine {
    type V = MachineModel;

    open spec fn view(&self) -> MachineModel {
        MachineModel {
            state: self.state,
            top: self.edges.top@,
            right: self.edges.right@,
            bottom: self.edges.bottom@,
            left: self.edges.left@,
            stroke: self.stroke@,
            enabled: self.enabled,
            screen_width: self.screen_width as int,
            screen_height: self.screen_height as int,
            tolerance: self.tolerance as int,
            segment_count: self.segment_count as int,
        }
    }
}

/// The stroke view after feeding one pointer position.
pub open spec fn spec_stroke_step(s: StrokeView, x: int, y: int) -> StrokeView {
    let start = match s.start {
        None => (x, y),
        Some(p) => p,
    };
    StrokeView {
        start: Some(start),
        end: Some((x, y)),
        horizontal: spec_stroke_valid(start.0, start.1, x, y),
    }
}

/// The machine after one event, together with the effect the event had.
pub open spec fn spec_step(m: MachineModel, ev: PointerEvent) -> (MachineModel, GestureEffect) {
    if !m.enabled {
        (m, GestureEffect::Nothing)
    } else {
        match ev {
            PointerEvent::ButtonDown => match m.state {
                GestureState::AwaitingConfirmation => (
                    (MachineModel { stroke: spec_stroke_empty(), ..m }),
                    GestureEffect::Nothing,
                ),
                _ => (
                    (MachineModel {
                        state: GestureState::TracingOutline,
                        top: Seq::empty(),
                        right: Seq::empty(),
                        bottom: Seq::empty(),
                        left: Seq::empty(),
                        ..m
                    }),
                    GestureEffect::Nothing,
                ),
            },
            PointerEvent::ButtonUp => match m.state {
                GestureState::Idle => (m, GestureEffect::Nothing),
                GestureState::TracingOutline => {
                    if spec_contour_complete(
                        m.top,
                        m.right,
                        m.bottom,
                        m.left,
                        m.screen_width,
                        m.screen_height,
                        m.segment_count,
                    ) {
                        (
                            (MachineModel {
                                state: GestureState::AwaitingConfirmation,
                                stroke: spec_stroke_empty(),
                                ..m
                            }),
                            GestureEffect::OutlineRecognized,
                        )
                    } else {
                        (
                            (MachineModel { state: GestureState::Idle, ..m }),
                            GestureEffect::OutlineIncomplete,
                        )
                    }
                },
                GestureState::AwaitingConfirmation => {
                    if m.stroke.horizontal {
                        (
                            (MachineModel { state: GestureState::Idle, enabled: false, ..m }),
                            GestureEffect::BackupConfirmed,
                        )
                    } else {
                        (m, GestureEffect::StrokeInvalid)
                    }
                },
            },
            PointerEvent::Move { x, y } => match m.state {
                GestureState::Idle => (m, GestureEffect::Nothing),
                GestureState::TracingOutline => (
                    (MachineModel {
                        top: spec_record(
                            m.top,
                            x,
                            spec_on_top(x as int, y as int, m.screen_width, m.screen_height, m.tolerance),
                        ),
                        right: spec_record(
                            m.right,
                            y,
                            spec_on_right(x as int, y as int, m.screen_width, m.screen_height, m.tolerance),
                        ),
                        bottom: spec_record(
                            m.bottom,
                            x,
                            spec_on_bottom(x as int, y as int, m.screen_width, m.screen_height, m.tolerance),
                        ),
                        left: spec_record(
                            m.left,
                            y,
                            spec_on_left(x as int, y as int, m.screen_width, m.screen_height, m.tolerance),
                        ),
                        ..m
                    }),
                    GestureEffect::Nothing,
                ),
                GestureState::AwaitingConfirmation => (
                    (MachineModel { stroke: spec_stroke_step(m.stroke, x as int, y as int), ..m }),
                    GestureEffect::Nothing,
                ),
            },
        }
    }
}

/// The machine after a whole sequence of events.
pub open spec fn spec_run(m: MachineModel, evs: Seq<PointerEvent>) -> MachineModel
    decreases evs.len(),
{
    if evs.len() == 0 {
        m
    } else {
        spec_run(spec_step(m, evs[0]).0, evs.drop_first())
    }
}

/// The effects a whole sequence of events had, one per event.
pub open spec fn spec_effects(m: MachineModel, evs: Seq<PointerEvent>) -> Seq<GestureEffect>
    decreases evs.len(),
{
    if evs.len() == 0 {
        Seq::empty()
    } else {
        seq![spec_step(m, evs[0]).1] + spec_effects(spec_step(m, evs[0]).0, evs.drop_first())
    }
}

/// Running no events changes nothing and has no effects.
pub proof fn lemma_run_empty(m: MachineModel)
    ensures
        spec_run(m, Seq::empty()) == m,
        spec_effects(m, Seq::empty()) =~= Seq::<GestureEffect>::empty(),
{
}

/// Running a single event is one step of the machine.
pub proof fn lemma_run_one(m: MachineModel, ev: PointerEvent)
    ensures
        spec_run(m, seq![ev]) == spec_step(m, ev).0,
        spec_effects(m, seq![ev]) =~= seq![spec_step(m, ev).1],
{
    let s = seq![ev];
    let m1 = spec_step(m, ev).0;
    assert(s[0] == ev);
    assert(s.drop_first().len() == 0);
    lemma_run_empty(m1);
    assert(spec_run(m, s) == spec_run(m1, s.drop_first()));
    assert(spec_effects(m, s) =~= seq![spec_step(m, ev).1] + spec_effects(m1, s.drop_first()));
    assert(spec_effects(m, s) =~= seq![spec_step(m, ev).1]);
}

/// Running two event sequences one after the other is the same as running
/// their concatenation, and the effects concatenate likewise.
pub proof fn lemma_run_append(m: MachineModel, a: Seq<PointerEvent>, b: Seq<PointerEvent>)
    ensures
        spec_run(m, a + b) == spec_run(spec_run(m, a), b),
        spec_effects(m, a + b) =~= spec_effects(m, a) + spec_effects(spec_run(m, a), b),
    decreases a.len(),
{
    if a.len() == 0 {
        assert(a + b =~= b);
        assert(spec_effects(m, a) + spec_effects(m, b) =~= spec_effects(m, b));
    } else {
        let m1 = spec_step(m, a[0]).0;
        assert((a + b)[0] == a[0]);
        assert((a + b).drop_first() =~= a.drop_first() + b);
        lemma_run_append(m1, a.drop_first(), b);
        assert(spec_effects(m, a + b) =~= spec_effects(m, a) + spec_effects(spec_run(m, a), b));
    }
}

/// While the outline is being traced, pointer moves only accumulate edge
/// coverage: the machine stays in `TracingOutline`, keeps its parameters and
/// stroke state, and none of the moves has an externally visible effect.
pub proof fn lemma_moves_keep_tracing(m: MachineModel, moves: Seq<PointerEvent>)
    requires
        m.enabled,
        m.state == GestureState::TracingOutline,
        forall|i: int| 0 <= i < moves.len() ==> moves[i] is Move,
    ensures
        spec_run(m, moves).state == GestureState::TracingOutline,
        spec_run(m, moves).enabled,
        spec_run(m, moves).stroke == m.stroke,
        spec_run(m, moves).screen_width == m.screen_width,
        spec_run(m, moves).screen_height == m.screen_height,
        spec_run(m, moves).tolerance == m.tolerance,
        spec_run(m, moves).segment_count == m.segment_count,
        spec_effects(m, moves) =~= Seq::new(moves.len(), |i: int| GestureEffect::Nothing),
    decreases moves.len(),
{
    if moves.len() == 0 {
        assert(spec_effects(m, moves) =~= Seq::new(0, |i: int| GestureEffect::Nothing));
    } else {
        let m1 = spec_step(m, moves[0]).0;
        assert(moves[0] is Move);
        assert(forall|i: int|
            0 <= i < moves.drop_first().len() ==> moves.drop_first()[i] == moves[i + 1]);
        lemma_moves_keep_tracing(m1, moves.drop_first());
        assert(spec_effects(m, moves) =~= Seq::new(moves.len(), |i: int| GestureEffect::Nothing));
    }
}

/// A full outline drag is recognized exactly once, however many moves it
/// contains: from idle, a press, any all-move drag whose replay covers the
/// whole contour, and a release leave the machine awaiting confirmation,
/// with a single `OutlineRecognized` effect at the release and no other
/// effect — in particular no `BackupConfirmed`.
pub proof fn lemma_outline_drag_recognized_once(m: MachineModel, moves: Seq<PointerEvent>)
    requires
        m.enabled,
        m.state == GestureState::Idle,
        forall|i: int| 0 <= i < moves.len() ==> moves[i] is Move,
        ({
            let mt = spec_run(spec_step(m, PointerEvent::ButtonDown).0, moves);
            spec_contour_complete(
                mt.top,
                mt.right,
                mt.bottom,
                mt.left,
                m.screen_width,
                m.screen_height,
                m.segment_count,
            )
        }),
    ensures
        ({
            let evs = seq![PointerEvent::ButtonDown] + moves + seq![PointerEvent::ButtonUp];
            let effs = spec_effects(m, evs);
            &&& spec_run(m, evs).state == GestureState::AwaitingConfirmation
            &&& effs.len() == evs.len()
            &&& effs[evs.len() - 1] == GestureEffect::OutlineRecognized
            &&& forall|i: int| 0 <= i < evs.len() - 1 ==> effs[i] == GestureEffect::Nothing
        }),
{
    let down = seq![PointerEvent::ButtonDown];
    let up = seq![PointerEvent::ButtonUp];
    let evs = down + moves + up;
    let m1 = spec_step(m, PointerEvent::ButtonDown).0;
    lemma_run_one(m, PointerEvent::ButtonDown);
    lemma_run_append(m, down, moves);
    lemma_moves_keep_tracing(m1, moves);
    let mt = spec_run(m1, moves);
    lemma_run_append(m, down + moves, up);
    assert(spec_run(m, down + moves) == mt);
    lemma_run_one(mt, PointerEvent::ButtonUp);
    let mlast = spec_step(mt, PointerEvent::ButtonUp).0;
    assert(mlast.state == GestureState::AwaitingConfirmation);
    let effs = spec_effects(m, evs);
    assert(effs =~= seq![GestureEffect::Nothing] + Seq::new(
        moves.len(),
        |i: int| GestureEffect::Nothing,
    ) + seq![GestureEffect::OutlineRecognized]);
}

/// A press immediately followed by a release confirms nothing: the machine
/// returns to idle and the only effects are a no-op at the press and an
/// `OutlineIncomplete` at the release.
pub proof fn lemma_empty_drag_returns_to_idle(m: MachineModel)
    requires
        m.enabled,
        m.state == GestureState::Idle,
    ensures
        ({
            let evs = seq![PointerEvent::ButtonDown, PointerEvent::ButtonUp];
            &&& spec_run(m, evs).state == GestureState::Idle
            &&& spec_effects(m, evs) =~= seq![
                GestureEffect::Nothing,
                GestureEffect::OutlineIncomplete,
            ]
        }),
{
    let evs = seq![PointerEvent::ButtonDown, PointerEvent::ButtonUp];
    let down = seq![PointerEvent::ButtonDown];
    let up = seq![PointerEvent::ButtonUp];
    assert(evs =~= down + up);
    let m1 = spec_step(m, PointerEvent::ButtonDown).0;
    lemma_run_one(m, PointerEvent::ButtonDown);
    lemma_run_append(m, down, up);
    lemma_run_one(m1, PointerEvent::ButtonUp);
    let m2 = spec_step(m1, PointerEvent::ButtonUp).0;
    assert(m2.state == GestureState::Idle);
    assert(spec_effects(m, evs) =~= seq![
        GestureEffect::Nothing,
        GestureEffect::OutlineIncomplete,
    ]);
}

impl GestureStateMachine {
    /// Creates an idle, enabled machine for a `screen_width` by
    /// `screen_height` screen.
    pub fn new(
        screen_width: i32,
        screen_height: i32,
        tolerance: i32,
        segment_count: usize,
    ) -> (machine: Self)
        requires
            screen_width > 0,
            screen_height > 0,
        ensures
            machine@ == (MachineModel {
                state: GestureState::Idle,
                top: Seq::empty(),
                right: Seq::empty(),
                bottom: Seq::empty(),
                left: Seq::empty(),
                stroke: spec_stroke_empty(),
                enabled: true,
                screen_width: screen_width as int,
                screen_height: screen_height as int,
                tolerance: tolerance as int,
                segment_count: segment_count as int,
            }),
    {
        GestureStateMachine {
            state: GestureState::Idle,
            edges: ScreenEdges::new(),
            stroke: HorizontalLineTracker::new(),
            enabled: true,
            screen_width,
            screen_height,
            tolerance,
            segment_count,
        }
    }

    /// Feeds one pointer event and reports the effect it had.
    pub fn handle_event(&mut self, ev: PointerEvent) -> (effect: GestureEffect)
        requires
            old(self)@.screen_width > 0,
            old(self)@.screen_height > 0,
        ensures
            final(self)@ == spec_step(old(self)@, ev).0,
            effect == spec_step(old(self)@, ev).1,
    {
        if !self.enabled {
            return GestureEffect::Nothing;
        }
        match ev {
            PointerEvent::ButtonDown => match self.state {
                GestureState::AwaitingConfirmation => {
                    self.stroke.reset();
                    GestureEffect::Nothing
                },
                _ => {
                    self.state = GestureState::TracingOutline;
                    self.edges.reset();
                    GestureEffect::Nothing
                },
            },
            PointerEvent::ButtonUp => match self.state {
                GestureState::Idle => GestureEffect::Nothing,
                GestureState::TracingOutline => {
                    if self.edges.is_contour_complete(
                        self.screen_width,
                        self.screen_height,
                        self.segment_count,
                    ) {
                        self.state = GestureState::AwaitingConfirmation;
                        self.stroke.reset();
                        GestureEffect::OutlineRecognized
                    } else {
                        self.state = GestureState::Idle;
                        GestureEffect::OutlineIncomplete
                    }
                },
                GestureState::AwaitingConfirmation => {
                    if self.stroke.is_valid_horizontal() {
                        self.state = GestureState::Idle;
                        self.enabled = false;
                        GestureEffect::BackupConfirmed
                    } else {
                        GestureEffect::StrokeInvalid
                    }
                },
            },
            PointerEvent::Move { x, y } => match self.state {
                GestureState::Idle => GestureEffect::Nothing,
                GestureState::TracingOutline => {
                    self.edges.update_edges_rectangle(
                        x,
                        y,
                        self.screen_width,
                        self.screen_height,
                        self.tolerance,
                    );
                    GestureEffect::Nothing
                },
                GestureState::AwaitingConfirmation => {
                    self.stroke.update(x, y);
                    GestureEffect::Nothing
                },
            },
        }
    }

    /// External reset: whatever the phase, return to idle.  Used when the
    /// confirmation prompt is dismissed.
    pub fn reset_to_idle(&mut self)
        ensures
            final(self)@ == (MachineModel { state: GestureState::Idle, ..old(self)@ }),
    {
        self.state = GestureState::Idle;
    }

    /// Enables or disables the machine; while disabled, every event is
    /// ignored.  The supervisor disables it for the duration of a backup.
    pub fn set_enabled(&mut self, enabled: bool)
        ensures
            final(self)@ == (MachineModel { enabled: enabled, ..old(self)@ }),
    {
        self.enabled = enabled;
    }
}

} // verus!
