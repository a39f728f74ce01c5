//! The scene model: one player sprite, its transform, and the per-frame
//! reaction rules that read mouse input and mutate the transform.
//!
//! The host engine is modelled explicitly. An [`App`] owns the single player
//! entity (zero or one), the current button state, and the queues of motion
//! and wheel events delivered since the previous frame. [`App::update`] runs
//! one frame: the startup hook first (once), then the three reaction rules.

use vstd::prelude::*;

use crate::rational::{
    lemma_q_add_cancel, q_add, q_add_fits, q_eq, q_from_int, q_mul, q_mul_fits, q_neg, Qv, Rat,
};

verus! {

/// A 2D vector of exact rationals.
#[derive(Clone, Copy, Debug, PartialEq, Eq, Structural)]
pub struct Vec2 {
    pub x: Rat,
    pub y: Rat,
}

impl Vec2 {
    /// Both components are well-formed rationals.
    pub open spec fn wf(self) -> bool {
        self.x.wf() && self.y.wf()
    }

    /// Builds the vector (x, y).
    pub fn new(x: Rat, y: Rat) -> (r: Vec2)
        ensures
            r == (Vec2 { x, y }),
    {
        Vec2 { x, y }
    }
}

/// The player's transform: the sole mutable state of the scene.
#[derive(Clone, Copy, Debug, PartialEq, Eq, Structural)]
pub struct Transform {
    /// 2D position; starts at the origin.
    pub position: Vec2,
    /// Angle (radians) about the viewing axis; accumulates without bound.
    pub rotation: Rat,
    /// 2D size; adjusted multiplicatively by the wheel rule, never clamped.
    pub size: Vec2,
}

impl Transform {
    /// All scalar fields are well-formed rationals.
    pub open spec fn wf(self) -> bool {
        self.position.wf() && self.rotation.wf() && self.size.wf()
    }
}

/// The player entity: a marker owning its transform.
#[derive(Clone, Copy, Debug, PartialEq, Eq, Structural)]
pub struct Player {
    pub transform: Transform,
}

/// The mouse buttons the scene reacts to.
#[derive(Clone, Copy, Debug, PartialEq, Eq, Structural)]
pub enum MouseButton {
    Left,
    Right,
}

/// The unit a wheel event is reported in. The reaction rule ignores it.
#[derive(Clone, Copy, Debug, PartialEq, Eq, Structural)]
pub enum MouseScrollUnit {
    Line,
    Pixel,
}

/// A relative pointer-movement event carrying a 2D delta.
#[derive(Clone, Copy, Debug, PartialEq, Eq, Structural)]
pub struct MouseMotion {
    pub delta: Vec2,
}

impl MouseMotion {
    /// The delta components are well-formed rationals.
    pub open spec fn wf(self) -> bool {
        self.delta.wf()
    }
}

/// A scroll-wheel event carrying horizontal and vertical magnitudes.
#[derive(Clone, Copy, Debug, PartialEq, Eq, Structural)]
pub struct MouseWheel {
    pub unit: MouseScrollUnit,
    pub x: Rat,
    pub y: Rat,
}

impl MouseWheel {
    /// Both magnitudes are well-formed rationals.
    pub open spec fn wf(self) -> bool {
        self.x.wf() && self.y.wf()
    }
}

/// How the resizable attribute of the transform is read. The update rule is
/// the same either way; only the interpretation of `size` differs. This
/// model adopts `Absolute`: `size` is the sprite's pixel dimensions, initial
/// value 64 x 32. Under `Relative`, the same field would be a scale factor
/// relative to a base sprite size.
#[derive(Clone, Copy, Debug, PartialEq, Eq, Structural)]
pub enum ResizeSemantics {
    Absolute,
    Relative,
}

/// The rotation step applied per frame while a button is held: 0.1 radians.
pub open spec fn rotation_step() -> Qv {
    (1, 10)
}

/// The rotation after one frame of button input: +0.1 while the left button
/// is held, -0.1 while the right button is held; both may apply.
pub open spec fn rotation_after_buttons(rot: Qv, left: bool, right: bool) -> Qv {
    let r1 = if left {
        q_add(rot, rotation_step())
    } else {
        rot
    };
    if right {
        q_add(r1, q_neg(rotation_step()))
    } else {
        r1
    }
}

/// Whether the button rule's arithmetic fits in `i128`.
pub open spec fn buttons_fit(rot: Qv, left: bool, right: bool) -> bool {
    let r1 = if left {
        q_add(rot, rotation_step())
    } else {
        rot
    };
    &&& (left ==> q_add_fits(rot, rotation_step()))
    &&& (right ==> q_add_fits(r1, q_neg(rotation_step())))
}

/// The horizontal position contribution of one motion event: dx / 20.
pub open spec fn motion_dx(e: MouseMotion) -> Qv {
    q_mul(e.delta.x@, (1, 20))
}

/// The vertical position contribution of one motion event: -dy / 20. The
/// vertical axis is inverted to map input-device "down" to scene "up".
pub open spec fn motion_dy(e: MouseMotion) -> Qv {
    q_mul(e.delta.y@, (-1, 20))
}

/// One motion event applied to a position (x, y).
pub open spec fn motion_step(p: (Qv, Qv), e: MouseMotion) -> (Qv, Qv) {
    (q_add(p.0, motion_dx(e)), q_add(p.1, motion_dy(e)))
}

/// The position after all queued motion events, applied in arrival order.
pub open spec fn position_after_motions(p: (Qv, Qv), es: Seq<MouseMotion>) -> (Qv, Qv)
    decreases es.len(),
{
    if es.len() == 0 {
        p
    } else {
        position_after_motions(motion_step(p, es[0]), es.drop_first())
    }
}

/// Whether the motion rule's arithmetic fits in `i128` at every step.
pub open spec fn motion_fits(p: (Qv, Qv), es: Seq<MouseMotion>) -> bool
    decreases es.len(),
{
    if es.len() == 0 {
        true
    } else {
        &&& q_mul_fits(es[0].delta.x@, (1, 20))
        &&& q_mul_fits(es[0].delta.y@, (-1, 20))
        &&& q_add_fits(p.0, motion_dx(es[0]))
        &&& q_add_fits(p.1, motion_dy(es[0]))
        &&& motion_fits(motion_step(p, es[0]), es.drop_first())
    }
}

/// The resize factor of one wheel event: 1 + (x + y) / 10.
pub open spec fn wheel_factor(e: MouseWheel) -> Qv {
    q_add(q_from_int(1), q_mul(q_add(e.x@, e.y@), (1, 10)))
}

/// One wheel event applied to a size (x, y): both components are multiplied
/// by the event's factor.
pub open spec fn wheel_step(s: (Qv, Qv), e: MouseWheel) -> (Qv, Qv) {
    (q_mul(s.0, wheel_factor(e)), q_mul(s.1, wheel_factor(e)))
}

/// The size after all queued wheel events, compounding in arrival order.
pub open spec fn size_after_wheels(s: (Qv, Qv), es: Seq<MouseWheel>) -> (Qv, Qv)
    decreases es.len(),
{
    if es.len() == 0 {
        s
    } else {
        size_after_wheels(wheel_step(s, es[0]), es.drop_first())
    }
}

/// Whether the wheel rule's arithmetic fits in `i128` at every step.
pub open spec fn wheel_fits(s: (Qv, Qv), es: Seq<MouseWheel>) -> bool
    decreases es.len(),
{
    if es.len() == 0 {
        true
    } else {
        &&& q_add_fits(es[0].x@, es[0].y@)
        &&& q_mul_fits(q_add(es[0].x@, es[0].y@), (1, 10))
        &&& q_add_fits(q_from_int(1), q_mul(q_add(es[0].x@, es[0].y@), (1, 10)))
        &&& q_mul_fits(s.0, wheel_factor(es[0]))
        &&& q_mul_fits(s.1, wheel_factor(es[0]))
        &&& wheel_fits(wheel_step(s, es[0]), es.drop_first())
    }
}

/// Every motion event in the sequence is well-formed.
pub open spec fn motions_wf(es: Seq<MouseMotion>) -> bool {
    forall|i: int| 0 <= i < es.len() ==> es[i].wf()
}

/// Every wheel event in the sequence is well-formed.
pub open spec fn wheels_wf(es: Seq<MouseWheel>) -> bool {
    forall|i: int| 0 <= i < es.len() ==> es[i].wf()
}

/// The position components of a transform, as rational values.
pub open spec fn position_view(t: Transform) -> (Qv, Qv) {
    (t.position.x@, t.position.y@)
}

/// The size components of a transform, as rational values.
pub open spec fn size_view(t: Transform) -> (Qv, Qv) {
    (t.size.x@, t.size.y@)
}

/// All components of a transform, as rational values:
/// (position, rotation, size).
pub open spec fn transform_views(t: Transform) -> ((Qv, Qv), Qv, (Qv, Qv)) {
    (position_view(t), t.rotation@, size_view(t))
}

/// The transform after one frame: motion events move the position, held
/// buttons turn the rotation, wheel events scale the size. The three rules
/// touch disjoint fields, so their relative order does not matter.
pub open spec fn frame_result(
    t: Transform,
    left: bool,
    right: bool,
    ms: Seq<MouseMotion>,
    ws: Seq<MouseWheel>,
) -> ((Qv, Qv), Qv, (Qv, Qv)) {
    (
        position_after_motions(position_view(t), ms),
        rotation_after_buttons(t.rotation@, left, right),
        size_after_wheels(size_view(t), ws),
    )
}

/// Whether one whole frame's arithmetic fits in `i128`.
pub open spec fn frame_fits(
    t: Transform,
    left: bool,
    right: bool,
    ms: Seq<MouseMotion>,
    ws: Seq<MouseWheel>,
) -> bool {
    &&& buttons_fit(t.rotation@, left, right)
    &&& motion_fits(position_view(t), ms)
    &&& wheel_fits(size_view(t), ws)
}

/// The transform the player is created with: position (0, 0), rotation 0,
/// size (64, 32).
pub open spec fn initial_transform() -> Transform {
    Transform {
        position: Vec2 { x: Rat { num: 0, den: 1 }, y: Rat { num: 0, den: 1 } },
        rotation: Rat { num: 0, den: 1 },
        size: Vec2 { x: Rat { num: 64, den: 1 }, y: Rat { num: 32, den: 1 } },
    }
}

/// The player as created by the startup hook.
pub open spec fn initial_player() -> Player {
    Player { transform: initial_transform() }
}

/// Runs the button-press rotation rule for one frame, level-triggered:
/// while the left button is held the rotation grows by 0.1 radians, while
/// the right button is held it shrinks by 0.1 radians; holding both in the
/// same frame yields no net change in value.
pub fn respond_to_mouse_button_press(t: &mut Transform, left_pressed: bool, right_pressed: bool)
    requires
        old(t).wf(),
        buttons_fit(old(t).rotation@, left_pressed, right_pressed),
    ensures
        final(t).wf(),
        final(t).rotation@ == rotation_after_buttons(old(t).rotation@, left_pressed, right_pressed),
        final(t).position == old(t).position,
        final(t).size == old(t).size,
        left_pressed == right_pressed ==> q_eq(final(t).rotation@, old(t).rotation@),
{
    if left_pressed {
        t.rotation = t.rotation.add(Rat::new(1, 10));
    }
    if right_pressed {
        t.rotation = t.rotation.add(Rat::new(-1, 10));
    }
    proof {
        if left_pressed && right_pressed {
            lemma_q_add_cancel(old(t).rotation@, rotation_step());
        }
    }
}

/// Runs the mouse-motion translation rule for one frame: every queued
/// motion event is applied in arrival order, each adding (dx / 20, -dy / 20)
/// to the position.
pub fn respond_to_mouse_move(t: &mut Transform, events: &Vec<MouseMotion>)
    requires
        old(t).wf(),
        motions_wf(events@),
        motion_fits(position_view(*old(t)), events@),
    ensures
        final(t).wf(),
        position_view(*final(t)) == position_after_motions(position_view(*old(t)), events@),
        final(t).rotation == old(t).rotation,
        final(t).size == old(t).size,
{
    let mut x = t.position.x;
    let mut y = t.position.y;
    let mut i: usize = 0;
    proof {
        assert(events@.skip(0) =~= events@);
    }
    while i < events.len()
        invariant
            i <= events.len(),
            x.wf(),
            y.wf(),
            motions_wf(events@),
            motion_fits((x@, y@), events@.skip(i as int)),
            position_after_motions((x@, y@), events@.skip(i as int)) == position_after_motions(
                position_view(*t),
                events@,
            ),
        decreases events.len() - i,
    {
        let e = events[i];
        proof {
            assert(events@.skip(i as int)[0] == events@[i as int]);
            assert(events@.skip(i as int).drop_first() =~= events@.skip(i as int + 1));
        }
        let dx = e.delta.x.mul(Rat::new(1, 20));
        let dy = e.delta.y.mul(Rat::new(-1, 20));
        x = x.add(dx);
        y = y.add(dy);
        i = i + 1;
    }
    proof {
        assert(events@.skip(events@.len() as int) =~= Seq::<MouseMotion>::empty());
    }
    t.position = Vec2 { x, y };
}

/// Runs the wheel-turn resize rule for one frame: every queued wheel event
/// is applied in arrival order, each multiplying both size components by
/// 1 + (x + y) / 10. The size is never clamped: it can shrink toward zero,
/// turn negative, or grow without bound.
pub fn respond_to_mouse_wheel_turn(t: &mut Transform, events: &Vec<MouseWheel>)
    requires
        old(t).wf(),
        wheels_wf(events@),
        wheel_fits(size_view(*old(t)), events@),
    ensures
        final(t).wf(),
        size_view(*final(t)) == size_after_wheels(size_view(*old(t)), events@),
        final(t).position == old(t).position,
        final(t).rotation == old(t).rotation,
{
    let mut sx = t.size.x;
    let mut sy = t.size.y;
    let mut i: usize = 0;
    proof {
        assert(events@.skip(0) =~= events@);
    }
    while i < events.len()
        invariant
            i <= events.len(),
            sx.wf(),
            sy.wf(),
            wheels_wf(events@),
            wheel_fits((sx@, sy@), events@.skip(i as int)),
            size_after_wheels((sx@, sy@), events@.skip(i as int)) == size_after_wheels(
                size_view(*t),
                events@,
            ),
        decreases events.len() - i,
    {
        let e = events[i];
        proof {
            assert(events@.skip(i as int)[0] == events@[i as int]);
            assert(events@.skip(i as int).drop_first() =~= events@.skip(i as int + 1));
        }
        let amount = e.x.add(e.y);
        let factor = Rat::from_int(1).add(amount.mul(Rat::new(1, 10)));
        sx = sx.mul(factor);
        sy = sy.mul(factor);
        i = i + 1;
    }
    proof {
        assert(events@.skip(events@.len() as int) =~= Seq::<MouseWheel>::empty());
    }
    t.size = Vec2 { x: sx, y: sy };
}

/// The modelled host application: the entity store (zero or one player),
/// the scheduled hooks, the current button state, and the event queues
/// filled since the previous frame.
#[derive(Debug)]
pub struct App {
    /// The startup hook (`add_player`) is registered and has not run yet.
    pub startup_scheduled: bool,
    /// The three reaction rules are registered and run on every update.
    pub reactive: bool,
    /// How the `size` field of the transform is interpreted; see
    /// [`ResizeSemantics`]. Does not change the update rules.
    pub resize_semantics: ResizeSemantics,
    /// The entity store: at most one player ever exists.
    pub player: Option<Player>,
    /// Whether the left mouse button is currently held.
    pub left_pressed: bool,
    /// Whether the right mouse button is currently held.
    pub right_pressed: bool,
    /// Motion events queued since the previous update, in arrival order.
    pub motion_events: Vec<MouseMotion>,
    /// Wheel events queued since the previous update, in arrival order.
    pub wheel_events: Vec<MouseWheel>,
}

impl App {
    /// Well-formedness: the player's transform (if any) is well-formed, the
    /// queued events are well-formed, and whenever the reaction rules are
    /// registered a player exists or is about to be created. The reaction
    /// rules treat a missing player as a fatal precondition violation, so
    /// `update` demands this invariant instead of aborting.
    pub open spec fn wf(self) -> bool {
        &&& (self.player is Some ==> self.player->0.transform.wf())
        &&& motions_wf(self.motion_events@)
        &&& wheels_wf(self.wheel_events@)
        &&& (self.reactive ==> (self.startup_scheduled || self.player is Some))
    }

    /// The player as it stands when the reaction rules run: the one the
    /// startup hook is about to create, or the one already in the store.
    pub open spec fn player_after_startup(self) -> Option<Player> {
        if self.startup_scheduled {
            Some(initial_player())
        } else {
            self.player
        }
    }

    /// Whether the arithmetic of the coming frame fits in `i128`.
    pub open spec fn frame_ok(self) -> bool {
        self.reactive && self.player_after_startup() is Some ==> frame_fits(
            self.player_after_startup()->0.transform,
            self.left_pressed,
            self.right_pressed,
            self.motion_events@,
            self.wheel_events@,
        )
    }

    /// An application with nothing registered: no hooks, no player. Updating
    /// it does nothing to the (empty) entity store.
    pub fn new() -> (app: App)
        ensures
            app.wf(),
            !app.startup_scheduled,
            !app.reactive,
            app.resize_semantics == ResizeSemantics::Absolute,
            app.player is None,
            !app.left_pressed,
            !app.right_pressed,
            app.motion_events@.len() == 0,
            app.wheel_events@.len() == 0,
    {
        App {
            startup_scheduled: false,
            reactive: false,
            resize_semantics: ResizeSemantics::Absolute,
            player: None,
            left_pressed: false,
            right_pressed: false,
            motion_events: Vec::new(),
            wheel_events: Vec::new(),
        }
    }

    /// Records a button as held. Button state is level-triggered: it stays
    /// held across frames until released.
    pub fn press(&mut self, button: MouseButton)
        ensures
            final(self).left_pressed == (old(self).left_pressed || button == MouseButton::Left),
            final(self).right_pressed == (old(self).right_pressed || button == MouseButton::Right),
            final(self).startup_scheduled == old(self).startup_scheduled,
            final(self).reactive == old(self).reactive,
            final(self).resize_semantics == old(self).resize_semantics,
            final(self).player == old(self).player,
            final(self).motion_events@ == old(self).motion_events@,
            final(self).wheel_events@ == old(self).wheel_events@,
    {
        match button {
            MouseButton::Left => self.left_pressed = true,
            MouseButton::Right => self.right_pressed = true,
        }
    }

    /// Records a button as no longer held.
    pub fn release(&mut self, button: MouseButton)
        ensures
            final(self).left_pressed == (old(self).left_pressed && button != MouseButton::Left),
            final(self).right_pressed == (old(self).right_pressed && button != MouseButton::Right),
            final(self).startup_scheduled == old(self).startup_scheduled,
            final(self).reactive == old(self).reactive,
            final(self).resize_semantics == old(self).resize_semantics,
            final(self).player == old(self).player,
            final(self).motion_events@ == old(self).motion_events@,
            final(self).wheel_events@ == old(self).wheel_events@,
    {
        match button {
            MouseButton::Left => self.left_pressed = false,
            MouseButton::Right => self.right_pressed = false,
        }
    }

    /// Queues a motion event for the next update.
    pub fn send_motion_event(&mut self, event: MouseMotion)
        ensures
            final(self).motion_events@ == old(self).motion_events@.push(event),
            final(self).wheel_events@ == old(self).wheel_events@,
            final(self).startup_scheduled == old(self).startup_scheduled,
            final(self).reactive == old(self).reactive,
            final(self).resize_semantics == old(self).resize_semantics,
            final(self).player == old(self).player,
            final(self).left_pressed == old(self).left_pressed,
            final(self).right_pressed == old(self).right_pressed,
    {
        self.motion_events.push(event);
    }

    /// Queues a wheel event for the next update.
    pub fn send_wheel_event(&mut self, event: MouseWheel)
        ensures
            final(self).wheel_events@ == old(self).wheel_events@.push(event),
            final(self).motion_events@ == old(self).motion_events@,
            final(self).startup_scheduled == old(self).startup_scheduled,
            final(self).reactive == old(self).reactive,
            final(self).resize_semantics == old(self).resize_semantics,
            final(self).player == old(self).player,
            final(self).left_pressed == old(self).left_pressed,
            final(self).right_pressed == old(self).right_pressed,
    {
        self.wheel_events.push(event);
    }

    /// Runs one frame. The startup hook runs first (once, creating the
    /// player), then the three reaction rules read this frame's input and
    /// mutate the player's transform; the event queues are consumed. Button
    /// state persists across frames.
    pub fn update(&mut self)
        requires
            old(self).wf(),
            old(self).frame_ok(),
        ensures
            final(self).wf(),
            !final(self).startup_scheduled,
            final(self).reactive == old(self).reactive,
            final(self).resize_semantics == old(self).resize_semantics,
            final(self).left_pressed == old(self).left_pressed,
            final(self).right_pressed == old(self).right_pressed,
            final(self).motion_events@.len() == 0,
            final(self).wheel_events@.len() == 0,
            old(self).reactive ==> {
                &&& final(self).player is Some
                &&& old(self).player_after_startup() is Some
                &&& transform_views(final(self).player->0.transform) == frame_result(
                    old(self).player_after_startup()->0.transform,
                    old(self).left_pressed,
                    old(self).right_pressed,
                    old(self).motion_events@,
                    old(self).wheel_events@,
                )
            },
            !old(self).reactive ==> final(self).player == old(self).player_after_startup(),
    {
        if self.startup_scheduled {
            add_player(self);
            self.startup_scheduled = false;
        }
        if self.reactive {
            let pl = self.player.unwrap();
            let mut t = pl.transform;
            respond_to_mouse_button_press(&mut t, self.left_pressed, self.right_pressed);
            respond_to_mouse_move(&mut t, &self.motion_events);
            respond_to_mouse_wheel_turn(&mut t, &self.wheel_events);
            self.player = Some(Player { transform: t });
        }
        self.motion_events = Vec::new();
        self.wheel_events = Vec::new();
    }
}

/// Builds the application the program runs: the startup hook that creates
/// the player is scheduled, the three reaction rules are registered, and the
/// entity store is still empty — the player appears at the first update.
pub fn create_app() -> (app: App)
    ensures
        app.wf(),
        app.startup_scheduled,
        app.reactive,
        app.resize_semantics == ResizeSemantics::Absolute,
        app.player is None,
        !app.left_pressed,
        !app.right_pressed,
        app.motion_events@.len() == 0,
        app.wheel_events@.len() == 0,
{
    App {
        startup_scheduled: true,
        reactive: true,
        resize_semantics: ResizeSemantics::Absolute,
        player: None,
        left_pressed: false,
        right_pressed: false,
        motion_events: Vec::new(),
        wheel_events: Vec::new(),
    }
}

/// The startup hook: creates the one player entity with the initial
/// transform — position (0, 0), rotation 0, size (64, 32).
pub fn add_player(app: &mut App)
    ensures
        final(app).player == Some(initial_player()),
        final(app).startup_scheduled == old(app).startup_scheduled,
        final(app).reactive == old(app).reactive,
        final(app).resize_semantics == old(app).resize_semantics,
        final(app).left_pressed == old(app).left_pressed,
        final(app).right_pressed == old(app).right_pressed,
        final(app).motion_events@ == old(app).motion_events@,
        final(app).wheel_events@ == old(app).wheel_events@,
{
    let zero = Rat::from_int(0);
    app.player = Some(
        Player {
            transform: Transform {
                position: Vec2 { x: zero, y: zero },
                rotation: zero,
                size: Vec2 { x: Rat::from_int(64), y: Rat::from_int(32) },
            },
        },
    );
}

/// How many player entities the store holds: always 0 or 1.
pub fn count_n_players(app: &App) -> (n: usize)
    ensures
        n == (if app.player is Some {
            1int
        } else {
            0int
        }),
{
    match &app.player {
        Some(_) => 1,
        None => 0,
    }
}

/// The player's current position.
pub fn get_player_position(app: &App) -> (p: Vec2)
    requires
        app.player is Some,
    ensures
        p == app.player->0.transform.position,
{
    app.player.unwrap().transform.position
}

/// The player's current size.
pub fn get_player_size(app: &App) -> (s: Vec2)
    requires
        app.player is Some,
    ensures
        s == app.player->0.transform.size,
{
    app.player.unwrap().transform.size
}

/// The player's current rotation.
pub fn get_player_rotation(app: &App) -> (r: Rat)
    requires
        app.player is Some,
    ensures
        r == app.player->0.transform.rotation,
{
    app.player.unwrap().transform.rotation
}

} // verus!
