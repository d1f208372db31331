//! The player controller of the Belltower game: the player is in one movement state at a time
//! (running, dashing, skidding or swinging), which steps once per frame and may hand over to
//! another. Each step says what it does to the player as a list of effects; the positions,
//! velocities and hit boxes they act on are kept by the caller.
use vstd::prelude::*;
use crate::belltower::{Buttons, frames_since_press_after_spec, lemma_buttons_eq_is_equality, next_press_count};
use crate::input::{ButtonState, InputState, pressed_this_frame, state_of};

verus! {

/// The number of frames a dash lasts.
pub const DASH_FRAMES: u32 = 7;

/// The number of frames the skid after a dash lasts.
pub const SKID_FRAMES: u32 = 11;

/// The speed of a swing started from a run.
pub const SWING_SPEED: u32 = 160;

/// The speed of a swing started from the recovery of another.
pub const RESWING_SPEED: u32 = 70;

/// What the player's states read of the controls: for each button, the number of frames since
/// it was pressed while it is held (`u32::MAX` once it is up); whether the stick is centered;
/// whether the focus button is held.
#[derive(Clone, Copy, Debug, PartialEq, Eq, Structural)]
pub struct PlayerInput {
    pub swing: u32,
    pub crush: u32,
    pub dash: u32,
    pub focus: u32,
    pub stick_centered: bool,
    pub is_focused: bool,
}

/// The count of frames since `button` was pressed, one frame on, from the button states of
/// the new frame.
pub open spec fn count_after(states: Map<Buttons, ButtonState>, button: Buttons, frames: u32) -> u32 {
    frames_since_press_after_spec(
        pressed_this_frame(state_of(states, button)),
        state_of(states, button).pressed,
        frames,
    ) as u32
}

/// The controls of a new frame, read from the button states of the frame and whether the stick
/// is centered, going on from those of the last frame.
pub open spec fn read_input(
    last: PlayerInput,
    states: Map<Buttons, ButtonState>,
    stick_centered: bool,
) -> PlayerInput {
    PlayerInput {
        swing: count_after(states, Buttons::Swing, last.swing),
        crush: count_after(states, Buttons::Crush, last.crush),
        dash: count_after(states, Buttons::Dash, last.dash),
        focus: count_after(states, Buttons::Focus, last.focus),
        stick_centered,
        is_focused: state_of(states, Buttons::Focus).pressed,
    }
}

impl PlayerInput {
    /// The frames since `button` was pressed.
    pub open spec fn frames_since(self, button: Buttons) -> u32 {
        match button {
            Buttons::Swing => self.swing,
            Buttons::Crush => self.crush,
            Buttons::Dash => self.dash,
            Buttons::Focus => self.focus,
        }
    }

    /// No button pressed, the stick centered, no focus.
    pub fn new() -> (input: Self)
        ensures
            input == (PlayerInput {
                swing: u32::MAX,
                crush: u32::MAX,
                dash: u32::MAX,
                focus: u32::MAX,
                stick_centered: true,
                is_focused: false,
            }),
    {
        PlayerInput {
            swing: u32::MAX,
            crush: u32::MAX,
            dash: u32::MAX,
            focus: u32::MAX,
            stick_centered: true,
            is_focused: false,
        }
    }

    /// The number of frames since `button` was pressed.
    pub fn frames_since_last_press(&self, button: Buttons) -> (frames: u32)
        ensures
            frames == self.frames_since(button),
    {
        match button {
            Buttons::Swing => self.swing,
            Buttons::Crush => self.crush,
            Buttons::Dash => self.dash,
            Buttons::Focus => self.focus,
        }
    }

    /// Reads the controls of a new frame: each button's count goes on from the input state,
    /// `stick_centered` says whether the stick is within its dead zone, and focus is on while
    /// its button is held.
    pub fn update(&mut self, input_state: &InputState<Buttons>, stick_centered: bool)
        requires
            input_state.wf(),
        ensures
            *final(self) == read_input(*old(self), input_state@, stick_centered),
    {
        proof {
            lemma_buttons_eq_is_equality();
        }
        self.swing = next_press_count(input_state, Buttons::Swing, self.swing);
        self.crush = next_press_count(input_state, Buttons::Crush, self.crush);
        self.dash = next_press_count(input_state, Buttons::Dash, self.dash);
        self.focus = next_press_count(input_state, Buttons::Focus, self.focus);
        self.stick_centered = stick_centered;
        self.is_focused = input_state.get_button_down(Buttons::Focus);
    }
}

/// A dash: the player moves fast in one direction for a number of frames, then skids.
#[derive(Clone, Copy, Debug, PartialEq, Eq, Structural)]
pub struct DashState {
    pub dash_frame: u32,
    pub max_dash_frames: u32,
    pub skid_frames: u32,
}

/// A skid: the player slows down over a number of frames.
#[derive(Clone, Copy, Debug, PartialEq, Eq, Structural)]
pub struct SkidState {
    pub frame: u32,
    pub max_frames: u32,
}

/// A swing: the player slides forward while slowing down; a hurt box and a parry box are put
/// out and taken back at given frames; from the recovery frame on, another swing can follow.
#[derive(Clone, Copy, Debug, PartialEq, Eq, Structural)]
pub struct SwingState {
    pub hurtbox_begin: u32,
    pub hurtbox_end: u32,
    pub has_hurtbox: bool,
    pub parrybox_begin: u32,
    pub parrybox_end: u32,
    pub has_parrybox: bool,
    pub slide_end: u32,
    pub recovery_begin: u32,
    pub frame: u32,
    pub max_frames: u32,
}

/// The movement states of the player.
#[derive(Clone, Copy, Debug, PartialEq, Eq, Structural)]
pub enum PlayerState {
    Normal,
    Dash(DashState),
    Skid(SkidState),
    Swing(SwingState),
}

/// What a step does to the player, besides changing its state.
#[derive(Clone, Copy, Debug, PartialEq, Eq, Structural)]
pub enum PlayerEffect {
    /// Turn to face the stick.
    FaceStick,
    /// Run along the stick (slower while focused), or stand still when it is centered; the
    /// combat geometry becomes the body's hit box alone.
    Run,
    /// Start a dash along the stick.
    StartDash,
    /// Start a swing forward at the given speed.
    StartSwing(u32),
    /// Turn to face the way of the dash.
    FaceDash,
    /// Move at the dash's velocity.
    DashMove,
    /// Start a skid at a part of the dash's velocity.
    StartSkid,
    /// Move at the skid's velocity scaled by the first number over the second.
    SkidMove(u32, u32),
    /// Move at the swing's velocity scaled by the first number over the second.
    Slide(u32, u32),
    /// Put out the swing's hurt box.
    InsertHurtbox,
    /// Take the swing's hurt box back.
    RemoveHurtbox,
    /// Put out the swing's parry box.
    InsertParrybox,
    /// Take the swing's parry box back.
    RemoveParrybox,
}

/// A dash as it starts.
pub open spec fn fresh_dash() -> DashState {
    DashState { dash_frame: 0, max_dash_frames: DASH_FRAMES, skid_frames: SKID_FRAMES }
}

/// A swing as it starts.
pub open spec fn fresh_swing() -> SwingState {
    SwingState {
        hurtbox_begin: 7,
        hurtbox_end: 14,
        has_hurtbox: false,
        parrybox_begin: 5,
        parrybox_end: 16,
        has_parrybox: false,
        slide_end: 11,
        recovery_begin: 16,
        frame: 0,
        max_frames: 21,
    }
}

impl DashState {
    /// A dash as it starts: `dash_frames` frames of dashing, then a skid of `skid_frames`.
    pub fn new(dash_frames: u32, skid_frames: u32) -> (dash: Self)
        ensures
            dash == (DashState { dash_frame: 0, max_dash_frames: dash_frames, skid_frames }),
    {
        DashState { dash_frame: 0, max_dash_frames: dash_frames, skid_frames }
    }
}

impl SkidState {
    /// A skid of `frames` frames as it starts.
    pub fn new(frames: u32) -> (skid: Self)
        ensures
            skid == (SkidState { frame: 0, max_frames: frames }),
    {
        SkidState { frame: 0, max_frames: frames }
    }
}

impl SwingState {
    /// A swing as it starts: the parry box is out from frame 5 to 16 and the hurt box from 7 to
    /// 14; the slide slows down until frame 11; another swing can follow from frame 16; it
    /// lasts 21 frames.
    pub fn new() -> (swing: Self)
        ensures
            swing == fresh_swing(),
    {
        SwingState {
            hurtbox_begin: 7,
            hurtbox_end: 14,
            has_hurtbox: false,
            parrybox_begin: 5,
            parrybox_end: 16,
            has_parrybox: false,
            slide_end: 11,
            recovery_begin: 16,
            frame: 0,
            max_frames: 21,
        }
    }
}

/// Whether a dash is asked for: the dash button pressed fewer than `within` frames ago, with
/// the stick out of center.
pub open spec fn dash_asked(input: PlayerInput, within: u32) -> bool {
    input.dash < within && !input.stick_centered
}

/// One step of a state: the state as it is after the step, the state it hands over to (if
/// any), and what the step does, in order.
pub open spec fn spec_step(state: PlayerState, input: PlayerInput) -> (
    PlayerState,
    Option<PlayerState>,
    Seq<PlayerEffect>,
) {
    match state {
        PlayerState::Normal => {
            let face = if !input.stick_centered {
                seq![PlayerEffect::FaceStick]
            } else {
                Seq::empty()
            };
            if dash_asked(input, 8) {
                (state, Some(PlayerState::Dash(fresh_dash())), face.push(PlayerEffect::StartDash))
            } else if input.swing < 8 {
                (
                    state,
                    Some(PlayerState::Swing(fresh_swing())),
                    face.push(PlayerEffect::StartSwing(SWING_SPEED)),
                )
            } else {
                (state, None, face.push(PlayerEffect::Run))
            }
        },
        PlayerState::Dash(d) => {
            if d.dash_frame < d.max_dash_frames {
                (
                    PlayerState::Dash(DashState { dash_frame: (d.dash_frame + 1) as u32, ..d }),
                    None,
                    seq![PlayerEffect::FaceDash, PlayerEffect::DashMove],
                )
            } else {
                (
                    state,
                    Some(PlayerState::Skid(SkidState { frame: 0, max_frames: d.skid_frames })),
                    seq![PlayerEffect::FaceDash, PlayerEffect::StartSkid],
                )
            }
        },
        PlayerState::Skid(k) => {
            if dash_asked(input, 4) {
                (state, Some(PlayerState::Dash(fresh_dash())), seq![PlayerEffect::StartDash])
            } else if k.frame < k.max_frames {
                let frame = (k.frame + 1) as u32;
                (
                    PlayerState::Skid(SkidState { frame, ..k }),
                    None,
                    seq![PlayerEffect::SkidMove((k.max_frames - frame) as u32, k.max_frames)],
                )
            } else {
                (state, Some(PlayerState::Normal), Seq::empty())
            }
        },
        PlayerState::Swing(w) => {
            if w.frame < w.max_frames {
                let (w1, e1) = swing_boxes(w);
                if input.swing < 8 && w.frame >= w.recovery_begin {
                    (
                        PlayerState::Swing(w1),
                        Some(PlayerState::Swing(fresh_swing())),
                        e1 + swing_cleanup(w1).push(PlayerEffect::StartSwing(RESWING_SPEED)),
                    )
                } else {
                    (PlayerState::Swing(SwingState { frame: (w.frame + 1) as u32, ..w1 }), None, e1)
                }
            } else {
                (state, Some(PlayerState::Normal), Seq::empty())
            }
        },
    }
}

/// The slide, and the hit boxes put out or taken back, at the current frame of a swing; and the
/// swing with what it has put out.
pub open spec fn swing_boxes(w: SwingState) -> (SwingState, Seq<PlayerEffect>) {
    let slide = if w.frame <= w.slide_end {
        seq![PlayerEffect::Slide((w.slide_end - w.frame) as u32, w.slide_end)]
    } else {
        Seq::empty()
    };
    let (has_hurtbox, hurt) = if w.frame == w.hurtbox_begin {
        (true, seq![PlayerEffect::InsertHurtbox])
    } else if w.frame == w.hurtbox_end {
        (w.has_hurtbox, seq![PlayerEffect::RemoveHurtbox])
    } else {
        (w.has_hurtbox, Seq::empty())
    };
    let (has_parrybox, parry) = if w.frame == w.parrybox_begin {
        (true, seq![PlayerEffect::InsertParrybox])
    } else if w.frame == w.parrybox_end {
        (w.has_parrybox, seq![PlayerEffect::RemoveParrybox])
    } else {
        (w.has_parrybox, Seq::empty())
    };
    (SwingState { has_hurtbox, has_parrybox, ..w }, slide + hurt + parry)
}

/// Taking back every box a swing has put out, as another swing starts.
pub open spec fn swing_cleanup(w: SwingState) -> Seq<PlayerEffect> {
    (if w.has_hurtbox {
        seq![PlayerEffect::RemoveHurtbox]
    } else {
        Seq::empty()
    }) + (if w.has_parrybox {
        seq![PlayerEffect::RemoveParrybox]
    } else {
        Seq::empty()
    })
}

/// A swing slides with a share of its speed that runs down by one part a frame to nothing at the
/// slide's last frame. It puts its hurt box out at the hurt box's first frame and takes it back
/// at its last frame, and the same for its parry box; a swing that starts afresh reaches both
/// frames of each box before it ends, so every box it puts out is taken back.
pub proof fn lemma_swing_boxes_come_and_go(w: SwingState, input: PlayerInput)
    requires
        w.frame < w.max_frames,
    ensures
        ({
            let effects = spec_step(PlayerState::Swing(w), input).2;
            &&& effects.contains(PlayerEffect::InsertHurtbox) <==> w.frame == w.hurtbox_begin
            &&& effects.contains(PlayerEffect::InsertParrybox) <==> w.frame == w.parrybox_begin
            &&& (w.frame == w.hurtbox_end && w.frame != w.hurtbox_begin) ==> effects.contains(
                PlayerEffect::RemoveHurtbox,
            )
            &&& (w.frame == w.parrybox_end && w.frame != w.parrybox_begin) ==> effects.contains(
                PlayerEffect::RemoveParrybox,
            )
            &&& forall|left: u32, whole: u32|
                #[trigger] effects.contains(PlayerEffect::Slide(left, whole)) <==> (w.frame
                    <= w.slide_end && whole == w.slide_end && left + w.frame == w.slide_end)
        }),
        fresh_swing().frame <= fresh_swing().hurtbox_begin < fresh_swing().hurtbox_end
            < fresh_swing().max_frames,
        fresh_swing().frame <= fresh_swing().parrybox_begin < fresh_swing().parrybox_end
            < fresh_swing().max_frames,
{
    let effects = spec_step(PlayerState::Swing(w), input).2;
    let (w1, e1) = swing_boxes(w);
    let slide = if w.frame <= w.slide_end {
        seq![PlayerEffect::Slide((w.slide_end - w.frame) as u32, w.slide_end)]
    } else {
        Seq::empty()
    };
    let hurt = if w.frame == w.hurtbox_begin {
        seq![PlayerEffect::InsertHurtbox]
    } else if w.frame == w.hurtbox_end {
        seq![PlayerEffect::RemoveHurtbox]
    } else {
        Seq::<PlayerEffect>::empty()
    };
    let parry = if w.frame == w.parrybox_begin {
        seq![PlayerEffect::InsertParrybox]
    } else if w.frame == w.parrybox_end {
        seq![PlayerEffect::RemoveParrybox]
    } else {
        Seq::<PlayerEffect>::empty()
    };
    assert(e1 == slide + hurt + parry);
    let tail = if input.swing < 8 && w.frame >= w.recovery_begin {
        swing_cleanup(w1).push(PlayerEffect::StartSwing(RESWING_SPEED))
    } else {
        Seq::<PlayerEffect>::empty()
    };
    assert(effects =~= e1 + tail);
    let cleanup = swing_cleanup(w1);
    assert forall|x: PlayerEffect| #[trigger] effects.contains(x) <==> (slide.contains(x)
        || hurt.contains(x) || parry.contains(x) || tail.contains(x)) by {
        lemma_contains_concat(slide, hurt, x);
        lemma_contains_concat(slide + hurt, parry, x);
        lemma_contains_concat(e1, tail, x);
    }
    assert forall|x: PlayerEffect| #[trigger] tail.contains(x) ==> (x
        == PlayerEffect::RemoveHurtbox || x == PlayerEffect::RemoveParrybox || x
        == PlayerEffect::StartSwing(RESWING_SPEED)) by {
        if tail.contains(x) {
            let j = choose|j: int| 0 <= j < tail.len() && tail[j] == x;
        }
    }
    assert forall|x: PlayerEffect| #[trigger] slide.contains(x) <==> (slide.len() == 1 && x == slide[0]) by {
        if slide.contains(x) {
            let j = choose|j: int| 0 <= j < slide.len() && slide[j] == x;
        }
        if slide.len() == 1 && x == slide[0] {
            assert(slide[0] == x);
        }
    }
    assert forall|x: PlayerEffect| #[trigger] hurt.contains(x) <==> (hurt.len() == 1 && x == hurt[0]) by {
        if hurt.contains(x) {
            let j = choose|j: int| 0 <= j < hurt.len() && hurt[j] == x;
        }
        if hurt.len() == 1 && x == hurt[0] {
            assert(hurt[0] == x);
        }
    }
    assert forall|x: PlayerEffect| #[trigger] parry.contains(x) <==> (parry.len() == 1 && x == parry[0]) by {
        if parry.contains(x) {
            let j = choose|j: int| 0 <= j < parry.len() && parry[j] == x;
        }
        if parry.len() == 1 && x == parry[0] {
            assert(parry[0] == x);
        }
    }
}

/// An item is in two sequences put together just when it is in one of them.
proof fn lemma_contains_concat<A>(a: Seq<A>, b: Seq<A>, x: A)
    ensures
        (a + b).contains(x) <==> (a.contains(x) || b.contains(x)),
{
    if (a + b).contains(x) {
        let j = choose|j: int| 0 <= j < (a + b).len() && (a + b)[j] == x;
        if j < a.len() {
            assert(a[j] == x);
        } else {
            assert(b[j - a.len()] == x);
        }
    }
    if a.contains(x) {
        let j = choose|j: int| 0 <= j < a.len() && a[j] == x;
        assert((a + b)[j] == x);
    }
    if b.contains(x) {
        let j = choose|j: int| 0 <= j < b.len() && b[j] == x;
        assert((a + b)[a.len() + j] == x);
    }
}

/// How many hand-overs follow a run state before a state stays.
pub open spec fn normal_handovers(input: PlayerInput) -> nat {
    if dash_asked(input, 8) || input.swing < 8 {
        1
    } else {
        0
    }
}

/// How many hand-overs follow a skid state before a state stays.
pub open spec fn skid_handovers(k: SkidState, input: PlayerInput) -> nat {
    if dash_asked(input, 4) {
        1
    } else if k.frame < k.max_frames {
        0
    } else {
        1 + normal_handovers(input)
    }
}

/// How many hand-overs follow a state before a state stays: a state that starts afresh always
/// stays for its first frame, so the chain is short.
pub open spec fn handovers(state: PlayerState, input: PlayerInput) -> nat {
    match state {
        PlayerState::Normal => normal_handovers(input),
        PlayerState::Dash(d) => if d.dash_frame < d.max_dash_frames {
            0
        } else {
            1 + skid_handovers(SkidState { frame: 0, max_frames: d.skid_frames }, input)
        },
        PlayerState::Skid(k) => skid_handovers(k, input),
        PlayerState::Swing(w) => if w.frame < w.max_frames {
            if input.swing < 8 && w.frame >= w.recovery_begin {
                1
            } else {
                0
            }
        } else {
            1 + normal_handovers(input)
        },
    }
}

/// A hand-over leads to a state with fewer hand-overs to come.
pub proof fn lemma_handover_shortens(state: PlayerState, input: PlayerInput)
    ensures
        spec_step(state, input).1 matches Some(next) ==> handovers(next, input) < handovers(
            state,
            input,
        ),
{
}

/// A frame steps at most four states: a dash that ends hands over to a skid, a skid that ends
/// to a run, and a run to a dash or a swing, which stay for their first frame.
pub proof fn lemma_handovers_bounded(state: PlayerState, input: PlayerInput)
    ensures
        handovers(state, input) <= 3,
        handovers(PlayerState::Dash(fresh_dash()), input) == 0,
        handovers(PlayerState::Swing(fresh_swing()), input) == 0,
{
}

/// Steps a state, and the states it hands over to, until one stays: the state that stays, and
/// everything the steps did, in order.
pub open spec fn settle(state: PlayerState, input: PlayerInput) -> (PlayerState, Seq<PlayerEffect>)
    decreases handovers(state, input),
{
    let (stepped, next, effects) = spec_step(state, input);
    match next {
        None => (stepped, effects),
        Some(n) => {
            let (last, rest) = settle(n, input);
            (last, effects + rest)
        },
    }
}

/// Pushes the effect onto the list.
fn push_effect(effects: &mut Vec<PlayerEffect>, effect: PlayerEffect)
    ensures
        final(effects)@ == old(effects)@.push(effect),
{
    effects.push(effect);
}

/// The boxes of a swing at its current frame.
fn step_swing_boxes(w: SwingState, effects: &mut Vec<PlayerEffect>) -> (stepped: SwingState)
    ensures
        stepped == swing_boxes(w).0,
        final(effects)@ == old(effects)@ + swing_boxes(w).1,
{
    let ghost start = effects@;
    let mut stepped = w;
    if w.frame <= w.slide_end {
        push_effect(effects, PlayerEffect::Slide(w.slide_end - w.frame, w.slide_end));
    }
    let ghost after_slide = effects@;
    if w.frame == w.hurtbox_begin {
        stepped.has_hurtbox = true;
        push_effect(effects, PlayerEffect::InsertHurtbox);
    } else if w.frame == w.hurtbox_end {
        push_effect(effects, PlayerEffect::RemoveHurtbox);
    }
    let ghost after_hurt = effects@;
    if w.frame == w.parrybox_begin {
        stepped.has_parrybox = true;
        push_effect(effects, PlayerEffect::InsertParrybox);
    } else if w.frame == w.parrybox_end {
        push_effect(effects, PlayerEffect::RemoveParrybox);
    }
    assert(effects@ =~= start + swing_boxes(w).1);
    stepped
}

/// One step of a state: the state as it is after the step, the state it hands over to (if
/// any); what the step does is pushed onto `effects`, in order.
pub fn step(state: PlayerState, input: &PlayerInput, effects: &mut Vec<PlayerEffect>) -> (r: (
    PlayerState,
    Option<PlayerState>,
))
    ensures
        r.0 == spec_step(state, *input).0,
        r.1 == spec_step(state, *input).1,
        final(effects)@ == old(effects)@ + spec_step(state, *input).2,
{
    let ghost start = effects@;
    match state {
        PlayerState::Normal => {
            if !input.stick_centered {
                push_effect(effects, PlayerEffect::FaceStick);
            }
            if input.dash < 8 && !input.stick_centered {
                push_effect(effects, PlayerEffect::StartDash);
                assert(effects@ =~= start + spec_step(state, *input).2);
                (state, Some(PlayerState::Dash(DashState::new(DASH_FRAMES, SKID_FRAMES))))
            } else if input.swing < 8 {
                push_effect(effects, PlayerEffect::StartSwing(SWING_SPEED));
                assert(effects@ =~= start + spec_step(state, *input).2);
                (state, Some(PlayerState::Swing(SwingState::new())))
            } else {
                push_effect(effects, PlayerEffect::Run);
                assert(effects@ =~= start + spec_step(state, *input).2);
                (state, None)
            }
        },
        PlayerState::Dash(d) => {
            push_effect(effects, PlayerEffect::FaceDash);
            if d.dash_frame < d.max_dash_frames {
                push_effect(effects, PlayerEffect::DashMove);
                assert(effects@ =~= start + spec_step(state, *input).2);
                (PlayerState::Dash(DashState { dash_frame: d.dash_frame + 1, ..d }), None)
            } else {
                push_effect(effects, PlayerEffect::StartSkid);
                assert(effects@ =~= start + spec_step(state, *input).2);
                (state, Some(PlayerState::Skid(SkidState::new(d.skid_frames))))
            }
        },
        PlayerState::Skid(k) => {
            if input.dash < 4 && !input.stick_centered {
                push_effect(effects, PlayerEffect::StartDash);
                assert(effects@ =~= start + spec_step(state, *input).2);
                (state, Some(PlayerState::Dash(DashState::new(DASH_FRAMES, SKID_FRAMES))))
            } else if k.frame < k.max_frames {
                let frame = k.frame + 1;
                push_effect(effects, PlayerEffect::SkidMove(k.max_frames - frame, k.max_frames));
                assert(effects@ =~= start + spec_step(state, *input).2);
                (PlayerState::Skid(SkidState { frame, ..k }), None)
            } else {
                assert(effects@ =~= start + spec_step(state, *input).2);
                (state, Some(PlayerState::Normal))
            }
        },
        PlayerState::Swing(w) => {
            if w.frame < w.max_frames {
                let w1 = step_swing_boxes(w, effects);
                let ghost after_boxes = effects@;
                if input.swing < 8 && w.frame >= w.recovery_begin {
                    if w1.has_hurtbox {
                        push_effect(effects, PlayerEffect::RemoveHurtbox);
                    }
                    if w1.has_parrybox {
                        push_effect(effects, PlayerEffect::RemoveParrybox);
                    }
                    push_effect(effects, PlayerEffect::StartSwing(RESWING_SPEED));
                    assert(effects@ =~= start + spec_step(state, *input).2);
                    (PlayerState::Swing(w1), Some(PlayerState::Swing(SwingState::new())))
                } else {
                    assert(effects@ =~= start + spec_step(state, *input).2);
                    (PlayerState::Swing(SwingState { frame: w.frame + 1, ..w1 }), None)
                }
            } else {
                assert(effects@ =~= start + spec_step(state, *input).2);
                (state, Some(PlayerState::Normal))
            }
        },
    }
}

/// The player controller: a stack of movement states, of which the top one steps, and the
/// controls they read.
pub struct PlayerController {
    pub stack: Vec<PlayerState>,
    pub input: PlayerInput,
}

impl PlayerController {
    /// A controller that starts in the run state, with no button pressed.
    pub fn new() -> (controller: Self)
        ensures
            controller.stack@ == seq![PlayerState::Normal],
            controller.input == (PlayerInput {
                swing: u32::MAX,
                crush: u32::MAX,
                dash: u32::MAX,
                focus: u32::MAX,
                stick_centered: true,
                is_focused: false,
            }),
    {
        PlayerController { stack: vec![PlayerState::Normal], input: PlayerInput::new() }
    }

    /// One frame: reads the controls, then steps the top state, and each state it hands over
    /// to in its place, until one stays. Returns what the steps did, in order.
    pub fn update(&mut self, input_state: &InputState<Buttons>, stick_centered: bool) -> (effects:
        Vec<PlayerEffect>)
        requires
            old(self).stack@.len() > 0,
            input_state.wf(),
        ensures
            final(self).input == read_input(old(self).input, input_state@, stick_centered),
            final(self).stack@ == old(self).stack@.update(
                old(self).stack@.len() - 1,
                settle(old(self).stack@.last(), final(self).input).0,
            ),
            effects@ == settle(old(self).stack@.last(), final(self).input).1,
    {
        self.input.update(input_state, stick_centered);
        let input = self.input;
        let top = self.stack.len() - 1;
        let mut current = self.stack[top];
        let mut effects: Vec<PlayerEffect> = Vec::new();
        let ghost target = settle(current, input);
        loop
            invariant_except_break
                effects@ + settle(current, input).1 == target.1,
                settle(current, input).0 == target.0,
            ensures
                effects@ == target.1,
                current == target.0,
            decreases handovers(current, input),
        {
            let ghost before = effects@;
            let (stepped, next) = step(current, &input, &mut effects);
            match next {
                None => {
                    assert(before + settle(current, input).1 == effects@);
                    current = stepped;
                    break;
                },
                Some(n) => {
                    proof {
                        lemma_handover_shortens(current, input);
                        assert(settle(current, input).1 == spec_step(current, input).2 + settle(
                            n,
                            input,
                        ).1);
                        assert(effects@ + settle(n, input).1 =~= before + settle(current, input).1);
                    }
                    current = n;
                },
            }
        }
        self.stack.set(top, current);
        effects
    }
}

} // verus!
