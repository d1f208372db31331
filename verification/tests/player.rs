use heavy::belltower::Buttons;
use heavy::input::InputState;
use heavy::player::{
    step, DashState, PlayerController, PlayerEffect, PlayerInput, PlayerState, SkidState,
    SwingState,
};

fn idle_input() -> PlayerInput {
    PlayerInput::new()
}

#[test]
fn player_starts_running_and_stands_still() {
    let mut controller = PlayerController::new();
    assert_eq!(controller.stack, vec![PlayerState::Normal]);
    let input: InputState<Buttons> = InputState::new();
    let effects = controller.update(&input, true);
    assert_eq!(effects, vec![PlayerEffect::Run]);
    assert_eq!(controller.stack, vec![PlayerState::Normal]);
    let effects = controller.update(&input, false);
    assert_eq!(effects, vec![PlayerEffect::FaceStick, PlayerEffect::Run]);
}

#[test]
fn player_dashes_then_skids() {
    let mut controller = PlayerController::new();
    let mut input: InputState<Buttons> = InputState::new();
    input.update_button_down(Buttons::Dash);
    let effects = controller.update(&input, false);
    assert_eq!(
        effects,
        vec![
            PlayerEffect::FaceStick,
            PlayerEffect::StartDash,
            PlayerEffect::FaceDash,
            PlayerEffect::DashMove
        ]
    );
    assert_eq!(
        controller.stack,
        vec![PlayerState::Dash(DashState { dash_frame: 1, max_dash_frames: 7, skid_frames: 11 })]
    );
    for _ in 2..=7 {
        input.update();
        let effects = controller.update(&input, false);
        assert_eq!(effects, vec![PlayerEffect::FaceDash, PlayerEffect::DashMove]);
    }
    input.update();
    let effects = controller.update(&input, false);
    assert_eq!(
        effects,
        vec![PlayerEffect::FaceDash, PlayerEffect::StartSkid, PlayerEffect::SkidMove(10, 11)]
    );
    assert_eq!(controller.stack, vec![PlayerState::Skid(SkidState { frame: 1, max_frames: 11 })]);
    assert_eq!(controller.input.frames_since_last_press(Buttons::Dash), 7);
}

#[test]
fn player_skid_ends_in_a_run() {
    let mut effects = Vec::new();
    let skid = PlayerState::Skid(SkidState { frame: 11, max_frames: 11 });
    let (stepped, next) = step(skid, &idle_input(), &mut effects);
    assert_eq!(stepped, skid);
    assert_eq!(next, Some(PlayerState::Normal));
    assert!(effects.is_empty());

    // a dash asked for within four frames interrupts the skid
    let input = PlayerInput { dash: 3, stick_centered: false, ..idle_input() };
    let (_, next) = step(PlayerState::Skid(SkidState { frame: 2, max_frames: 11 }), &input, &mut effects);
    assert_eq!(next, Some(PlayerState::Dash(DashState::new(7, 11))));
    assert_eq!(effects, vec![PlayerEffect::StartDash]);
}

#[test]
fn player_swings() {
    let mut controller = PlayerController::new();
    let mut input: InputState<Buttons> = InputState::new();
    input.update_button_down(Buttons::Swing);
    let effects = controller.update(&input, true);
    assert_eq!(effects, vec![PlayerEffect::StartSwing(160), PlayerEffect::Slide(11, 11)]);
    let mut swing = SwingState::new();
    swing.frame = 1;
    assert_eq!(controller.stack, vec![PlayerState::Swing(swing)]);
}

#[test]
fn swing_puts_out_and_takes_back_boxes() {
    let mut effects = Vec::new();
    let mut swing = SwingState::new();
    swing.frame = 7;
    swing.has_parrybox = true;
    let (stepped, next) = step(PlayerState::Swing(swing), &idle_input(), &mut effects);
    assert_eq!(next, None);
    assert_eq!(effects, vec![PlayerEffect::Slide(4, 11), PlayerEffect::InsertHurtbox]);
    let mut expected = swing;
    expected.frame = 8;
    expected.has_hurtbox = true;
    assert_eq!(stepped, PlayerState::Swing(expected));

    // from the recovery frame on, a new press starts another swing
    let mut effects = Vec::new();
    let mut swing = SwingState::new();
    swing.frame = 16;
    swing.has_hurtbox = true;
    swing.has_parrybox = true;
    let input = PlayerInput { swing: 0, ..idle_input() };
    let (_, next) = step(PlayerState::Swing(swing), &input, &mut effects);
    assert_eq!(next, Some(PlayerState::Swing(SwingState::new())));
    assert_eq!(
        effects,
        vec![
            PlayerEffect::RemoveParrybox,
            PlayerEffect::RemoveHurtbox,
            PlayerEffect::RemoveParrybox,
            PlayerEffect::StartSwing(70)
        ]
    );
}
