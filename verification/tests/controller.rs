use pushboard::controller::encoder_delta;
use pushboard::controller::Button;
use pushboard::controller::ButtonEffect;
use pushboard::controller::ControlState;
use pushboard::controller::PadLight;
use pushboard::controller::PadPress;
use pushboard::controller::PadRelease;
use pushboard::routing::PlaybackSink;

#[test]
fn surface_starts_with_both_switches_on() {
    let state = ControlState::new();
    assert!(state.is_mute_enabled);
    assert!(state.is_solo_enabled);
    assert!(!state.is_delete_held);
    assert!(!state.is_select_held);
    assert_eq!(state.active_recording_key, None);
    assert_eq!(state.selected_for_edit, None);
    assert_eq!(state.current_sink(), PlaybackSink::Default);
}

#[test]
fn encoder_steps_are_signed() {
    assert_eq!(encoder_delta(0), 0);
    assert_eq!(encoder_delta(1), 1);
    assert_eq!(encoder_delta(64), 64);
    assert_eq!(encoder_delta(65), -63);
    assert_eq!(encoder_delta(127), -1);
    assert_eq!(encoder_delta(128), 0);
}

#[test]
fn empty_pad_records_and_release_stops() {
    let mut state = ControlState::new();
    assert_eq!(state.handle_pad_pressed(36, false), PadPress::Record);
    assert_eq!(state.active_recording_key, Some(36));
    assert!(state.is_recording(36));
    assert_eq!(state.handle_pad_released(37, false), PadRelease::Light(PadLight::Off));
    assert_eq!(state.active_recording_key, Some(36));
    assert_eq!(state.handle_pad_released(36, false), PadRelease::StopRecording);
    assert_eq!(state.active_recording_key, None);
    assert_eq!(state.selected_for_edit, None);
}

#[test]
fn pad_with_a_sample_plays_and_is_selected() {
    let mut state = ControlState::new();
    assert_eq!(state.handle_pad_pressed(40, true), PadPress::Play);
    assert_eq!(state.selected_for_edit, Some(40));
    assert!(state.is_selected(40));
    assert_eq!(state.handle_pad_released(40, true), PadRelease::Light(PadLight::Selected));
    assert_eq!(state.handle_pad_pressed(41, true), PadPress::Play);
    assert_eq!(state.selected_for_edit, Some(41));
    assert_eq!(state.handle_pad_released(40, true), PadRelease::Light(PadLight::HasFile));
}

#[test]
fn select_moves_and_toggles_the_selection() {
    let mut state = ControlState::new();
    assert_eq!(
        state.handle_button_pressed(Button::Select),
        ButtonEffect { light: Some(true), route: None }
    );
    assert!(state.is_select_held);
    assert_eq!(state.handle_pad_pressed(1, false), PadPress::Nothing);
    assert_eq!(state.selected_for_edit, None);
    assert_eq!(state.handle_pad_pressed(1, true), PadPress::Select { previous: None });
    assert_eq!(state.handle_pad_pressed(2, true), PadPress::Select { previous: Some(1) });
    assert_eq!(state.selected_for_edit, Some(2));
    assert_eq!(state.handle_pad_released(2, true), PadRelease::Nothing);
    assert_eq!(state.handle_pad_pressed(2, true), PadPress::Deselect);
    assert_eq!(state.selected_for_edit, None);
    assert_eq!(
        state.handle_button_released(Button::Select),
        ButtonEffect { light: Some(false), route: None }
    );
    assert!(!state.is_select_held);
}

#[test]
fn delete_wins_over_select_and_clears_the_selection_of_its_pad() {
    let mut state = ControlState::new();
    state.handle_pad_pressed(5, true);
    state.handle_pad_released(5, true);
    state.handle_button_pressed(Button::Select);
    state.handle_button_pressed(Button::Delete);
    assert_eq!(state.handle_pad_pressed(6, true), PadPress::Delete);
    assert_eq!(state.selected_for_edit, Some(5));
    assert_eq!(state.handle_pad_pressed(6, false), PadPress::Nothing);
    assert_eq!(state.handle_pad_pressed(5, true), PadPress::Delete);
    assert_eq!(state.selected_for_edit, None);
    assert_eq!(state.handle_pad_released(5, false), PadRelease::Nothing);
    assert_eq!(state.active_recording_key, None);
}

#[test]
fn release_with_a_modifier_held_does_not_stop_the_recording() {
    let mut state = ControlState::new();
    state.handle_pad_pressed(9, false);
    state.handle_button_pressed(Button::Delete);
    assert_eq!(state.handle_pad_released(9, false), PadRelease::Nothing);
    assert_eq!(state.active_recording_key, Some(9));
    state.handle_button_released(Button::Delete);
    assert_eq!(state.handle_pad_released(9, false), PadRelease::StopRecording);
}

#[test]
fn mute_and_solo_toggle_and_reroute() {
    let mut state = ControlState::new();
    assert_eq!(
        state.handle_button_pressed(Button::Mute),
        ButtonEffect { light: Some(false), route: Some(PlaybackSink::Both) }
    );
    assert_eq!(
        state.handle_button_pressed(Button::Solo),
        ButtonEffect { light: Some(false), route: Some(PlaybackSink::Mixer) }
    );
    assert_eq!(
        state.handle_button_pressed(Button::Mute),
        ButtonEffect { light: Some(true), route: Some(PlaybackSink::Muted) }
    );
    assert_eq!(
        state.handle_button_pressed(Button::Solo),
        ButtonEffect { light: Some(true), route: Some(PlaybackSink::Default) }
    );
    assert_eq!(
        state.handle_button_released(Button::Mute),
        ButtonEffect { light: None, route: None }
    );
    assert!(state.is_mute_enabled);
    assert!(state.is_solo_enabled);
}

#[test]
fn other_buttons_do_nothing() {
    let mut state = ControlState::new();
    let before = state;
    assert_eq!(
        state.handle_button_pressed(Button::Other),
        ButtonEffect { light: None, route: None }
    );
    assert_eq!(
        state.handle_button_released(Button::Other),
        ButtonEffect { light: None, route: None }
    );
    assert_eq!(state, before);
}

#[test]
fn saved_take_selects_its_pad() {
    let mut state = ControlState::new();
    state.handle_pad_pressed(12, false);
    state.handle_pad_released(12, false);
    state.handle_file_saved(12);
    assert_eq!(state.selected_for_edit, Some(12));
    assert_eq!(state.handle_pad_released(12, true), PadRelease::Light(PadLight::Selected));
}
