//! The control surface's rules: what a pad, a button or an encoder means in
//! the state that the surface is in.
//!
//! Each rule takes the event with what the caller found out about the pad
//! (whether a sample is stored for it), moves the state on, and answers with
//! what the caller has to do: which command to send, which pad to light.

use crate::routing::PlaybackSink;
use vstd::prelude::*;

verus! {

/// The light of a pad.
#[derive(Clone, Copy, Debug, PartialEq, Eq)]
pub enum PadLight {
    /// No sample is stored for the pad.
    Off,
    /// A sample is stored for the pad.
    HasFile,
    /// The pad's sample is being recorded.
    Recording,
    /// The pad's sample is being played.
    Playing,
    /// The pad is selected for editing.
    Selected,
}

/// The buttons that the rules know.
#[derive(Clone, Copy, Debug, PartialEq, Eq)]
pub enum Button {
    /// Held while pads are pressed to delete their samples.
    Delete,
    /// Held while pads are pressed to select them for editing.
    Select,
    /// Toggles the first routing switch.
    Mute,
    /// Toggles the second routing switch.
    Solo,
    /// Any other button.
    Other,
}

/// What a pad press asks of the caller.
#[derive(Clone, Copy, Debug, PartialEq, Eq)]
pub enum PadPress {
    /// Nothing.
    Nothing,
    /// Delete the pad's sample, forget its settings, cancel its deferred
    /// stop and switch its light off.
    Delete,
    /// Light the pad as one that has a sample: it is no longer selected.
    Deselect,
    /// Light the pad as selected, and the pad that was selected before, if
    /// any, as one that has a sample.
    Select { previous: Option<u8> },
    /// Light the pad as playing and play its sample.
    Play,
    /// Send the start command for the pad's path and light the pad as
    /// recording.
    Record,
}

/// What a pad release asks of the caller.
#[derive(Clone, Copy, Debug, PartialEq, Eq)]
pub enum PadRelease {
    /// Nothing.
    Nothing,
    /// Send the stop command and light the pad as one that has a sample.
    StopRecording,
    /// Light the pad as given.
    Light(PadLight),
}

/// What a button press or release asks of the caller.
#[derive(Clone, Copy, Debug, PartialEq, Eq)]
pub struct ButtonEffect {
    /// Whether the button's light goes on or off; `None` leaves it.
    pub light: Option<bool>,
    /// The sink that playback has to be routed to now; `None` leaves the
    /// routing.
    pub route: Option<PlaybackSink>,
}

/// The state of the control surface.
#[derive(Clone, Copy, Debug, PartialEq, Eq)]
pub struct ControlState {
    /// The first routing switch.
    pub is_mute_enabled: bool,
    /// The second routing switch.
    pub is_solo_enabled: bool,
    /// Whether the delete button is held.
    pub is_delete_held: bool,
    /// Whether the select button is held.
    pub is_select_held: bool,
    /// The pad whose sample is being recorded.
    pub active_recording_key: Option<u8>,
    /// The pad that the encoders edit.
    pub selected_for_edit: Option<u8>,
}

/// The light of a pad at rest.
pub open spec fn resting_light(selected: bool, has_file: bool) -> PadLight {
    if selected {
        PadLight::Selected
    } else if has_file {
        PadLight::HasFile
    } else {
        PadLight::Off
    }
}

/// The step that an encoder reports as `raw`: up to 64 steps forward as
/// they are, steps backward counted down from 128.
pub open spec fn signed_steps(raw: u8) -> int {
    if raw > 64 {
        raw - 128
    } else {
        raw as int
    }
}

/// The signed number of steps that an encoder turned, from the 7-bit value
/// it reports.
pub fn encoder_delta(raw_delta: u8) -> (delta: i32)
    requires
        raw_delta <= 128,
    ensures
        delta == signed_steps(raw_delta),
{
    if raw_delta > 64 {
        -((128 - raw_delta) as i32)
    } else {
        raw_delta as i32
    }
}

impl ControlState {
    /// The state in which the surface starts.
    pub open spec fn initial() -> Self {
        ControlState {
            is_mute_enabled: true,
            is_solo_enabled: true,
            is_delete_held: false,
            is_select_held: false,
            active_recording_key: None,
            selected_for_edit: None,
        }
    }

    /// What a press of the pad at `address` asks for.
    pub open spec fn pad_press(self, address: u8, has_file: bool) -> PadPress {
        if self.is_delete_held {
            if has_file {
                PadPress::Delete
            } else {
                PadPress::Nothing
            }
        } else if self.is_select_held {
            if !has_file {
                PadPress::Nothing
            } else if self.selected_for_edit == Some(address) {
                PadPress::Deselect
            } else {
                PadPress::Select { previous: self.selected_for_edit }
            }
        } else if has_file {
            PadPress::Play
        } else {
            PadPress::Record
        }
    }

    /// The state after a press of the pad at `address`.
    pub open spec fn after_pad_press(self, address: u8, has_file: bool) -> Self {
        match self.pad_press(address, has_file) {
            PadPress::Nothing => self,
            PadPress::Delete => if self.selected_for_edit == Some(address) {
                ControlState { selected_for_edit: None, ..self }
            } else {
                self
            },
            PadPress::Deselect => ControlState { selected_for_edit: None, ..self },
            PadPress::Select { .. } => ControlState { selected_for_edit: Some(address), ..self },
            PadPress::Play => ControlState { selected_for_edit: Some(address), ..self },
            PadPress::Record => ControlState { active_recording_key: Some(address), ..self },
        }
    }

    /// What a release of the pad at `address` asks for.
    pub open spec fn pad_release(self, address: u8, has_file: bool) -> PadRelease {
        if self.is_delete_held || self.is_select_held {
            PadRelease::Nothing
        } else if self.active_recording_key == Some(address) {
            PadRelease::StopRecording
        } else {
            PadRelease::Light(resting_light(self.selected_for_edit == Some(address), has_file))
        }
    }

    /// The state after a release of the pad at `address`.
    pub open spec fn after_pad_release(self, address: u8, has_file: bool) -> Self {
        if self.pad_release(address, has_file) is StopRecording {
            ControlState { active_recording_key: None, ..self }
        } else {
            self
        }
    }

    /// The sink that the two routing switches select.
    pub open spec fn sink(self) -> PlaybackSink {
        if self.is_mute_enabled {
            if self.is_solo_enabled {
                PlaybackSink::Default
            } else {
                PlaybackSink::Muted
            }
        } else {
            if self.is_solo_enabled {
                PlaybackSink::Both
            } else {
                PlaybackSink::Mixer
            }
        }
    }

    /// The state after a press of `button`.
    pub open spec fn after_button_press(self, button: Button) -> Self {
        match button {
            Button::Delete => ControlState { is_delete_held: true, ..self },
            Button::Select => ControlState { is_select_held: true, ..self },
            Button::Mute => ControlState { is_mute_enabled: !self.is_mute_enabled, ..self },
            Button::Solo => ControlState { is_solo_enabled: !self.is_solo_enabled, ..self },
            Button::Other => self,
        }
    }

    /// What a press of `button` asks for.
    pub open spec fn button_press(self, button: Button) -> ButtonEffect {
        match button {
            Button::Delete | Button::Select => ButtonEffect { light: Some(true), route: None },
            Button::Mute => ButtonEffect {
                light: Some(!self.is_mute_enabled),
                route: Some(self.after_button_press(button).sink()),
            },
            Button::Solo => ButtonEffect {
                light: Some(!self.is_solo_enabled),
                route: Some(self.after_button_press(button).sink()),
            },
            Button::Other => ButtonEffect { light: None, route: None },
        }
    }

    /// The state after a release of `button`.
    pub open spec fn after_button_release(self, button: Button) -> Self {
        match button {
            Button::Delete => ControlState { is_delete_held: false, ..self },
            Button::Select => ControlState { is_select_held: false, ..self },
            _ => self,
        }
    }

    /// What a release of `button` asks for.
    pub open spec fn button_release(self, button: Button) -> ButtonEffect {
        match button {
            Button::Delete | Button::Select => ButtonEffect { light: Some(false), route: None },
            _ => ButtonEffect { light: None, route: None },
        }
    }

    /// The surface at start: both routing switches on, nothing held,
    /// nothing recording, nothing selected.
    pub fn new() -> (state: ControlState)
        ensures
            state == ControlState::initial(),
    {
        ControlState {
            is_mute_enabled: true,
            is_solo_enabled: true,
            is_delete_held: false,
            is_select_held: false,
            active_recording_key: None,
            selected_for_edit: None,
        }
    }

    /// Whether the pad at `address` is the one selected for editing.
    pub fn is_selected(&self, address: u8) -> (selected: bool)
        ensures
            selected == (self.selected_for_edit == Some(address)),
    {
        match self.selected_for_edit {
            Some(selected) => selected == address,
            None => false,
        }
    }

    /// Whether the pad at `address` is the one being recorded.
    pub fn is_recording(&self, address: u8) -> (recording: bool)
        ensures
            recording == (self.active_recording_key == Some(address)),
    {
        match self.active_recording_key {
            Some(active) => active == address,
            None => false,
        }
    }

    /// The sink that the routing switches select now.
    pub fn current_sink(&self) -> (sink: PlaybackSink)
        ensures
            sink == self.sink(),
    {
        PlaybackSink::from_switches(self.is_mute_enabled, self.is_solo_enabled)
    }

    /// A pad was pressed. With delete held, a pad that has a sample loses
    /// it, and loses the selection if it had it. With select held, a pad
    /// that has a sample takes the selection, or gives it up if it had it.
    /// With neither held, a pad that has a sample is played and selected,
    /// and one that has none starts recording.
    pub fn handle_pad_pressed(&mut self, address: u8, has_file: bool) -> (action: PadPress)
        ensures
            action == old(self).pad_press(address, has_file),
            *final(self) == old(self).after_pad_press(address, has_file),
    {
        if self.is_delete_held {
            if has_file {
                if self.is_selected(address) {
                    self.selected_for_edit = None;
                }
                PadPress::Delete
            } else {
                PadPress::Nothing
            }
        } else if self.is_select_held {
            if !has_file {
                PadPress::Nothing
            } else if self.is_selected(address) {
                self.selected_for_edit = None;
                PadPress::Deselect
            } else {
                let previous = self.selected_for_edit;
                self.selected_for_edit = Some(address);
                PadPress::Select { previous }
            }
        } else if has_file {
            self.selected_for_edit = Some(address);
            PadPress::Play
        } else {
            self.active_recording_key = Some(address);
            PadPress::Record
        }
    }

    /// A pad was released. With delete or select held, nothing follows.
    /// The pad that is being recorded stops recording. Any other pad goes
    /// back to its resting light.
    pub fn handle_pad_released(&mut self, address: u8, has_file: bool) -> (action: PadRelease)
        ensures
            action == old(self).pad_release(address, has_file),
            *final(self) == old(self).after_pad_release(address, has_file),
    {
        if self.is_delete_held || self.is_select_held {
            PadRelease::Nothing
        } else if self.is_recording(address) {
            self.active_recording_key = None;
            PadRelease::StopRecording
        } else if self.is_selected(address) {
            PadRelease::Light(PadLight::Selected)
        } else if has_file {
            PadRelease::Light(PadLight::HasFile)
        } else {
            PadRelease::Light(PadLight::Off)
        }
    }

    /// A button was pressed. Delete and select are held from now on and
    /// light up. Mute and solo each toggle their routing switch, show it
    /// with their light and route playback anew.
    pub fn handle_button_pressed(&mut self, button: Button) -> (effect: ButtonEffect)
        ensures
            effect == old(self).button_press(button),
            *final(self) == old(self).after_button_press(button),
    {
        match button {
            Button::Delete => {
                self.is_delete_held = true;
                ButtonEffect { light: Some(true), route: None }
            },
            Button::Select => {
                self.is_select_held = true;
                ButtonEffect { light: Some(true), route: None }
            },
            Button::Mute => {
                self.is_mute_enabled = !self.is_mute_enabled;
                ButtonEffect { light: Some(self.is_mute_enabled), route: Some(self.current_sink()) }
            },
            Button::Solo => {
                self.is_solo_enabled = !self.is_solo_enabled;
                ButtonEffect { light: Some(self.is_solo_enabled), route: Some(self.current_sink()) }
            },
            Button::Other => ButtonEffect { light: None, route: None },
        }
    }

    /// A button was released. Delete and select are no longer held and go
    /// dark; no other button does anything on release.
    pub fn handle_button_released(&mut self, button: Button) -> (effect: ButtonEffect)
        ensures
            effect == old(self).button_release(button),
            *final(self) == old(self).after_button_release(button),
    {
        match button {
            Button::Delete => {
                self.is_delete_held = false;
                ButtonEffect { light: Some(false), route: None }
            },
            Button::Select => {
                self.is_select_held = false;
                ButtonEffect { light: Some(false), route: None }
            },
            _ => ButtonEffect { light: None, route: None },
        }
    }

    /// A take was saved for the pad at `address`: the pad is selected for
    /// editing, to be lit as selected.
    pub fn handle_file_saved(&mut self, address: u8)
        ensures
            *final(self) == (ControlState { selected_for_edit: Some(address), ..*old(self) }),
    {
        self.selected_for_edit = Some(address);
    }
}

} // verus!
