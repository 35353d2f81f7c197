//! What reaches the state machine, and what it asks for in return.

use crate::binary64::Binary64;
use crate::scene::{Scene, SceneKind, SceneView};
use vstd::prelude::*;

verus! {

/// The outcome of the wavelength arithmetic, as the machine takes it in: the
/// two quantities and the way each is displayed.
#[derive(Debug)]
pub struct ProbeValues {
    pub lambda: Binary64,
    pub pitch: Binary64,
    pub lambda_text: String,
    pub pitch_text: String,
}

/// [`ProbeValues`] with its text as sequences of characters.
pub struct ProbeValuesView {
    pub lambda: Binary64,
    pub pitch: Binary64,
    pub lambda_text: Seq<char>,
    pub pitch_text: Seq<char>,
}

impl View for ProbeValues {
    type V = ProbeValuesView;

    open spec fn view(&self) -> ProbeValuesView {
        ProbeValuesView {
            lambda: self.lambda,
            pitch: self.pitch,
            lambda_text: self.lambda_text@,
            pitch_text: self.pitch_text@,
        }
    }
}

/// The four numbers of a refraction result as they are displayed.
#[derive(Debug)]
pub struct RefractionTexts {
    pub angle_min: String,
    pub angle_max: String,
    pub velocity_incidence: String,
    pub velocity_medium: String,
}

/// [`RefractionTexts`] as sequences of characters.
pub struct RefractionTextsView {
    pub angle_min: Seq<char>,
    pub angle_max: Seq<char>,
    pub velocity_incidence: Seq<char>,
    pub velocity_medium: Seq<char>,
}

impl View for RefractionTexts {
    type V = RefractionTextsView;

    open spec fn view(&self) -> RefractionTextsView {
        RefractionTextsView {
            angle_min: self.angle_min@,
            angle_max: self.angle_max@,
            velocity_incidence: self.velocity_incidence@,
            velocity_medium: self.velocity_medium@,
        }
    }
}

/// A message to the state machine: something the user did, or the answer to
/// an [`Action`] that the machine asked for.
#[derive(Debug)]
pub enum Msg {
    /// Leave the current scene for the given one.
    SwitchTo(Scene),
    /// Save the record being edited.
    AddNew,
    /// The description was edited.
    UpdateDescription(String),
    /// The frequency was edited.
    UpdateFrequency(Binary64),
    /// The velocity was edited.
    UpdateVelocity(Binary64),
    /// Calculate wavelength and pitch.
    CalcLP,
    /// The smaller incidence angle was edited.
    UpdateIncidenceAngleMin(Binary64),
    /// The larger incidence angle was edited.
    UpdateIncidenceAngleMax(Binary64),
    /// The velocity on the incidence side was edited.
    UpdateVelocityIncidence(Binary64),
    /// The velocity on the refraction side was edited.
    UpdateVelocityRefraction(Binary64),
    /// The velocity in steel was edited. No form has such a field yet, so no
    /// scene accepts this message.
    UpdateVelocitySteel(Binary64),
    /// Calculate the refraction angles.
    CalcRefraction,
    /// Erase all records.
    Clear,
    /// Answer to [`Action::ComputeProbe`].
    ProbeComputed(ProbeValues),
    /// Answer to [`Action::DescribeRefraction`].
    RefractionDescribed(RefractionTexts),
    /// Answer to [`Action::ConfirmClear`]: whether the user agreed.
    ClearConfirmed(bool),
}

/// A message with its text as sequences of characters.
pub enum MsgView {
    SwitchTo(SceneView),
    AddNew,
    UpdateDescription(Seq<char>),
    UpdateFrequency(Binary64),
    UpdateVelocity(Binary64),
    CalcLP,
    UpdateIncidenceAngleMin(Binary64),
    UpdateIncidenceAngleMax(Binary64),
    UpdateVelocityIncidence(Binary64),
    UpdateVelocityRefraction(Binary64),
    UpdateVelocitySteel(Binary64),
    CalcRefraction,
    Clear,
    ProbeComputed(ProbeValuesView),
    RefractionDescribed(RefractionTextsView),
    ClearConfirmed(bool),
}

impl View for Msg {
    type V = MsgView;

    open spec fn view(&self) -> MsgView {
        match self {
            Msg::SwitchTo(scene) => MsgView::SwitchTo(scene@),
            Msg::AddNew => MsgView::AddNew,
            Msg::UpdateDescription(text) => MsgView::UpdateDescription(text@),
            Msg::UpdateFrequency(value) => MsgView::UpdateFrequency(*value),
            Msg::UpdateVelocity(value) => MsgView::UpdateVelocity(*value),
            Msg::CalcLP => MsgView::CalcLP,
            Msg::UpdateIncidenceAngleMin(value) => MsgView::UpdateIncidenceAngleMin(*value),
            Msg::UpdateIncidenceAngleMax(value) => MsgView::UpdateIncidenceAngleMax(*value),
            Msg::UpdateVelocityIncidence(value) => MsgView::UpdateVelocityIncidence(*value),
            Msg::UpdateVelocityRefraction(value) => MsgView::UpdateVelocityRefraction(*value),
            Msg::UpdateVelocitySteel(value) => MsgView::UpdateVelocitySteel(*value),
            Msg::CalcRefraction => MsgView::CalcRefraction,
            Msg::Clear => MsgView::Clear,
            Msg::ProbeComputed(values) => MsgView::ProbeComputed(values@),
            Msg::RefractionDescribed(texts) => MsgView::RefractionDescribed(texts@),
            Msg::ClearConfirmed(agreed) => MsgView::ClearConfirmed(*agreed),
        }
    }
}

/// What the machine asks of its surroundings after a message was accepted.
/// Each of the first three is answered with a message of its own; the others
/// need no answer.
#[derive(Clone, Copy, Debug, PartialEq, Eq, Structural)]
pub enum Action {
    /// Divide the velocity by a thousand and by the frequency for the
    /// wavelength, halve that for the pitch, and answer with
    /// [`Msg::ProbeComputed`].
    ComputeProbe { frequency: Binary64, velocity: Binary64 },
    /// Put the four quantities in display form and answer with
    /// [`Msg::RefractionDescribed`].
    DescribeRefraction {
        angle_min: Binary64,
        angle_max: Binary64,
        velocity_incidence: Binary64,
        velocity_medium: Binary64,
    },
    /// Ask the user to confirm and answer with [`Msg::ClearConfirmed`].
    ConfirmClear,
    /// Write the records to persistent storage.
    Persist,
    /// Remove the records from persistent storage.
    Erase,
    /// Nothing but to show the scene again.
    Render,
}

/// A message that the active scene does not accept. The machine is left as
/// it was, and the message is handed back.
#[derive(Debug)]
pub struct IllegalTransition {
    /// The screen that was active.
    pub scene: SceneKind,
    /// The message that was refused.
    pub msg: Msg,
}

} // verus!
