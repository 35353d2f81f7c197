//! The state machine as mathematics: which messages a scene accepts, and
//! what an accepted message does.

use crate::beam::BeamAngleView;
use crate::msg::{Action, MsgView};
use crate::probe::ProbeView;
use crate::scene::SceneView;
use crate::text::{probe_summary_text, refraction_summary_text, zero_value_warning_text};
use vstd::prelude::*;

verus! {

/// The whole state: the saved records and the active scene.
pub struct ModelView {
    pub database: Seq<ProbeView>,
    pub scene: SceneView,
}

/// Whether the scene accepts the message.
///
/// The list accepts a switch to a scene that opens from it. Every other scene
/// accepts the switch back to the list. Beyond that, the probe form accepts
/// edits of its three fields, a calculation, a save, and computed values
/// while its inputs are not zero; the refraction form accepts edits of its
/// four fields, a calculation and its described result; the settings accept
/// the request to clear and the user's answer to it.
pub open spec fn accepts(scene: SceneView, msg: MsgView) -> bool {
    match scene {
        SceneView::SceneList => msg matches MsgView::SwitchTo(target) && target.opens_from_list(),
        SceneView::ProbeForm(draft) => match msg {
            MsgView::SwitchTo(target) => target is SceneList,
            MsgView::UpdateFrequency(_) => true,
            MsgView::UpdateVelocity(_) => true,
            MsgView::UpdateDescription(_) => true,
            MsgView::CalcLP => true,
            MsgView::ProbeComputed(_) => draft.computable(),
            MsgView::AddNew => true,
            _ => false,
        },
        SceneView::TFMPWIForm => msg matches MsgView::SwitchTo(target) && target is SceneList,
        SceneView::RefractionAngle(_) => match msg {
            MsgView::SwitchTo(target) => target is SceneList,
            MsgView::UpdateIncidenceAngleMin(_) => true,
            MsgView::UpdateIncidenceAngleMax(_) => true,
            MsgView::UpdateVelocityIncidence(_) => true,
            MsgView::UpdateVelocityRefraction(_) => true,
            MsgView::CalcRefraction => true,
            MsgView::RefractionDescribed(_) => true,
            _ => false,
        },
        SceneView::Settings => match msg {
            MsgView::SwitchTo(target) => target is SceneList,
            MsgView::Clear => true,
            MsgView::ClearConfirmed(_) => true,
            _ => false,
        },
    }
}

/// The probe draft after an accepted message that stays on the probe form
/// and saves nothing.
pub open spec fn edit_probe(draft: ProbeView, msg: MsgView) -> ProbeView {
    match msg {
        MsgView::UpdateFrequency(value) => ProbeView { frequency: value, ..draft },
        MsgView::UpdateVelocity(value) => ProbeView { velocity: value, ..draft },
        MsgView::UpdateDescription(text) => ProbeView { description: text, ..draft },
        MsgView::CalcLP => if draft.computable() {
            draft
        } else {
            ProbeView { description: zero_value_warning_text(), ..draft }
        },
        MsgView::ProbeComputed(values) => ProbeView {
            lambda: values.lambda,
            pitch: values.pitch,
            description: probe_summary_text(values.lambda_text, values.pitch_text),
            ..draft
        },
        _ => draft,
    }
}

/// The refraction draft after an accepted message that stays on the
/// refraction form. A described result takes the incidence angles over as
/// the refraction angles, unchanged.
pub open spec fn edit_beam(draft: BeamAngleView, msg: MsgView) -> BeamAngleView {
    match msg {
        MsgView::UpdateIncidenceAngleMin(value) => BeamAngleView { incidence_min: value, ..draft },
        MsgView::UpdateIncidenceAngleMax(value) => BeamAngleView { incidence_max: value, ..draft },
        MsgView::UpdateVelocityIncidence(value) => BeamAngleView {
            velocity_incidence: value,
            ..draft
        },
        MsgView::UpdateVelocityRefraction(value) => BeamAngleView {
            velocity_medium: value,
            ..draft
        },
        MsgView::RefractionDescribed(texts) => BeamAngleView {
            refraction_min: draft.incidence_min,
            refraction_max: draft.incidence_max,
            result: refraction_summary_text(
                texts.angle_min,
                texts.angle_max,
                texts.velocity_incidence,
                texts.velocity_medium,
            ),
            ..draft
        },
        _ => draft,
    }
}

/// The state after an accepted message.
pub open spec fn next_state(state: ModelView, msg: MsgView) -> ModelView {
    match (state.scene, msg) {
        (_, MsgView::SwitchTo(target)) => ModelView { scene: target, ..state },
        (SceneView::ProbeForm(draft), MsgView::AddNew) => ModelView {
            database: state.database.push(draft),
            scene: SceneView::ProbeForm(ProbeView::empty()),
        },
        (SceneView::ProbeForm(draft), _) => ModelView {
            scene: SceneView::ProbeForm(edit_probe(draft, msg)),
            ..state
        },
        (SceneView::RefractionAngle(draft), _) => ModelView {
            scene: SceneView::RefractionAngle(edit_beam(draft, msg)),
            ..state
        },
        (SceneView::Settings, MsgView::ClearConfirmed(true)) => ModelView {
            database: Seq::empty(),
            ..state
        },
        _ => state,
    }
}

/// What an accepted message asks of the surroundings.
pub open spec fn action_for(state: ModelView, msg: MsgView) -> Action {
    match (state.scene, msg) {
        (SceneView::ProbeForm(draft), MsgView::CalcLP) => if draft.computable() {
            Action::ComputeProbe { frequency: draft.frequency, velocity: draft.velocity }
        } else {
            Action::Render
        },
        (SceneView::ProbeForm(_), MsgView::AddNew) => Action::Persist,
        (SceneView::RefractionAngle(draft), MsgView::CalcRefraction) => Action::DescribeRefraction {
            angle_min: draft.incidence_min,
            angle_max: draft.incidence_max,
            velocity_incidence: draft.velocity_incidence,
            velocity_medium: draft.velocity_medium,
        },
        (SceneView::Settings, MsgView::Clear) => Action::ConfirmClear,
        (SceneView::Settings, MsgView::ClearConfirmed(true)) => Action::Erase,
        _ => Action::Render,
    }
}

} // verus!
