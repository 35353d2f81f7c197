//! What holds of the state machine in every state, proved from its
//! definition.

use crate::machine::{accepts, action_for, next_state, ModelView};
use crate::msg::{Action, MsgView, ProbeValuesView, RefractionTextsView};
use crate::probe::ProbeView;
use crate::scene::{SceneKind, SceneView};
use crate::text::{probe_summary_text, zero_value_warning_text};
use vstd::prelude::*;

verus! {

/// A calculation on a draft whose frequency or velocity is zero is accepted,
/// asks for nothing, and replaces the description by the zero-value notice.
/// Inputs, wavelength and pitch stay as they were, and so do the records.
pub proof fn law_zero_input_yields_warning(state: ModelView)
    requires
        state.scene is ProbeForm,
        !state.scene->ProbeForm_0.computable(),
    ensures
        accepts(state.scene, MsgView::CalcLP),
        action_for(state, MsgView::CalcLP) == Action::Render,
        next_state(state, MsgView::CalcLP) == (ModelView {
            scene: SceneView::ProbeForm(
                ProbeView {
                    description: zero_value_warning_text(),
                    ..state.scene->ProbeForm_0
                },
            ),
            ..state
        }),
{
}

/// While frequency or velocity is zero, computed values are refused, and no
/// accepted message that keeps the draft changes its wavelength or pitch.
pub proof fn law_zero_input_keeps_results(state: ModelView, msg: MsgView)
    requires
        state.scene is ProbeForm,
        !state.scene->ProbeForm_0.computable(),
    ensures
        msg is ProbeComputed ==> !accepts(state.scene, msg),
        accepts(state.scene, msg) && !(msg is AddNew) && !(msg is SwitchTo) ==> {
            let next = next_state(state, msg);
            &&& next.scene is ProbeForm
            &&& next.scene->ProbeForm_0.lambda == state.scene->ProbeForm_0.lambda
            &&& next.scene->ProbeForm_0.pitch == state.scene->ProbeForm_0.pitch
        },
{
}

/// A calculation on a draft whose inputs are both not zero is accepted,
/// changes nothing, and asks for the arithmetic on exactly these inputs.
pub proof fn law_calculation_asks_for_inputs(state: ModelView)
    requires
        state.scene is ProbeForm,
        state.scene->ProbeForm_0.computable(),
    ensures
        accepts(state.scene, MsgView::CalcLP),
        next_state(state, MsgView::CalcLP) == state,
        action_for(state, MsgView::CalcLP) == (Action::ComputeProbe {
            frequency: state.scene->ProbeForm_0.frequency,
            velocity: state.scene->ProbeForm_0.velocity,
        }),
{
}

/// Computed values, taken in while both inputs are not zero, become the
/// wavelength and the pitch of the draft as they are, and the description
/// becomes the sentence around their displayed forms. The inputs and the
/// records stay as they were.
pub proof fn law_computed_values_are_stored(state: ModelView, values: ProbeValuesView)
    requires
        state.scene is ProbeForm,
        state.scene->ProbeForm_0.computable(),
    ensures
        accepts(state.scene, MsgView::ProbeComputed(values)),
        action_for(state, MsgView::ProbeComputed(values)) == Action::Render,
        next_state(state, MsgView::ProbeComputed(values)) == (ModelView {
            scene: SceneView::ProbeForm(
                ProbeView {
                    lambda: values.lambda,
                    pitch: values.pitch,
                    description: probe_summary_text(values.lambda_text, values.pitch_text),
                    ..state.scene->ProbeForm_0
                },
            ),
            ..state
        }),
{
}

/// From the list, the probe form opens with the empty record and with no
/// other: a switch to it is accepted exactly with the empty draft, and then
/// the draft of the new scene is the empty record. The records are untouched.
pub proof fn law_probe_form_opens_empty(state: ModelView, draft: ProbeView)
    requires
        state.scene is SceneList,
    ensures
        accepts(state.scene, MsgView::SwitchTo(SceneView::ProbeForm(draft))) <==> draft
            == ProbeView::empty(),
        accepts(state.scene, MsgView::SwitchTo(SceneView::ProbeForm(draft))) ==> next_state(
            state,
            MsgView::SwitchTo(SceneView::ProbeForm(draft)),
        ) == (ModelView { scene: SceneView::ProbeForm(ProbeView::empty()), ..state }),
{
}

/// Going back to the list from the probe form is always accepted. It drops
/// the draft, leaves the records as they were and asks for no storage.
pub proof fn law_leaving_probe_form_discards_draft(state: ModelView)
    requires
        state.scene is ProbeForm,
    ensures
        accepts(state.scene, MsgView::SwitchTo(SceneView::SceneList)),
        next_state(state, MsgView::SwitchTo(SceneView::SceneList)) == (ModelView {
            scene: SceneView::SceneList,
            database: state.database,
        }),
        action_for(state, MsgView::SwitchTo(SceneView::SceneList)) == Action::Render,
{
}

/// A save appends the draft behind all records, leaves an empty draft on the
/// probe form, and asks for the records to be written.
pub proof fn law_save_appends_draft(state: ModelView)
    requires
        state.scene is ProbeForm,
    ensures
        accepts(state.scene, MsgView::AddNew),
        action_for(state, MsgView::AddNew) == Action::Persist,
        next_state(state, MsgView::AddNew).scene == SceneView::ProbeForm(ProbeView::empty()),
        next_state(state, MsgView::AddNew).database.len() == state.database.len() + 1,
        next_state(state, MsgView::AddNew).database.last() == state.scene->ProbeForm_0,
        next_state(state, MsgView::AddNew).database.drop_last() == state.database,
{
    assert(state.database.push(state.scene->ProbeForm_0).drop_last() =~= state.database);
}

/// The request to clear changes nothing and asks for confirmation. A refusal
/// changes nothing and touches no storage. An agreement empties the records
/// and asks for the stored ones to be removed.
pub proof fn law_clear_needs_confirmation(state: ModelView)
    requires
        state.scene is Settings,
    ensures
        accepts(state.scene, MsgView::Clear),
        next_state(state, MsgView::Clear) == state,
        action_for(state, MsgView::Clear) == Action::ConfirmClear,
        accepts(state.scene, MsgView::ClearConfirmed(false)),
        next_state(state, MsgView::ClearConfirmed(false)) == state,
        action_for(state, MsgView::ClearConfirmed(false)) == Action::Render,
        accepts(state.scene, MsgView::ClearConfirmed(true)),
        next_state(state, MsgView::ClearConfirmed(true)) == (ModelView {
            database: Seq::empty(),
            scene: SceneView::Settings,
        }),
        action_for(state, MsgView::ClearConfirmed(true)) == Action::Erase,
{
}

/// Clearing twice is clearing once: the second confirmed clear is accepted
/// like the first, asks for the same removal, and leaves the state that the
/// first one left.
pub proof fn law_confirmed_clear_is_idempotent(state: ModelView)
    requires
        state.scene is Settings,
    ensures
        ({
            let once = next_state(state, MsgView::ClearConfirmed(true));
            let twice = next_state(once, MsgView::ClearConfirmed(true));
            &&& accepts(state.scene, MsgView::ClearConfirmed(true))
            &&& accepts(once.scene, MsgView::ClearConfirmed(true))
            &&& action_for(state, MsgView::ClearConfirmed(true)) == Action::Erase
            &&& action_for(once, MsgView::ClearConfirmed(true)) == Action::Erase
            &&& once.database == Seq::<ProbeView>::empty()
            &&& twice == once
        }),
{
}

/// Storage follows the records. An accepted message changes the records
/// only where it asks for storage: with a write they grew by the draft, with
/// a removal they are empty, and with any other action they are as before.
pub proof fn law_storage_follows_records(state: ModelView, msg: MsgView)
    requires
        accepts(state.scene, msg),
    ensures
        ({
            let next = next_state(state, msg);
            match action_for(state, msg) {
                Action::Persist => state.scene is ProbeForm && next.database
                    == state.database.push(state.scene->ProbeForm_0),
                Action::Erase => next.database == Seq::<ProbeView>::empty(),
                _ => next.database == state.database,
            }
        }),
{
}

/// The records change in two ways only: a save on the probe form, and a
/// confirmed clear in the settings. Every other accepted message leaves them
/// as they were.
pub proof fn law_records_change_by_save_or_clear_only(state: ModelView, msg: MsgView)
    requires
        accepts(state.scene, msg),
        next_state(state, msg).database != state.database,
    ensures
        (state.scene is ProbeForm && msg is AddNew) || (state.scene is Settings && msg
            == MsgView::ClearConfirmed(true)),
{
}

/// Every scene but the list leads to the list and nowhere else: an accepted
/// message keeps the screen, or leaves the list, or returns to it.
pub proof fn law_scenes_meet_at_list(state: ModelView, msg: MsgView)
    requires
        accepts(state.scene, msg),
    ensures
        ({
            let next = next_state(state, msg);
            ||| next.scene.kind() == state.scene.kind()
            ||| state.scene.kind() == SceneKind::List && next.scene.kind() != SceneKind::List
            ||| state.scene.kind() != SceneKind::List && next.scene.kind() == SceneKind::List
        }),
        state.scene.kind() == SceneKind::List ==> next_state(state, msg).scene.kind()
            != SceneKind::List,
{
}

/// A calculation of refraction angles changes nothing and asks for the
/// display of the incidence angles and the two velocities. Its described
/// result makes the refraction angles equal to the incidence angles.
pub proof fn law_refraction_copies_incidence(state: ModelView, texts: RefractionTextsView)
    requires
        state.scene is RefractionAngle,
    ensures
        accepts(state.scene, MsgView::CalcRefraction),
        next_state(state, MsgView::CalcRefraction) == state,
        action_for(state, MsgView::CalcRefraction) == (Action::DescribeRefraction {
            angle_min: state.scene->RefractionAngle_0.incidence_min,
            angle_max: state.scene->RefractionAngle_0.incidence_max,
            velocity_incidence: state.scene->RefractionAngle_0.velocity_incidence,
            velocity_medium: state.scene->RefractionAngle_0.velocity_medium,
        }),
        accepts(state.scene, MsgView::RefractionDescribed(texts)),
        ({
            let next = next_state(state, MsgView::RefractionDescribed(texts));
            &&& next.database == state.database
            &&& next.scene is RefractionAngle
            &&& next.scene->RefractionAngle_0.refraction_min
                == state.scene->RefractionAngle_0.incidence_min
            &&& next.scene->RefractionAngle_0.refraction_max
                == state.scene->RefractionAngle_0.incidence_max
            &&& next.scene->RefractionAngle_0.incidence_min
                == state.scene->RefractionAngle_0.incidence_min
            &&& next.scene->RefractionAngle_0.incidence_max
                == state.scene->RefractionAngle_0.incidence_max
        }),
{
}

} // verus!
