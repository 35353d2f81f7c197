//! The running state machine: the saved records, the active scene, and the
//! one function through which every message passes.

use crate::database::Database;
use crate::machine::{accepts, action_for, next_state, ModelView};
use crate::msg::{Action, IllegalTransition, Msg};
use crate::probe::{Probe, ProbeView};
use crate::scene::{Scene, SceneKind, SceneView};
use crate::text::{probe_summary, refraction_summary, zero_value_warning};
use vstd::prelude::*;

verus! {

/// The state of the calculator. It changes through [`Model::update`] alone.
#[derive(Debug)]
pub struct Model {
    database: Database,
    scene: Scene,
}

impl View for Model {
    type V = ModelView;

    closed spec fn view(&self) -> ModelView {
        ModelView { database: self.database@, scene: self.scene@ }
    }
}

impl Model {
    /// Starts on the list, with the records that persistent storage gave
    /// back. Where it gave none, or nothing that could be read as records,
    /// the machine starts without records: that is no failure.
    pub fn create(restored: Option<Database>) -> (r: Self)
        ensures
            r@.scene == SceneView::SceneList,
            r@.database == match restored {
                Some(database) => database@,
                None => Seq::<ProbeView>::empty(),
            },
    {
        let database = match restored {
            Some(database) => database,
            None => Database::new(),
        };
        Model { database, scene: Scene::SceneList }
    }

    /// The saved records.
    pub fn database(&self) -> (r: &Database)
        ensures
            r@ == self@.database,
    {
        &self.database
    }

    /// The active scene.
    pub fn scene(&self) -> (r: &Scene)
        ensures
            r@ == self@.scene,
    {
        &self.scene
    }

    /// Handles one message.
    ///
    /// A message that the active scene accepts takes the machine to its next
    /// state and yields the action to carry out. Any other message changes
    /// nothing and comes back in the error, with the screen that refused it.
    pub fn update(&mut self, msg: Msg) -> (r: Result<Action, IllegalTransition>)
        ensures
            accepts(old(self)@.scene, msg@) ==> r == Ok::<Action, IllegalTransition>(
                action_for(old(self)@, msg@),
            ) && final(self)@ == next_state(old(self)@, msg@),
            !accepts(old(self)@.scene, msg@) ==> r is Err && r->Err_0.msg@ == msg@
                && r->Err_0.scene == old(self)@.scene.kind() && final(self)@ == old(self)@,
    {
        // The scene is taken out to be worked on by value. Until a branch
        // puts a scene back, the list stands in its place.
        let mut scene = Scene::SceneList;
        std::mem::swap(&mut self.scene, &mut scene);
        match scene {
            Scene::SceneList => match msg {
                Msg::SwitchTo(target) => {
                    if target.opens_from_list() {
                        self.scene = target;
                        Ok(Action::Render)
                    } else {
                        Err(IllegalTransition { scene: SceneKind::List, msg: Msg::SwitchTo(target) })
                    }
                },
                other => Err(IllegalTransition { scene: SceneKind::List, msg: other }),
            },
            Scene::ProbeForm(mut draft) => match msg {
                Msg::SwitchTo(Scene::SceneList) => Ok(Action::Render),
                Msg::UpdateFrequency(value) => {
                    draft.frequency = value;
                    self.scene = Scene::ProbeForm(draft);
                    Ok(Action::Render)
                },
                Msg::UpdateVelocity(value) => {
                    draft.velocity = value;
                    self.scene = Scene::ProbeForm(draft);
                    Ok(Action::Render)
                },
                Msg::UpdateDescription(text) => {
                    draft.description = text;
                    self.scene = Scene::ProbeForm(draft);
                    Ok(Action::Render)
                },
                Msg::CalcLP => {
                    let action = if draft.computable() {
                        Action::ComputeProbe { frequency: draft.frequency, velocity: draft.velocity }
                    } else {
                        draft.description = zero_value_warning();
                        Action::Render
                    };
                    self.scene = Scene::ProbeForm(draft);
                    Ok(action)
                },
                Msg::ProbeComputed(values) => {
                    if draft.computable() {
                        draft.lambda = values.lambda;
                        draft.pitch = values.pitch;
                        draft.description = probe_summary(
                            values.lambda_text.as_str(),
                            values.pitch_text.as_str(),
                        );
                        self.scene = Scene::ProbeForm(draft);
                        Ok(Action::Render)
                    } else {
                        self.scene = Scene::ProbeForm(draft);
                        Err(
                            IllegalTransition {
                                scene: SceneKind::Probe,
                                msg: Msg::ProbeComputed(values),
                            },
                        )
                    }
                },
                Msg::AddNew => {
                    self.database.push(draft);
                    self.scene = Scene::ProbeForm(Probe::empty());
                    Ok(Action::Persist)
                },
                other => {
                    self.scene = Scene::ProbeForm(draft);
                    Err(IllegalTransition { scene: SceneKind::Probe, msg: other })
                },
            },
            Scene::TFMPWIForm => match msg {
                Msg::SwitchTo(Scene::SceneList) => Ok(Action::Render),
                other => {
                    self.scene = Scene::TFMPWIForm;
                    Err(IllegalTransition { scene: SceneKind::Demo, msg: other })
                },
            },
            Scene::RefractionAngle(mut draft) => match msg {
                Msg::SwitchTo(Scene::SceneList) => Ok(Action::Render),
                Msg::UpdateIncidenceAngleMin(value) => {
                    draft.incidence_min = value;
                    self.scene = Scene::RefractionAngle(draft);
                    Ok(Action::Render)
                },
                Msg::UpdateIncidenceAngleMax(value) => {
                    draft.incidence_max = value;
                    self.scene = Scene::RefractionAngle(draft);
                    Ok(Action::Render)
                },
                Msg::UpdateVelocityIncidence(value) => {
                    draft.velocity_incidence = value;
                    self.scene = Scene::RefractionAngle(draft);
                    Ok(Action::Render)
                },
                Msg::UpdateVelocityRefraction(value) => {
                    draft.velocity_medium = value;
                    self.scene = Scene::RefractionAngle(draft);
                    Ok(Action::Render)
                },
                Msg::CalcRefraction => {
                    let action = Action::DescribeRefraction {
                        angle_min: draft.incidence_min,
                        angle_max: draft.incidence_max,
                        velocity_incidence: draft.velocity_incidence,
                        velocity_medium: draft.velocity_medium,
                    };
                    self.scene = Scene::RefractionAngle(draft);
                    Ok(action)
                },
                Msg::RefractionDescribed(texts) => {
                    draft.refraction_min = draft.incidence_min;
                    draft.refraction_max = draft.incidence_max;
                    draft.result = refraction_summary(
                        texts.angle_min.as_str(),
                        texts.angle_max.as_str(),
                        texts.velocity_incidence.as_str(),
                        texts.velocity_medium.as_str(),
                    );
                    self.scene = Scene::RefractionAngle(draft);
                    Ok(Action::Render)
                },
                other => {
                    self.scene = Scene::RefractionAngle(draft);
                    Err(IllegalTransition { scene: SceneKind::Refraction, msg: other })
                },
            },
            Scene::Settings => match msg {
                Msg::SwitchTo(Scene::SceneList) => Ok(Action::Render),
                Msg::Clear => {
                    self.scene = Scene::Settings;
                    Ok(Action::ConfirmClear)
                },
                Msg::ClearConfirmed(agreed) => {
                    self.scene = Scene::Settings;
                    if agreed {
                        self.database.clear();
                        Ok(Action::Erase)
                    } else {
                        Ok(Action::Render)
                    }
                },
                other => {
                    self.scene = Scene::Settings;
                    Err(IllegalTransition { scene: SceneKind::Settings, msg: other })
                },
            },
        }
    }
}

} // verus!
