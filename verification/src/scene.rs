//! The screens of the calculator, each with the draft it owns.

use crate::beam::{BeamAngle, BeamAngleView};
use crate::probe::{Probe, ProbeView};
use vstd::prelude::*;

verus! {

/// The active screen, together with what is being edited on it.
#[derive(Debug)]
pub enum Scene {
    /// The list of saved records.
    SceneList,
    /// The wavelength and pitch form, with its unsaved record.
    ProbeForm(Probe),
    /// The demonstration screen.
    TFMPWIForm,
    /// The refraction-angle form, with its draft.
    RefractionAngle(BeamAngle),
    /// The settings screen.
    Settings,
}

/// A scene with the text of its draft as sequences of characters.
pub enum SceneView {
    SceneList,
    ProbeForm(ProbeView),
    TFMPWIForm,
    RefractionAngle(BeamAngleView),
    Settings,
}

/// Which screen a scene is, without its draft.
#[derive(Clone, Copy, Debug, PartialEq, Eq, Structural)]
pub enum SceneKind {
    List,
    Probe,
    Demo,
    Refraction,
    Settings,
}

impl SceneView {
    /// The screen of the scene.
    pub open spec fn kind(self) -> SceneKind {
        match self {
            SceneView::SceneList => SceneKind::List,
            SceneView::ProbeForm(_) => SceneKind::Probe,
            SceneView::TFMPWIForm => SceneKind::Demo,
            SceneView::RefractionAngle(_) => SceneKind::Refraction,
            SceneView::Settings => SceneKind::Settings,
        }
    }

    /// Whether the scene can be entered from the list: a form only with an
    /// empty draft, the list itself never.
    pub open spec fn opens_from_list(self) -> bool {
        match self {
            SceneView::SceneList => false,
            SceneView::ProbeForm(draft) => draft == ProbeView::empty(),
            SceneView::TFMPWIForm => true,
            SceneView::RefractionAngle(draft) => draft == BeamAngleView::empty(),
            SceneView::Settings => true,
        }
    }
}

impl View for Scene {
    type V = SceneView;

    open spec fn view(&self) -> SceneView {
        match self {
            Scene::SceneList => SceneView::SceneList,
            Scene::ProbeForm(draft) => SceneView::ProbeForm(draft@),
            Scene::TFMPWIForm => SceneView::TFMPWIForm,
            Scene::RefractionAngle(draft) => SceneView::RefractionAngle(draft@),
            Scene::Settings => SceneView::Settings,
        }
    }
}

impl Clone for Scene {
    fn clone(&self) -> (r: Self)
        ensures
            r@ == self@,
    {
        match self {
            Scene::SceneList => Scene::SceneList,
            Scene::ProbeForm(draft) => Scene::ProbeForm(draft.clone()),
            Scene::TFMPWIForm => Scene::TFMPWIForm,
            Scene::RefractionAngle(draft) => Scene::RefractionAngle(draft.clone()),
            Scene::Settings => Scene::Settings,
        }
    }
}

impl Scene {
    /// The screen of the scene.
    pub fn kind(&self) -> (r: SceneKind)
        ensures
            r == self@.kind(),
    {
        match self {
            Scene::SceneList => SceneKind::List,
            Scene::ProbeForm(_) => SceneKind::Probe,
            Scene::TFMPWIForm => SceneKind::Demo,
            Scene::RefractionAngle(_) => SceneKind::Refraction,
            Scene::Settings => SceneKind::Settings,
        }
    }

    /// Tests whether the scene can be entered from the list.
    pub fn opens_from_list(&self) -> (r: bool)
        ensures
            r == self@.opens_from_list(),
    {
        match self {
            Scene::SceneList => false,
            Scene::ProbeForm(draft) => draft.is_empty(),
            Scene::TFMPWIForm => true,
            Scene::RefractionAngle(draft) => draft.is_empty(),
            Scene::Settings => true,
        }
    }
}

} // verus!
