//! Single transitions: what each scene accepts, what it refuses, and what an
//! accepted message leaves behind.

use ndt_tools::text::{probe_summary, refraction_summary, refusal_notice};
use ndt_tools::{
    Action, BeamAngle, Binary64, Database, Model, Msg, Probe, ProbeValues, RefractionTexts, Scene,
    SceneKind,
};

fn held(value: f64) -> Binary64 {
    Binary64::from_bits(value.to_bits())
}

fn model_on(scene: Scene) -> Model {
    let mut model = Model::create(None);
    assert_eq!(model.update(Msg::SwitchTo(scene)).unwrap(), Action::Render);
    model
}

fn probe_values(lambda: f64, pitch: f64) -> ProbeValues {
    ProbeValues {
        lambda: held(lambda),
        pitch: held(pitch),
        lambda_text: format!("{}", lambda),
        pitch_text: format!("{}", pitch),
    }
}

fn draft_of(model: &Model) -> Probe {
    match model.scene() {
        Scene::ProbeForm(draft) => draft.clone(),
        other => panic!("not on the probe form: {:?}", other),
    }
}

fn beam_of(model: &Model) -> BeamAngle {
    match model.scene() {
        Scene::RefractionAngle(draft) => draft.clone(),
        other => panic!("not on the refraction form: {:?}", other),
    }
}

#[test]
fn zero_test_knows_both_zeros_only() {
    assert!(held(0.0).equals_zero());
    assert!(held(-0.0).equals_zero());
    assert!(Binary64::zero().equals_zero());
    assert_eq!(Binary64::zero().to_bits(), 0);
    assert!(!held(5.0).equals_zero());
    assert!(!held(-5.0).equals_zero());
    assert!(!held(f64::NAN).equals_zero());
    assert!(!held(f64::INFINITY).equals_zero());
    assert!(!held(f64::MIN_POSITIVE).equals_zero());
    assert!(!Binary64::from_bits(1).equals_zero());
    assert_eq!(Binary64::from_bits(0x4014_0000_0000_0000).to_bits(), 5.0f64.to_bits());
}

#[test]
fn empty_records_are_all_zero() {
    let probe = Probe::empty();
    assert_eq!(probe.description, "");
    assert_eq!(probe.frequency.to_bits(), 0);
    assert_eq!(probe.velocity.to_bits(), 0);
    assert_eq!(probe.lambda.to_bits(), 0);
    assert_eq!(probe.pitch.to_bits(), 0);
    assert!(probe.is_empty());
    assert!(!probe.computable());
    let beam = BeamAngle::empty();
    assert_eq!(beam.result, "");
    assert_eq!(beam.incidence_min.to_bits(), 0);
    assert_eq!(beam.refraction_min.to_bits(), 0);
    assert_eq!(beam.incidence_max.to_bits(), 0);
    assert_eq!(beam.refraction_max.to_bits(), 0);
    assert_eq!(beam.refraction_steel_min.to_bits(), 0);
    assert_eq!(beam.refraction_steel_max.to_bits(), 0);
    assert_eq!(beam.velocity_steel.to_bits(), 0);
    assert_eq!(beam.velocity_incidence.to_bits(), 0);
    assert_eq!(beam.velocity_medium.to_bits(), 0);
    assert!(beam.is_empty());
}

#[test]
fn emptiness_is_exact() {
    let mut probe = Probe::empty();
    probe.pitch = held(-0.0);
    assert!(!probe.is_empty());
    let mut probe = Probe::empty();
    probe.description = String::from(" ");
    assert!(!probe.is_empty());
    let mut beam = BeamAngle::empty();
    beam.velocity_steel = held(5900.0);
    assert!(!beam.is_empty());
    let mut beam = BeamAngle::empty();
    beam.result = String::from("x");
    assert!(!beam.is_empty());
}

#[test]
fn computable_needs_both_inputs() {
    let mut probe = Probe::empty();
    probe.frequency = held(5.0);
    assert!(!probe.computable());
    probe.velocity = held(-0.0);
    assert!(!probe.computable());
    probe.velocity = held(3230.0);
    assert!(probe.computable());
    probe.frequency = held(f64::NAN);
    assert!(probe.computable());
}

#[test]
fn list_opens_every_other_scene() {
    let model = model_on(Scene::ProbeForm(Probe::empty()));
    assert!(draft_of(&model).is_empty());
    assert_eq!(model.scene().kind(), SceneKind::Probe);
    let model = model_on(Scene::RefractionAngle(BeamAngle::empty()));
    assert!(beam_of(&model).is_empty());
    assert_eq!(model.scene().kind(), SceneKind::Refraction);
    let model = model_on(Scene::TFMPWIForm);
    assert_eq!(model.scene().kind(), SceneKind::Demo);
    let model = model_on(Scene::Settings);
    assert_eq!(model.scene().kind(), SceneKind::Settings);
}

#[test]
fn list_refuses_a_switch_to_itself() {
    let mut model = Model::create(None);
    let refused = model.update(Msg::SwitchTo(Scene::SceneList)).unwrap_err();
    assert_eq!(refused.scene, SceneKind::List);
    assert!(matches!(refused.msg, Msg::SwitchTo(Scene::SceneList)));
    assert_eq!(model.scene().kind(), SceneKind::List);
}

#[test]
fn list_refuses_a_form_with_a_used_draft() {
    let mut model = Model::create(None);
    let mut used = Probe::empty();
    used.frequency = held(5.0);
    let refused = model.update(Msg::SwitchTo(Scene::ProbeForm(used))).unwrap_err();
    assert_eq!(refused.scene, SceneKind::List);
    match refused.msg {
        Msg::SwitchTo(Scene::ProbeForm(draft)) => assert_eq!(draft.frequency, held(5.0)),
        other => panic!("another message came back: {:?}", other),
    }
    assert_eq!(model.scene().kind(), SceneKind::List);
    let mut used = BeamAngle::empty();
    used.incidence_max = held(30.0);
    let refused = model.update(Msg::SwitchTo(Scene::RefractionAngle(used))).unwrap_err();
    assert_eq!(refused.scene, SceneKind::List);
    assert_eq!(model.scene().kind(), SceneKind::List);
}

#[test]
fn list_refuses_everything_but_a_switch() {
    let mut model = Model::create(None);
    assert!(model.update(Msg::AddNew).is_err());
    assert!(model.update(Msg::CalcLP).is_err());
    assert!(model.update(Msg::CalcRefraction).is_err());
    assert!(model.update(Msg::Clear).is_err());
    assert!(model.update(Msg::ClearConfirmed(true)).is_err());
    assert!(model.update(Msg::UpdateFrequency(held(1.0))).is_err());
    assert!(model.update(Msg::UpdateVelocity(held(1.0))).is_err());
    assert!(model.update(Msg::UpdateDescription(String::from("x"))).is_err());
    assert!(model.update(Msg::UpdateIncidenceAngleMin(held(1.0))).is_err());
    assert!(model.update(Msg::UpdateIncidenceAngleMax(held(1.0))).is_err());
    assert!(model.update(Msg::UpdateVelocityIncidence(held(1.0))).is_err());
    assert!(model.update(Msg::UpdateVelocityRefraction(held(1.0))).is_err());
    assert!(model.update(Msg::UpdateVelocitySteel(held(1.0))).is_err());
    assert!(model.update(Msg::ProbeComputed(probe_values(1.0, 0.5))).is_err());
    assert_eq!(model.scene().kind(), SceneKind::List);
    assert_eq!(model.database().len(), 0);
}

#[test]
fn probe_form_takes_field_edits() {
    let mut model = model_on(Scene::ProbeForm(Probe::empty()));
    assert_eq!(model.update(Msg::UpdateFrequency(held(2.25))).unwrap(), Action::Render);
    assert_eq!(model.update(Msg::UpdateVelocity(held(5900.0))).unwrap(), Action::Render);
    assert_eq!(
        model.update(Msg::UpdateDescription(String::from("plate"))).unwrap(),
        Action::Render
    );
    let draft = draft_of(&model);
    assert_eq!(draft.frequency, held(2.25));
    assert_eq!(draft.velocity, held(5900.0));
    assert_eq!(draft.description, "plate");
    assert_eq!(draft.lambda.to_bits(), 0);
    assert_eq!(draft.pitch.to_bits(), 0);
}

#[test]
fn calculation_asks_for_the_arithmetic_on_the_inputs() {
    let mut model = model_on(Scene::ProbeForm(Probe::empty()));
    model.update(Msg::UpdateFrequency(held(5.0))).unwrap();
    model.update(Msg::UpdateVelocity(held(3230.0))).unwrap();
    model.update(Msg::UpdateDescription(String::from("before"))).unwrap();
    let action = model.update(Msg::CalcLP).unwrap();
    assert_eq!(action, Action::ComputeProbe { frequency: held(5.0), velocity: held(3230.0) });
    let draft = draft_of(&model);
    assert_eq!(draft.description, "before");
    assert_eq!(draft.lambda.to_bits(), 0);
    assert_eq!(model.update(Msg::ProbeComputed(probe_values(0.646, 0.323))).unwrap(), Action::Render);
    let draft = draft_of(&model);
    assert_eq!(draft.lambda, held(0.646));
    assert_eq!(draft.pitch, held(0.323));
    assert_eq!(draft.frequency, held(5.0));
    assert_eq!(draft.velocity, held(3230.0));
    assert_eq!(draft.description, "波长为0.646mm\npitch最小值为0.323mm");
}

#[test]
fn computed_values_are_refused_while_an_input_is_zero() {
    let mut model = model_on(Scene::ProbeForm(Probe::empty()));
    model.update(Msg::UpdateVelocity(held(100.0))).unwrap();
    let refused = model.update(Msg::ProbeComputed(probe_values(7.0, 3.5))).unwrap_err();
    assert_eq!(refused.scene, SceneKind::Probe);
    match refused.msg {
        Msg::ProbeComputed(values) => {
            assert_eq!(values.lambda, held(7.0));
            assert_eq!(values.pitch_text, "3.5");
        }
        other => panic!("another message came back: {:?}", other),
    }
    let draft = draft_of(&model);
    assert_eq!(draft.lambda.to_bits(), 0);
    assert_eq!(draft.pitch.to_bits(), 0);
    assert_eq!(draft.velocity, held(100.0));
    assert_eq!(draft.description, "");
}

#[test]
fn save_appends_and_resets_the_draft() {
    let mut model = model_on(Scene::ProbeForm(Probe::empty()));
    model.update(Msg::UpdateDescription(String::from("one"))).unwrap();
    assert_eq!(model.update(Msg::AddNew).unwrap(), Action::Persist);
    assert!(draft_of(&model).is_empty());
    model.update(Msg::UpdateDescription(String::from("two"))).unwrap();
    model.update(Msg::UpdateFrequency(held(10.0))).unwrap();
    assert_eq!(model.update(Msg::AddNew).unwrap(), Action::Persist);
    assert_eq!(model.update(Msg::AddNew).unwrap(), Action::Persist);
    assert_eq!(model.database().len(), 3);
    assert_eq!(model.database().get(0).unwrap().description, "one");
    assert_eq!(model.database().get(1).unwrap().description, "two");
    assert_eq!(model.database().get(1).unwrap().frequency, held(10.0));
    assert!(model.database().get(2).unwrap().is_empty());
    assert!(model.database().get(3).is_none());
    assert_eq!(model.scene().kind(), SceneKind::Probe);
}

#[test]
fn leaving_the_probe_form_drops_the_draft() {
    let mut model = model_on(Scene::ProbeForm(Probe::empty()));
    model.update(Msg::UpdateDescription(String::from("kept"))).unwrap();
    model.update(Msg::AddNew).unwrap();
    model.update(Msg::UpdateDescription(String::from("dropped"))).unwrap();
    model.update(Msg::UpdateFrequency(held(1.0))).unwrap();
    assert_eq!(model.update(Msg::SwitchTo(Scene::SceneList)).unwrap(), Action::Render);
    assert_eq!(model.scene().kind(), SceneKind::List);
    assert_eq!(model.database().len(), 1);
    assert_eq!(model.database().get(0).unwrap().description, "kept");
    model.update(Msg::SwitchTo(Scene::ProbeForm(Probe::empty()))).unwrap();
    assert!(draft_of(&model).is_empty());
}

#[test]
fn probe_form_refuses_foreign_messages() {
    let mut model = model_on(Scene::ProbeForm(Probe::empty()));
    model.update(Msg::UpdateFrequency(held(3.0))).unwrap();
    let refused = model.update(Msg::Clear).unwrap_err();
    assert_eq!(refused.scene, SceneKind::Probe);
    assert!(matches!(refused.msg, Msg::Clear));
    assert!(model.update(Msg::ClearConfirmed(true)).is_err());
    assert!(model.update(Msg::CalcRefraction).is_err());
    assert!(model.update(Msg::UpdateIncidenceAngleMin(held(1.0))).is_err());
    assert!(model.update(Msg::UpdateVelocitySteel(held(1.0))).is_err());
    assert!(model.update(Msg::SwitchTo(Scene::Settings)).is_err());
    assert!(model.update(Msg::SwitchTo(Scene::ProbeForm(Probe::empty()))).is_err());
    assert_eq!(draft_of(&model).frequency, held(3.0));
    assert_eq!(model.scene().kind(), SceneKind::Probe);
}

#[test]
fn refraction_copies_the_incidence_angles() {
    let mut model = model_on(Scene::RefractionAngle(BeamAngle::empty()));
    assert_eq!(model.update(Msg::UpdateIncidenceAngleMin(held(10.0))).unwrap(), Action::Render);
    assert_eq!(model.update(Msg::UpdateIncidenceAngleMax(held(35.5))).unwrap(), Action::Render);
    assert_eq!(model.update(Msg::UpdateVelocityIncidence(held(2330.0))).unwrap(), Action::Render);
    assert_eq!(model.update(Msg::UpdateVelocityRefraction(held(3230.0))).unwrap(), Action::Render);
    let action = model.update(Msg::CalcRefraction).unwrap();
    assert_eq!(
        action,
        Action::DescribeRefraction {
            angle_min: held(10.0),
            angle_max: held(35.5),
            velocity_incidence: held(2330.0),
            velocity_medium: held(3230.0),
        }
    );
    let before = beam_of(&model);
    assert_eq!(before.refraction_min.to_bits(), 0);
    assert_eq!(before.result, "");
    let texts = RefractionTexts {
        angle_min: format!("{}", 10.0f64),
        angle_max: format!("{}", 35.5f64),
        velocity_incidence: format!("{}", 2330.0f64),
        velocity_medium: format!("{}", 3230.0f64),
    };
    assert_eq!(model.update(Msg::RefractionDescribed(texts)).unwrap(), Action::Render);
    let beam = beam_of(&model);
    assert_eq!(beam.refraction_min, held(10.0));
    assert_eq!(beam.refraction_max, held(35.5));
    assert_eq!(beam.incidence_min, held(10.0));
    assert_eq!(beam.incidence_max, held(35.5));
    assert_eq!(beam.velocity_incidence, held(2330.0));
    assert_eq!(beam.velocity_medium, held(3230.0));
    assert_eq!(beam.velocity_steel.to_bits(), 0);
    assert_eq!(beam.refraction_steel_min.to_bits(), 0);
    assert_eq!(beam.refraction_steel_max.to_bits(), 0);
    assert_eq!(beam.result, "折射角范围为10度～35.5度\n按入射声速2330m/s折射声速3230m/s计算");
    assert_eq!(model.database().len(), 0);
}

#[test]
fn refraction_form_refuses_foreign_messages() {
    let mut model = model_on(Scene::RefractionAngle(BeamAngle::empty()));
    let refused = model.update(Msg::UpdateVelocitySteel(held(5900.0))).unwrap_err();
    assert_eq!(refused.scene, SceneKind::Refraction);
    assert!(matches!(refused.msg, Msg::UpdateVelocitySteel(_)));
    let refused = model.update(Msg::UpdateDescription(String::from("note"))).unwrap_err();
    match refused.msg {
        Msg::UpdateDescription(text) => assert_eq!(text, "note"),
        other => panic!("another message came back: {:?}", other),
    }
    assert!(model.update(Msg::CalcLP).is_err());
    assert!(model.update(Msg::AddNew).is_err());
    assert!(model.update(Msg::UpdateFrequency(held(1.0))).is_err());
    assert!(model.update(Msg::SwitchTo(Scene::TFMPWIForm)).is_err());
    assert!(beam_of(&model).is_empty());
    assert_eq!(model.update(Msg::SwitchTo(Scene::SceneList)).unwrap(), Action::Render);
    assert_eq!(model.scene().kind(), SceneKind::List);
}

#[test]
fn demo_screen_only_returns_to_the_list() {
    let mut model = model_on(Scene::TFMPWIForm);
    let refused = model.update(Msg::CalcLP).unwrap_err();
    assert_eq!(refused.scene, SceneKind::Demo);
    assert!(model.update(Msg::Clear).is_err());
    assert!(model.update(Msg::AddNew).is_err());
    assert!(model.update(Msg::SwitchTo(Scene::Settings)).is_err());
    assert!(model.update(Msg::SwitchTo(Scene::TFMPWIForm)).is_err());
    assert_eq!(model.scene().kind(), SceneKind::Demo);
    assert_eq!(model.update(Msg::SwitchTo(Scene::SceneList)).unwrap(), Action::Render);
    assert_eq!(model.scene().kind(), SceneKind::List);
}

#[test]
fn settings_ask_before_clearing() {
    let mut database = Database::new();
    database.push(Probe::empty());
    database.push(Probe::empty());
    let mut model = Model::create(Some(database));
    model.update(Msg::SwitchTo(Scene::Settings)).unwrap();
    assert_eq!(model.update(Msg::Clear).unwrap(), Action::ConfirmClear);
    assert_eq!(model.database().len(), 2);
    assert_eq!(model.update(Msg::ClearConfirmed(false)).unwrap(), Action::Render);
    assert_eq!(model.database().len(), 2);
    assert_eq!(model.update(Msg::ClearConfirmed(true)).unwrap(), Action::Erase);
    assert_eq!(model.database().len(), 0);
    assert_eq!(model.update(Msg::ClearConfirmed(true)).unwrap(), Action::Erase);
    assert_eq!(model.database().len(), 0);
    assert_eq!(model.scene().kind(), SceneKind::Settings);
}

#[test]
fn settings_refuse_foreign_messages() {
    let mut model = model_on(Scene::Settings);
    let refused = model.update(Msg::AddNew).unwrap_err();
    assert_eq!(refused.scene, SceneKind::Settings);
    assert!(matches!(refused.msg, Msg::AddNew));
    assert!(model.update(Msg::CalcLP).is_err());
    assert!(model.update(Msg::SwitchTo(Scene::ProbeForm(Probe::empty()))).is_err());
    assert_eq!(model.scene().kind(), SceneKind::Settings);
    assert_eq!(model.update(Msg::SwitchTo(Scene::SceneList)).unwrap(), Action::Render);
    assert_eq!(model.scene().kind(), SceneKind::List);
}

#[test]
fn sentences_embed_the_displayed_numbers() {
    assert_eq!(probe_summary("0.646", "0.323"), "波长为0.646mm\npitch最小值为0.323mm");
    assert_eq!(probe_summary("", ""), "波长为mm\npitch最小值为mm");
    assert_eq!(probe_summary("inf", "NaN"), "波长为infmm\npitch最小值为NaNmm");
    assert_eq!(
        refraction_summary("1", "2", "3", "4"),
        "折射角范围为1度～2度\n按入射声速3m/s折射声速4m/s计算"
    );
}

#[test]
fn every_screen_has_its_refusal_notice() {
    assert_eq!(refusal_notice(SceneKind::List), "Unexpected message when probes list shown: ");
    assert_eq!(refusal_notice(SceneKind::Probe), "Unexpected message during new probe editing: ");
    assert_eq!(refusal_notice(SceneKind::Demo), "Unexpected message for settings scene: ");
    assert_eq!(refusal_notice(SceneKind::Refraction), "未知参数，折射角计算模块");
    assert_eq!(refusal_notice(SceneKind::Settings), "Unexpected message for settings scene: ");
}

#[test]
fn database_keeps_the_order_of_saving() {
    let mut database = Database::new();
    assert_eq!(database.len(), 0);
    let mut probe = Probe::empty();
    probe.description = String::from("a");
    database.push(probe);
    let mut probe = Probe::empty();
    probe.description = String::from("b");
    database.push(probe);
    assert_eq!(database.len(), 2);
    assert_eq!(database.get(0).unwrap().description, "a");
    assert_eq!(database.get(1).unwrap().description, "b");
    assert!(database.get(2).is_none());
    database.clear();
    assert_eq!(database.len(), 0);
    assert!(database.get(0).is_none());
    database.clear();
    assert_eq!(database.len(), 0);
}

#[test]
fn copies_are_faithful() {
    let mut probe = Probe::empty();
    probe.description = String::from("copy me");
    probe.lambda = held(0.646);
    let copy = probe.clone();
    assert_eq!(copy.description, "copy me");
    assert_eq!(copy.lambda, held(0.646));
    let scene = Scene::ProbeForm(probe);
    match scene.clone() {
        Scene::ProbeForm(draft) => assert_eq!(draft.description, "copy me"),
        other => panic!("another scene: {:?}", other),
    }
    assert!(Scene::TFMPWIForm.opens_from_list());
    assert!(Scene::Settings.opens_from_list());
    assert!(!Scene::SceneList.opens_from_list());
    assert!(!scene.opens_from_list());
}
