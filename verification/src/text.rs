//! The fixed wording of the calculator: notices, prompts and the sentences
//! that carry computed values.

use crate::scene::SceneKind;
use vstd::prelude::*;
use vstd::string::StringExecFns;

verus! {

/// The key under which the records are kept in persistent storage.
pub open spec fn storage_key_text() -> Seq<char> {
    "yew.crm.database"@
}

/// The notice shown in place of a result when frequency or velocity is zero.
pub open spec fn zero_value_warning_text() -> Seq<char> {
    "frequency/velocity contains a zero value, please check"@
}

/// The question put to the user before all records are erased.
pub open spec fn clear_prompt_text() -> Seq<char> {
    "确实要清除数据吗?"@
}

/// The sentence that reports a wavelength and a minimum pitch, both in
/// millimetres, around the two numbers as they are displayed.
pub open spec fn probe_summary_text(lambda: Seq<char>, pitch: Seq<char>) -> Seq<char> {
    "波长为"@ + lambda + "mm\npitch最小值为"@ + pitch + "mm"@
}

/// The sentence that reports a range of refraction angles, in degrees, and
/// the two velocities it was computed for, in metres per second.
pub open spec fn refraction_summary_text(
    angle_min: Seq<char>,
    angle_max: Seq<char>,
    velocity_incidence: Seq<char>,
    velocity_medium: Seq<char>,
) -> Seq<char> {
    "折射角范围为"@ + angle_min + "度～"@ + angle_max + "度\n按入射声速"@ + velocity_incidence
        + "m/s折射声速"@ + velocity_medium + "m/s计算"@
}

/// The words with which a screen refuses a message, to stand in front of
/// the message in a log.
pub open spec fn refusal_notice_text(scene: SceneKind) -> Seq<char> {
    match scene {
        SceneKind::List => "Unexpected message when probes list shown: "@,
        SceneKind::Probe => "Unexpected message during new probe editing: "@,
        SceneKind::Demo => "Unexpected message for settings scene: "@,
        SceneKind::Refraction => "未知参数，折射角计算模块"@,
        SceneKind::Settings => "Unexpected message for settings scene: "@,
    }
}

/// The storage key.
pub fn storage_key() -> (r: String)
    ensures
        r@ == storage_key_text(),
{
    String::from_str("yew.crm.database")
}

/// The zero-value notice.
pub fn zero_value_warning() -> (r: String)
    ensures
        r@ == zero_value_warning_text(),
{
    String::from_str("frequency/velocity contains a zero value, please check")
}

/// The confirmation question.
pub fn clear_prompt() -> (r: String)
    ensures
        r@ == clear_prompt_text(),
{
    String::from_str("确实要清除数据吗?")
}

/// The refusal notice of a screen.
pub fn refusal_notice(scene: SceneKind) -> (r: String)
    ensures
        r@ == refusal_notice_text(scene),
{
    match scene {
        SceneKind::List => String::from_str("Unexpected message when probes list shown: "),
        SceneKind::Probe => String::from_str("Unexpected message during new probe editing: "),
        SceneKind::Demo => String::from_str("Unexpected message for settings scene: "),
        SceneKind::Refraction => String::from_str("未知参数，折射角计算模块"),
        SceneKind::Settings => String::from_str("Unexpected message for settings scene: "),
    }
}

/// Builds the wavelength and pitch sentence from the two displayed numbers.
pub fn probe_summary(lambda: &str, pitch: &str) -> (r: String)
    ensures
        r@ == probe_summary_text(lambda@, pitch@),
{
    let mut r = String::from_str("波长为");
    r.append(lambda);
    r.append("mm\npitch最小值为");
    r.append(pitch);
    r.append("mm");
    r
}

/// Builds the refraction sentence from the four displayed numbers.
pub fn refraction_summary(
    angle_min: &str,
    angle_max: &str,
    velocity_incidence: &str,
    velocity_medium: &str,
) -> (r: String)
    ensures
        r@ == refraction_summary_text(
            angle_min@,
            angle_max@,
            velocity_incidence@,
            velocity_medium@,
        ),
{
    let mut r = String::from_str("折射角范围为");
    r.append(angle_min);
    r.append("度～");
    r.append(angle_max);
    r.append("度\n按入射声速");
    r.append(velocity_incidence);
    r.append("m/s折射声速");
    r.append(velocity_medium);
    r.append("m/s计算");
    r
}

} // verus!
