//! Calculator core for ultrasonic testing: the records, the scenes and the
//! message-driven state machine, with every transition stated and proved.
//!
//! A front end shows the active [`Scene`] and sends what the user does as a
//! [`Msg`] to [`Model::update`]. The machine answers with an [`Action`]: what
//! is to be done outside of it. Three actions call for an answer, which is a
//! message again: the arithmetic on two quantities, the display form of
//! numbers, and the user's word on clearing all records. Quantities are
//! doubles; the machine holds them as bit patterns ([`Binary64`]) and leaves
//! their arithmetic to the front end.
//!
//! [`machine`] defines the transitions as mathematics, [`model`] implements
//! them, and [`laws`] proves what follows from them.

pub mod beam;
pub mod binary64;
pub mod database;
pub mod laws;
pub mod machine;
pub mod model;
pub mod msg;
pub mod probe;
pub mod scene;
pub mod text;

pub use beam::{BeamAngle, BeamAngleView};
pub use binary64::Binary64;
pub use database::Database;
pub use machine::ModelView;
pub use model::Model;
pub use msg::{
    Action, IllegalTransition, Msg, MsgView, ProbeValues, ProbeValuesView, RefractionTexts,
    RefractionTextsView,
};
pub use probe::{Probe, ProbeView};
pub use scene::{Scene, SceneKind, SceneView};
