//! A read-only, lazily resolved view of a university's academic records,
//! fetched on demand from the Supernova platform.
//!
//! Every entity wraps one provider record: its scalar fields read without a
//! round trip, and each relationship is resolved afresh, through the provider,
//! each time it is asked for. A session tracks authentication beside the
//! provider client, and every provider failure reaches callers as one uniform
//! operation failure.
mod client;
mod error;
mod keys;
mod models;
mod place;
mod provider;
mod resolve;
mod session;
mod text;

use vstd::prelude::*;

pub use client::SupernovaClient;
pub use error::{Failure, ProviderFault};
pub use keys::{
    BuildingKey, ClassInstanceKey, ClassKey, CourseKey, DepartmentKey, EnrollmentKey, PlaceKey,
    ShiftKey, StudentKey, TeacherKey,
};
pub use models::{
    BuildingEntity, BuildingView, ClassEntity, ClassInstanceEntity, ClassInstanceView,
    ClassShiftEntity, ClassShiftInstanceEntity, ClassShiftInstanceView, ClassShiftView, ClassView,
    CourseEntity, CourseView, DepartmentEntity, DepartmentView, EnrollmentEntity, EnrollmentView,
    PlaceEntity, PlaceView, StudentEntity, StudentView, TeacherEntity, TeacherView,
};
pub use place::{
    lemma_room_fields_gated, room_capacity, room_description, room_door_number, room_equipment,
    PlaceKind, RoomInfo, RoomView,
};
pub use resolve::{
    lemma_absent_relation_is_not_failure, lemma_resolution_is_uniform, resolve, resolve_many,
    resolve_one, resolve_optional, resolved, wrap_all, wrap_optional, wraps, Wrapped,
};
pub use session::{
    lemma_login_failure_keeps_state, lemma_login_success, lemma_logout_after_login,
    lemma_token_transitions, login_next, login_reply, logout_next, logout_reply, token_next,
    token_reply, RequestConfig, Session, SessionView,
};
pub use text::{copy_text, text_of};

verus! {

/// The library's version, as offered to the host.
pub const VERSION: &'static str = "0.1.0";

} // verus!
