//! The calls into iron_planet, the Supernova client, each behind a trusted
//! item whose contract states no more than the client's source shows. A call
//! that goes over the network promises nothing of its outcome.
use vstd::prelude::*;
use std::sync::Arc;
use iron_planet::models::PlaceVariant;
use crate::error::ProviderFault;
use crate::models::{
    BuildingEntity, ClassEntity, ClassInstanceEntity, ClassShiftEntity, ClassShiftInstanceEntity,
    CourseEntity, DepartmentEntity, EnrollmentEntity, PlaceEntity, StudentEntity, TeacherEntity,
};
use crate::keys::{
    BuildingKey, ClassInstanceKey, ClassKey, CourseKey, DepartmentKey, EnrollmentKey, PlaceKey,
    ShiftKey, StudentKey, TeacherKey,
};
use crate::place::{PlaceKind, RoomInfo};
use crate::resolve::Wrapped;

verus! {

/// iron_planet's error type, carried opaquely until it is mapped to a fault.
#[verifier::external_type_specification]
#[verifier::external_body]
pub struct ExProviderError(iron_planet::errors::Error);

/// The provider client; it holds the provider's own session state.
#[verifier::external_type_specification]
#[verifier::external_body]
pub struct ExClient(iron_planet::Supernova);

/// The provider's records, carried opaquely inside the entities.
#[verifier::external_type_specification]
#[verifier::external_body]
pub struct ExDepartment(iron_planet::models::Department);

#[verifier::external_type_specification]
#[verifier::external_body]
pub struct ExBuilding(iron_planet::models::Building);

#[verifier::external_type_specification]
#[verifier::external_body]
pub struct ExPlace(iron_planet::models::Place);

#[verifier::external_type_specification]
#[verifier::external_body]
pub struct ExCourse(iron_planet::models::Course);

#[verifier::external_type_specification]
#[verifier::external_body]
pub struct ExClass(iron_planet::models::Class);

#[verifier::external_type_specification]
#[verifier::external_body]
pub struct ExClassInstance(iron_planet::models::ClassInstance);

#[verifier::external_type_specification]
#[verifier::external_body]
pub struct ExClassShift(iron_planet::models::ClassShift);

#[verifier::external_type_specification]
#[verifier::external_body]
pub struct ExClassShiftInstance(iron_planet::models::ClassShiftInstance);

#[verifier::external_type_specification]
#[verifier::external_body]
pub struct ExStudent(iron_planet::models::Student);

#[verifier::external_type_specification]
#[verifier::external_body]
pub struct ExTeacher(iron_planet::models::Teacher);

#[verifier::external_type_specification]
#[verifier::external_body]
pub struct ExEnrollment(iron_planet::models::Enrollment);

/// Relies on the variants of iron_planet's `errors::Error`: each is carried
/// over to the fault of the same name, with the parsing message moved along.
#[verifier::external_body]
pub(crate) fn fault_of(e: iron_planet::errors::Error) -> (r: ProviderFault) {
    match e {
        iron_planet::errors::Error::Generic => ProviderFault::Generic,
        iron_planet::errors::Error::Server => ProviderFault::Server,
        iron_planet::errors::Error::Decode => ProviderFault::Decode,
        iron_planet::errors::Error::Parsing(m) => ProviderFault::Parsing(m),
        iron_planet::errors::Error::ResourceMissing => ProviderFault::ResourceMissing,
        iron_planet::errors::Error::MissingAuthentication => ProviderFault::MissingAuthentication,
        iron_planet::errors::Error::Authentication => ProviderFault::Authentication,
        iron_planet::errors::Error::Client => ProviderFault::Client,
        iron_planet::errors::Error::Network => ProviderFault::Network,
    }
}

/// Moves a provider outcome over to the library's fault type; the success
/// value is handed on untouched.
pub(crate) fn settle<T>(o: Result<T, iron_planet::errors::Error>) -> (r: Result<T, ProviderFault>)
    ensures
        r is Ok <==> o is Ok,
        o is Ok ==> r->Ok_0 == o->Ok_0,
{
    match o {
        Ok(v) => Ok(v),
        Err(e) => Err(fault_of(e)),
    }
}

/// Relies on iron_planet's `Supernova::new`: a fresh, unauthenticated client.
#[verifier::external_body]
pub(crate) fn new_client() -> Arc<iron_planet::Supernova> {
    iron_planet::Supernova::new()
}

/// Relies on iron_planet's `Supernova::login`: asks the server for a token;
/// the outcome depends on the network and the server.
#[verifier::external_body]
pub(crate) fn login(
    c: &Arc<iron_planet::Supernova>,
    username: &str,
    password: &str,
) -> Result<String, iron_planet::errors::Error> {
    c.login(username, password)
}

/// Relies on iron_planet's `Supernova::set_auth_token`: has the server verify
/// the token, then keeps it.
#[verifier::external_body]
pub(crate) fn set_auth_token(c: &Arc<iron_planet::Supernova>, token: String) -> Result<(), iron_planet::errors::Error> {
    c.set_auth_token(token)
}

/// Relies on iron_planet's `Supernova::logout`: ends the session on the server,
/// then drops the token.
#[verifier::external_body]
pub(crate) fn logout(c: &Arc<iron_planet::Supernova>) -> Result<(), iron_planet::errors::Error> {
    c.logout()
}

/// Relies on iron_planet's `Supernova::get_departments`: every Department the server lists.
#[verifier::external_body]
pub(crate) fn fetch_departments(
    c: &Arc<iron_planet::Supernova>,
    evade_cache: bool,
) -> Result<Vec<iron_planet::models::Department>, iron_planet::errors::Error> {
    c.get_departments(&iron_planet::RequestConfig { evade_cache })
}

/// Relies on iron_planet's `Supernova::get_buildings`: every Building the server lists.
#[verifier::external_body]
pub(crate) fn fetch_buildings(
    c: &Arc<iron_planet::Supernova>,
    evade_cache: bool,
) -> Result<Vec<iron_planet::models::Building>, iron_planet::errors::Error> {
    c.get_buildings(&iron_planet::RequestConfig { evade_cache })
}

/// Relies on iron_planet's `Supernova::get_places`: every Place the server lists.
#[verifier::external_body]
pub(crate) fn fetch_places(
    c: &Arc<iron_planet::Supernova>,
    evade_cache: bool,
) -> Result<Vec<iron_planet::models::Place>, iron_planet::errors::Error> {
    c.get_places(&iron_planet::RequestConfig { evade_cache })
}

/// Relies on iron_planet's `Supernova::get_courses`: every Course the server lists.
#[verifier::external_body]
pub(crate) fn fetch_courses(
    c: &Arc<iron_planet::Supernova>,
    evade_cache: bool,
) -> Result<Vec<iron_planet::models::Course>, iron_planet::errors::Error> {
    c.get_courses(&iron_planet::RequestConfig { evade_cache })
}

/// Relies on the public fields of iron_planet's `models::Department`, copied one for one;
/// the record itself is kept for later resolution.
#[verifier::external_body]
pub(crate) fn department_entity(src: iron_planet::models::Department) -> (r: DepartmentEntity)
    ensures
        r.source() == src,
{
    DepartmentEntity {
        id: DepartmentKey { id: src.id }, name: src.name.clone(),
        description: src.description.clone(),
        source: src,
    }
}

/// Relies on iron_planet's `models::Department::get_building`: one provider round trip, whose
/// outcome depends on the network and the server.
#[verifier::external_body]
pub(crate) fn department_building(e: &iron_planet::models::Department) -> Result<Option<iron_planet::models::Building>, iron_planet::errors::Error> {
    e.get_building()
}

/// Relies on iron_planet's `models::Department::get_courses`: one provider round trip, whose
/// outcome depends on the network and the server.
#[verifier::external_body]
pub(crate) fn department_courses(e: &iron_planet::models::Department) -> Result<Vec<iron_planet::models::Course>, iron_planet::errors::Error> {
    e.get_courses()
}

/// Relies on the public fields of iron_planet's `models::Building`, copied one for one;
/// the record itself is kept for later resolution.
#[verifier::external_body]
pub(crate) fn building_entity(src: iron_planet::models::Building) -> (r: BuildingEntity)
    ensures
        r.source() == src,
{
    BuildingEntity {
        id: BuildingKey { id: src.id }, name: src.name.clone(),
        abbreviation: src.abbreviation.clone(),
        source: src,
    }
}

/// Relies on iron_planet's `models::Building::get_rooms`: one provider round trip, whose
/// outcome depends on the network and the server.
#[verifier::external_body]
pub(crate) fn building_places(e: &iron_planet::models::Building) -> Result<Vec<iron_planet::models::Place>, iron_planet::errors::Error> {
    e.get_rooms()
}

/// Relies on the public fields of iron_planet's `models::Place`, copied one for one;
/// the record itself is kept for later resolution.
#[verifier::external_body]
pub(crate) fn place_entity(src: iron_planet::models::Place) -> (r: PlaceEntity)
    ensures
        r.source() == src,
{
    let kind = match &src.variant {
        PlaceVariant::Generic => PlaceKind::Placemark,
        PlaceVariant::Room(r) => PlaceKind::Room(RoomInfo {
            capacity: r.capacity, door_number: r.door_number,
            description: r.description.clone(), equipment: r.equipment.clone(),
        }),
    };
    PlaceEntity {
        id: PlaceKey { id: src.id }, name: src.name.clone(), floor: src.floor,
        picture: src.picture.clone(), picture_cover: src.picture_cover.clone(), kind,
        source: src,
    }
}

/// Relies on iron_planet's `models::Place::get_building`: one provider round trip, whose
/// outcome depends on the network and the server.
#[verifier::external_body]
pub(crate) fn place_building(e: &iron_planet::models::Place) -> Result<Option<iron_planet::models::Building>, iron_planet::errors::Error> {
    e.get_building()
}

/// Relies on the public fields of iron_planet's `models::Course`, copied one for one;
/// the record itself is kept for later resolution.
#[verifier::external_body]
pub(crate) fn course_entity(src: iron_planet::models::Course) -> (r: CourseEntity)
    ensures
        r.source() == src,
{
    CourseEntity {
        id: CourseKey { id: src.id }, abbreviation: src.abbreviation.clone(),
        name: src.name.clone(),
        source: src,
    }
}

/// Relies on iron_planet's `models::Course::get_department`: one provider round trip, whose
/// outcome depends on the network and the server.
#[verifier::external_body]
pub(crate) fn course_department(e: &iron_planet::models::Course) -> Result<Option<iron_planet::models::Department>, iron_planet::errors::Error> {
    e.get_department()
}

/// Relies on the public fields of iron_planet's `models::Class`, copied one for one;
/// the record itself is kept for later resolution.
#[verifier::external_body]
pub(crate) fn class_entity(src: iron_planet::models::Class) -> (r: ClassEntity)
    ensures
        r.source() == src,
{
    ClassEntity {
        id: ClassKey { id: src.id }, name: src.name.clone(),
        abbreviation: src.abbreviation.clone(), credits: src.credits,
        source: src,
    }
}

/// Relies on iron_planet's `models::Class::get_instances`: one provider round trip, whose
/// outcome depends on the network and the server.
#[verifier::external_body]
pub(crate) fn class_instances(e: &iron_planet::models::Class) -> Result<Vec<iron_planet::models::ClassInstance>, iron_planet::errors::Error> {
    e.get_instances()
}

/// Relies on iron_planet's `models::Class::get_department`: one provider round trip, whose
/// outcome depends on the network and the server.
#[verifier::external_body]
pub(crate) fn class_department(e: &iron_planet::models::Class) -> Result<Option<iron_planet::models::Department>, iron_planet::errors::Error> {
    e.get_department()
}

/// Relies on the public fields of iron_planet's `models::ClassInstance`, copied one for one;
/// the record itself is kept for later resolution.
#[verifier::external_body]
pub(crate) fn class_instance_entity(src: iron_planet::models::ClassInstance) -> (r: ClassInstanceEntity)
    ensures
        r.source() == src,
{
    ClassInstanceEntity {
        id: ClassInstanceKey { id: src.id }, year: src.year,
        source: src,
    }
}

/// Relies on iron_planet's `models::ClassInstance::get_enrollments`: one provider round trip, whose
/// outcome depends on the network and the server.
#[verifier::external_body]
pub(crate) fn instance_enrollments(e: &iron_planet::models::ClassInstance) -> Result<Vec<iron_planet::models::Enrollment>, iron_planet::errors::Error> {
    e.get_enrollments()
}

/// Relies on iron_planet's `models::ClassInstance::get_shifts`: one provider round trip, whose
/// outcome depends on the network and the server.
#[verifier::external_body]
pub(crate) fn instance_shifts(e: &iron_planet::models::ClassInstance) -> Result<Vec<iron_planet::models::ClassShift>, iron_planet::errors::Error> {
    e.get_shifts()
}

/// Relies on iron_planet's `models::ClassInstance::get_department`: one provider round trip, whose
/// outcome depends on the network and the server.
#[verifier::external_body]
pub(crate) fn instance_department(e: &iron_planet::models::ClassInstance) -> Result<Option<iron_planet::models::Department>, iron_planet::errors::Error> {
    e.get_department()
}

/// Relies on the public fields of iron_planet's `models::ClassShift`, copied one for one;
/// the record itself is kept for later resolution.
#[verifier::external_body]
pub(crate) fn class_shift_entity(src: iron_planet::models::ClassShift) -> (r: ClassShiftEntity)
    ensures
        r.source() == src,
{
    ClassShiftEntity {
        id: ShiftKey { id: src.id }, number: src.number,
        source: src,
    }
}

/// Relies on iron_planet's `models::ClassShift::get_teachers`: one provider round trip, whose
/// outcome depends on the network and the server.
#[verifier::external_body]
pub(crate) fn shift_teachers(e: &iron_planet::models::ClassShift) -> Result<Vec<iron_planet::models::Teacher>, iron_planet::errors::Error> {
    e.get_teachers()
}

/// Relies on the public fields of iron_planet's `models::ClassShiftInstance`, copied one for one;
/// the record itself is kept for later resolution.
#[verifier::external_body]
pub(crate) fn class_shift_instance_entity(src: iron_planet::models::ClassShiftInstance) -> (r: ClassShiftInstanceEntity)
    ensures
        r.source() == src,
{
    ClassShiftInstanceEntity {
        start: src.start, duration: src.duration,
        source: src,
    }
}

/// Relies on iron_planet's `models::ClassShiftInstance::get_place`: one provider round trip, whose
/// outcome depends on the network and the server.
#[verifier::external_body]
pub(crate) fn slot_place(e: &iron_planet::models::ClassShiftInstance) -> Result<Option<iron_planet::models::Place>, iron_planet::errors::Error> {
    e.get_place()
}

/// Relies on the public fields of iron_planet's `models::Student`, copied one for one;
/// the record itself is kept for later resolution.
#[verifier::external_body]
pub(crate) fn student_entity(src: iron_planet::models::Student) -> (r: StudentEntity)
    ensures
        r.source() == src,
{
    StudentEntity {
        id: StudentKey { id: src.id }, name: src.name.clone(),
        abbreviation: src.abbreviation.clone(), number: src.number,
        first_year: src.first_year, last_year: src.last_year, avg_grade: src.avg_grade,
        url: src.url.clone(),
        source: src,
    }
}

/// Relies on iron_planet's `models::Student::get_enrollments`: one provider round trip, whose
/// outcome depends on the network and the server.
#[verifier::external_body]
pub(crate) fn student_enrollments(e: &iron_planet::models::Student) -> Result<Vec<iron_planet::models::Enrollment>, iron_planet::errors::Error> {
    e.get_enrollments()
}

/// Relies on iron_planet's `models::Student::get_shifts`: one provider round trip, whose
/// outcome depends on the network and the server.
#[verifier::external_body]
pub(crate) fn student_shifts(e: &iron_planet::models::Student) -> Result<Vec<iron_planet::models::ClassShift>, iron_planet::errors::Error> {
    e.get_shifts()
}

/// Relies on iron_planet's `models::Student::get_course`: one provider round trip, whose
/// outcome depends on the network and the server.
#[verifier::external_body]
pub(crate) fn student_course(e: &iron_planet::models::Student) -> Result<Option<iron_planet::models::Course>, iron_planet::errors::Error> {
    e.get_course()
}

/// Relies on the public fields of iron_planet's `models::Teacher`, copied one for one;
/// the record itself is kept for later resolution.
#[verifier::external_body]
pub(crate) fn teacher_entity(src: iron_planet::models::Teacher) -> (r: TeacherEntity)
    ensures
        r.source() == src,
{
    TeacherEntity {
        id: TeacherKey { id: src.id }, name: src.name.clone(),
        abbreviation: src.abbreviation.clone(), first_year: src.first_year,
        last_year: src.last_year, phone: src.phone.clone(), email: src.email.clone(),
        thumb: src.thumb.clone(), rank: src.rank.clone(), url: src.url.clone(),
        source: src,
    }
}

/// Relies on iron_planet's `models::Teacher::get_departments`: one provider round trip, whose
/// outcome depends on the network and the server.
#[verifier::external_body]
pub(crate) fn teacher_departments(e: &iron_planet::models::Teacher) -> Result<Vec<iron_planet::models::Department>, iron_planet::errors::Error> {
    e.get_departments()
}

/// Relies on iron_planet's `models::Teacher::get_shifts`: one provider round trip, whose
/// outcome depends on the network and the server.
#[verifier::external_body]
pub(crate) fn teacher_shifts(e: &iron_planet::models::Teacher) -> Result<Vec<iron_planet::models::ClassShift>, iron_planet::errors::Error> {
    e.get_shifts()
}

/// Relies on the public fields of iron_planet's `models::Enrollment`, copied one for one;
/// the record itself is kept for later resolution.
#[verifier::external_body]
pub(crate) fn enrollment_entity(src: iron_planet::models::Enrollment) -> (r: EnrollmentEntity)
    ensures
        r.source() == src,
{
    EnrollmentEntity {
        id: EnrollmentKey { id: src.id }, attendance: src.attendance,
        attendance_date: src.attendance_date.clone(), normal_grade: src.normal_grade,
        normal_grade_date: src.normal_grade_date.clone(),
        recourse_grade: src.recourse_grade,
        recourse_grade_date: src.recourse_grade_date.clone(),
        special_grade: src.special_grade,
        special_grade_date: src.special_grade_date.clone(),
        improvement_grade: src.improvement_grade,
        improvement_grade_date: src.improvement_grade_date.clone(),
        approved: src.approved, grade: src.grade,
        source: src,
    }
}

/// Relies on iron_planet's `models::Enrollment::get_student`: one provider round trip, whose
/// outcome depends on the network and the server.
#[verifier::external_body]
pub(crate) fn enrollment_student(e: &iron_planet::models::Enrollment) -> Result<iron_planet::models::Student, iron_planet::errors::Error> {
    e.get_student()
}

/// Relies on iron_planet's `models::Enrollment::get_class_instance`: one provider round trip, whose
/// outcome depends on the network and the server.
#[verifier::external_body]
pub(crate) fn enrollment_class_instance(e: &iron_planet::models::Enrollment) -> Result<iron_planet::models::ClassInstance, iron_planet::errors::Error> {
    e.get_class_instance()
}
/// Relies on the `Room` variant of iron_planet's `models::PlaceVariant` and on
/// `models::Room::get_department`: for a room, the outcome of one provider
/// round trip for its owning department; for any other place, no call is made.
#[verifier::external_body]
pub(crate) fn room_department(
    p: &iron_planet::models::Place,
) -> Option<Result<Option<iron_planet::models::Department>, iron_planet::errors::Error>> {
    match &p.variant {
        iron_planet::models::PlaceVariant::Room(room) => Some(room.get_department()),
        iron_planet::models::PlaceVariant::Generic => None,
    }
}

/// The weekly slots that a shift's record holds, in the record's order.
pub uninterp spec fn slots_of(s: iron_planet::models::ClassShift) -> Seq<iron_planet::models::ClassShiftInstance>;

/// Relies on the public `instances` field of iron_planet's `models::ClassShift`:
/// a copy of the slots the record holds.
#[verifier::external_body]
pub(crate) fn shift_slots(s: &iron_planet::models::ClassShift) -> (r: Vec<iron_planet::models::ClassShiftInstance>)
    ensures
        r@ == slots_of(*s),
{
    s.instances.clone()
}

} // verus!
