use vstd::prelude::*;
use crate::error::Failure;
use crate::keys::{
    BuildingKey, ClassInstanceKey, ClassKey, CourseKey, DepartmentKey, EnrollmentKey, PlaceKey,
    ShiftKey, StudentKey, TeacherKey,
};
use crate::place::{
    room_capacity, room_description, room_door_number, room_equipment, PlaceKind,
    RoomView,
};
use crate::provider::{self, settle};
use crate::resolve::{resolve_many, resolve_one, resolve_optional, wrap_all, wraps, Wrapped};
use crate::text::{copy_text, text_of};

verus! {

/// What callers can read of a Department without a round trip.
pub struct DepartmentView {
    pub id: DepartmentKey,
    pub name: Seq<char>,
    pub description: Option<Seq<char>>,
}

/// A department of the university.
pub struct DepartmentEntity {
    pub(crate) id: DepartmentKey,
    pub(crate) name: String,
    pub(crate) description: Option<String>,
    pub(crate) source: iron_planet::models::Department,
}

impl View for DepartmentEntity {
    type V = DepartmentView;

    closed spec fn view(&self) -> DepartmentView {
        DepartmentView {
            id: self.id,
            name: self.name@,
            description: text_of(self.description),
        }
    }
}

impl Wrapped for DepartmentEntity {
    type Source = iron_planet::models::Department;

    closed spec fn source(&self) -> iron_planet::models::Department {
        self.source
    }

    fn wrap(src: iron_planet::models::Department) -> (r: Self) {
        provider::department_entity(src)
    }
}

impl DepartmentEntity {
    pub fn id(&self) -> (r: DepartmentKey)
        ensures
            r == self@.id,
    {
        self.id
    }

    pub fn name(&self) -> (r: String)
        ensures
            r@ == self@.name,
    {
        self.name.clone()
    }

    pub fn description(&self) -> (r: Option<String>)
        ensures
            text_of(r) == self@.description,
    {
        copy_text(&self.description)
    }

    /// The building the department is housed in, absent when it has none. One provider round trip; its failures are operation failures.
    pub fn building(&self) -> (r: Result<Option<BuildingEntity>, Failure>)
        ensures
            r is Err ==> r->Err_0 is Operation,
    {
        resolve_optional(settle(provider::department_building(&self.source)))
    }

    /// The courses the department runs. One provider round trip; its failures are operation failures.
    pub fn courses(&self) -> (r: Result<Vec<CourseEntity>, Failure>)
        ensures
            r is Err ==> r->Err_0 is Operation,
    {
        resolve_many(settle(provider::department_courses(&self.source)))
    }

}

/// What callers can read of a Building without a round trip.
pub struct BuildingView {
    pub id: BuildingKey,
    pub name: Seq<char>,
    pub abbreviation: Seq<char>,
}

/// A building of the campus.
pub struct BuildingEntity {
    pub(crate) id: BuildingKey,
    pub(crate) name: String,
    pub(crate) abbreviation: String,
    pub(crate) source: iron_planet::models::Building,
}

impl View for BuildingEntity {
    type V = BuildingView;

    closed spec fn view(&self) -> BuildingView {
        BuildingView {
            id: self.id,
            name: self.name@,
            abbreviation: self.abbreviation@,
        }
    }
}

impl Wrapped for BuildingEntity {
    type Source = iron_planet::models::Building;

    closed spec fn source(&self) -> iron_planet::models::Building {
        self.source
    }

    fn wrap(src: iron_planet::models::Building) -> (r: Self) {
        provider::building_entity(src)
    }
}

impl BuildingEntity {
    pub fn id(&self) -> (r: BuildingKey)
        ensures
            r == self@.id,
    {
        self.id
    }

    pub fn name(&self) -> (r: String)
        ensures
            r@ == self@.name,
    {
        self.name.clone()
    }

    pub fn abbreviation(&self) -> (r: String)
        ensures
            r@ == self@.abbreviation,
    {
        self.abbreviation.clone()
    }

    /// The places inside the building. One provider round trip; its failures are operation failures.
    pub fn places(&self) -> (r: Result<Vec<PlaceEntity>, Failure>)
        ensures
            r is Err ==> r->Err_0 is Operation,
    {
        resolve_many(settle(provider::building_places(&self.source)))
    }

}

/// What callers can read of a Place without a round trip.
pub struct PlaceView {
    pub id: PlaceKey,
    pub name: Seq<char>,
    pub floor: i8,
    pub picture: Option<Seq<char>>,
    pub picture_cover: Option<Seq<char>>,
    pub kind: Option<RoomView>,
}

/// A place on campus: a bare placemark or a room.
pub struct PlaceEntity {
    pub(crate) id: PlaceKey,
    pub(crate) name: String,
    pub(crate) floor: i8,
    pub(crate) picture: Option<String>,
    pub(crate) picture_cover: Option<String>,
    pub(crate) kind: PlaceKind,
    pub(crate) source: iron_planet::models::Place,
}

impl View for PlaceEntity {
    type V = PlaceView;

    closed spec fn view(&self) -> PlaceView {
        PlaceView {
            id: self.id,
            name: self.name@,
            floor: self.floor,
            picture: text_of(self.picture),
            picture_cover: text_of(self.picture_cover),
            kind: self.kind@,
        }
    }
}

impl Wrapped for PlaceEntity {
    type Source = iron_planet::models::Place;

    closed spec fn source(&self) -> iron_planet::models::Place {
        self.source
    }

    fn wrap(src: iron_planet::models::Place) -> (r: Self) {
        provider::place_entity(src)
    }
}

impl PlaceEntity {
    pub fn id(&self) -> (r: PlaceKey)
        ensures
            r == self@.id,
    {
        self.id
    }

    pub fn name(&self) -> (r: String)
        ensures
            r@ == self@.name,
    {
        self.name.clone()
    }

    pub fn floor(&self) -> (r: i8)
        ensures
            r == self@.floor,
    {
        self.floor
    }

    pub fn picture(&self) -> (r: Option<String>)
        ensures
            text_of(r) == self@.picture,
    {
        copy_text(&self.picture)
    }

    pub fn picture_cover(&self) -> (r: Option<String>)
        ensures
            text_of(r) == self@.picture_cover,
    {
        copy_text(&self.picture_cover)
    }

    /// The building the place belongs to, if any. One provider round trip; its failures are operation failures.
    pub fn building(&self) -> (r: Result<Option<BuildingEntity>, Failure>)
        ensures
            r is Err ==> r->Err_0 is Operation,
    {
        resolve_optional(settle(provider::place_building(&self.source)))
    }

}

/// What callers can read of a Course without a round trip.
pub struct CourseView {
    pub id: CourseKey,
    pub abbreviation: Seq<char>,
    pub name: Seq<char>,
}

/// A degree course.
pub struct CourseEntity {
    pub(crate) id: CourseKey,
    pub(crate) abbreviation: String,
    pub(crate) name: String,
    pub(crate) source: iron_planet::models::Course,
}

impl View for CourseEntity {
    type V = CourseView;

    closed spec fn view(&self) -> CourseView {
        CourseView {
            id: self.id,
            abbreviation: self.abbreviation@,
            name: self.name@,
        }
    }
}

impl Wrapped for CourseEntity {
    type Source = iron_planet::models::Course;

    closed spec fn source(&self) -> iron_planet::models::Course {
        self.source
    }

    fn wrap(src: iron_planet::models::Course) -> (r: Self) {
        provider::course_entity(src)
    }
}

impl CourseEntity {
    pub fn id(&self) -> (r: CourseKey)
        ensures
            r == self@.id,
    {
        self.id
    }

    pub fn abbreviation(&self) -> (r: String)
        ensures
            r@ == self@.abbreviation,
    {
        self.abbreviation.clone()
    }

    pub fn name(&self) -> (r: String)
        ensures
            r@ == self@.name,
    {
        self.name.clone()
    }

    /// The department that runs the course, if any. One provider round trip; its failures are operation failures.
    pub fn department(&self) -> (r: Result<Option<DepartmentEntity>, Failure>)
        ensures
            r is Err ==> r->Err_0 is Operation,
    {
        resolve_optional(settle(provider::course_department(&self.source)))
    }

}

/// What callers can read of a Class without a round trip.
pub struct ClassView {
    pub id: ClassKey,
    pub name: Seq<char>,
    pub abbreviation: Seq<char>,
    pub credits: u32,
}

/// A class (a subject), across the years it was taught.
pub struct ClassEntity {
    pub(crate) id: ClassKey,
    pub(crate) name: String,
    pub(crate) abbreviation: String,
    pub(crate) credits: u32,
    pub(crate) source: iron_planet::models::Class,
}

impl View for ClassEntity {
    type V = ClassView;

    closed spec fn view(&self) -> ClassView {
        ClassView {
            id: self.id,
            name: self.name@,
            abbreviation: self.abbreviation@,
            credits: self.credits,
        }
    }
}

impl Wrapped for ClassEntity {
    type Source = iron_planet::models::Class;

    closed spec fn source(&self) -> iron_planet::models::Class {
        self.source
    }

    fn wrap(src: iron_planet::models::Class) -> (r: Self) {
        provider::class_entity(src)
    }
}

impl ClassEntity {
    pub fn id(&self) -> (r: ClassKey)
        ensures
            r == self@.id,
    {
        self.id
    }

    pub fn name(&self) -> (r: String)
        ensures
            r@ == self@.name,
    {
        self.name.clone()
    }

    pub fn abbreviation(&self) -> (r: String)
        ensures
            r@ == self@.abbreviation,
    {
        self.abbreviation.clone()
    }

    pub fn credits(&self) -> (r: u32)
        ensures
            r == self@.credits,
    {
        self.credits
    }

    /// The yearly instances of the class. One provider round trip; its failures are operation failures.
    pub fn instances(&self) -> (r: Result<Vec<ClassInstanceEntity>, Failure>)
        ensures
            r is Err ==> r->Err_0 is Operation,
    {
        resolve_many(settle(provider::class_instances(&self.source)))
    }

    /// The department that teaches the class, if any. One provider round trip; its failures are operation failures.
    pub fn department(&self) -> (r: Result<Option<DepartmentEntity>, Failure>)
        ensures
            r is Err ==> r->Err_0 is Operation,
    {
        resolve_optional(settle(provider::class_department(&self.source)))
    }

}

/// What callers can read of a ClassInstance without a round trip.
pub struct ClassInstanceView {
    pub id: ClassInstanceKey,
    pub year: u32,
}

/// One instance of a class in a given year.
pub struct ClassInstanceEntity {
    pub(crate) id: ClassInstanceKey,
    pub(crate) year: u32,
    pub(crate) source: iron_planet::models::ClassInstance,
}

impl View for ClassInstanceEntity {
    type V = ClassInstanceView;

    closed spec fn view(&self) -> ClassInstanceView {
        ClassInstanceView {
            id: self.id,
            year: self.year,
        }
    }
}

impl Wrapped for ClassInstanceEntity {
    type Source = iron_planet::models::ClassInstance;

    closed spec fn source(&self) -> iron_planet::models::ClassInstance {
        self.source
    }

    fn wrap(src: iron_planet::models::ClassInstance) -> (r: Self) {
        provider::class_instance_entity(src)
    }
}

impl ClassInstanceEntity {
    pub fn id(&self) -> (r: ClassInstanceKey)
        ensures
            r == self@.id,
    {
        self.id
    }

    pub fn year(&self) -> (r: u32)
        ensures
            r == self@.year,
    {
        self.year
    }

    /// The enrollments in this instance. One provider round trip; its failures are operation failures.
    pub fn enrollments(&self) -> (r: Result<Vec<EnrollmentEntity>, Failure>)
        ensures
            r is Err ==> r->Err_0 is Operation,
    {
        resolve_many(settle(provider::instance_enrollments(&self.source)))
    }

    /// The shifts of this instance. One provider round trip; its failures are operation failures.
    pub fn shifts(&self) -> (r: Result<Vec<ClassShiftEntity>, Failure>)
        ensures
            r is Err ==> r->Err_0 is Operation,
    {
        resolve_many(settle(provider::instance_shifts(&self.source)))
    }

    /// The department that teaches this instance, if any. One provider round trip; its failures are operation failures.
    pub fn department(&self) -> (r: Result<Option<DepartmentEntity>, Failure>)
        ensures
            r is Err ==> r->Err_0 is Operation,
    {
        resolve_optional(settle(provider::instance_department(&self.source)))
    }

    /// The provider record itself, for what the library does not model as a
    /// value (the average grade is a floating-point number).
    pub fn record(&self) -> (r: &iron_planet::models::ClassInstance)
        ensures
            *r == self.source(),
    {
        &self.source
    }

}

/// What callers can read of a ClassShift without a round trip.
pub struct ClassShiftView {
    pub id: ShiftKey,
    pub number: u16,
}

/// A shift of a class instance.
pub struct ClassShiftEntity {
    pub(crate) id: ShiftKey,
    pub(crate) number: u16,
    pub(crate) source: iron_planet::models::ClassShift,
}

impl View for ClassShiftEntity {
    type V = ClassShiftView;

    closed spec fn view(&self) -> ClassShiftView {
        ClassShiftView {
            id: self.id,
            number: self.number,
        }
    }
}

impl Wrapped for ClassShiftEntity {
    type Source = iron_planet::models::ClassShift;

    closed spec fn source(&self) -> iron_planet::models::ClassShift {
        self.source
    }

    fn wrap(src: iron_planet::models::ClassShift) -> (r: Self) {
        provider::class_shift_entity(src)
    }
}

impl ClassShiftEntity {
    pub fn id(&self) -> (r: ShiftKey)
        ensures
            r == self@.id,
    {
        self.id
    }

    pub fn number(&self) -> (r: u16)
        ensures
            r == self@.number,
    {
        self.number
    }

    /// The teachers of the shift. One provider round trip; its failures are operation failures.
    pub fn teachers(&self) -> (r: Result<Vec<TeacherEntity>, Failure>)
        ensures
            r is Err ==> r->Err_0 is Operation,
    {
        resolve_many(settle(provider::shift_teachers(&self.source)))
    }

    /// The weekly slots of the shift, carried in the shift's own record.
    pub fn instances(&self) -> (r: Vec<ClassShiftInstanceEntity>)
        ensures
            wraps(r@, provider::slots_of(self.source())),
    {
        wrap_all(provider::shift_slots(&self.source))
    }

}

/// What callers can read of a ClassShiftInstance without a round trip.
pub struct ClassShiftInstanceView {
    pub start: u16,
    pub duration: u16,
}

/// One weekly slot of a shift.
pub struct ClassShiftInstanceEntity {
    pub(crate) start: u16,
    pub(crate) duration: u16,
    pub(crate) source: iron_planet::models::ClassShiftInstance,
}

impl View for ClassShiftInstanceEntity {
    type V = ClassShiftInstanceView;

    closed spec fn view(&self) -> ClassShiftInstanceView {
        ClassShiftInstanceView {
            start: self.start,
            duration: self.duration,
        }
    }
}

impl Wrapped for ClassShiftInstanceEntity {
    type Source = iron_planet::models::ClassShiftInstance;

    closed spec fn source(&self) -> iron_planet::models::ClassShiftInstance {
        self.source
    }

    fn wrap(src: iron_planet::models::ClassShiftInstance) -> (r: Self) {
        provider::class_shift_instance_entity(src)
    }
}

impl ClassShiftInstanceEntity {
    pub fn start(&self) -> (r: u16)
        ensures
            r == self@.start,
    {
        self.start
    }

    pub fn duration(&self) -> (r: u16)
        ensures
            r == self@.duration,
    {
        self.duration
    }

    /// The place the slot is held in, if any. One provider round trip; its failures are operation failures.
    pub fn room(&self) -> (r: Result<Option<PlaceEntity>, Failure>)
        ensures
            r is Err ==> r->Err_0 is Operation,
    {
        resolve_optional(settle(provider::slot_place(&self.source)))
    }

}

/// What callers can read of a Student without a round trip.
pub struct StudentView {
    pub id: StudentKey,
    pub name: Seq<char>,
    pub abbreviation: Option<Seq<char>>,
    pub number: u32,
    pub first_year: Option<u32>,
    pub last_year: Option<u32>,
    pub avg_grade: Option<u32>,
    pub url: Seq<char>,
}

/// A student.
pub struct StudentEntity {
    pub(crate) id: StudentKey,
    pub(crate) name: String,
    pub(crate) abbreviation: Option<String>,
    pub(crate) number: u32,
    pub(crate) first_year: Option<u32>,
    pub(crate) last_year: Option<u32>,
    pub(crate) avg_grade: Option<u32>,
    pub(crate) url: String,
    pub(crate) source: iron_planet::models::Student,
}

impl View for StudentEntity {
    type V = StudentView;

    closed spec fn view(&self) -> StudentView {
        StudentView {
            id: self.id,
            name: self.name@,
            abbreviation: text_of(self.abbreviation),
            number: self.number,
            first_year: self.first_year,
            last_year: self.last_year,
            avg_grade: self.avg_grade,
            url: self.url@,
        }
    }
}

impl Wrapped for StudentEntity {
    type Source = iron_planet::models::Student;

    closed spec fn source(&self) -> iron_planet::models::Student {
        self.source
    }

    fn wrap(src: iron_planet::models::Student) -> (r: Self) {
        provider::student_entity(src)
    }
}

impl StudentEntity {
    pub fn id(&self) -> (r: StudentKey)
        ensures
            r == self@.id,
    {
        self.id
    }

    pub fn name(&self) -> (r: String)
        ensures
            r@ == self@.name,
    {
        self.name.clone()
    }

    pub fn abbreviation(&self) -> (r: Option<String>)
        ensures
            text_of(r) == self@.abbreviation,
    {
        copy_text(&self.abbreviation)
    }

    pub fn number(&self) -> (r: u32)
        ensures
            r == self@.number,
    {
        self.number
    }

    pub fn first_year(&self) -> (r: Option<u32>)
        ensures
            r == self@.first_year,
    {
        self.first_year
    }

    pub fn last_year(&self) -> (r: Option<u32>)
        ensures
            r == self@.last_year,
    {
        self.last_year
    }

    pub fn avg_grade(&self) -> (r: Option<u32>)
        ensures
            r == self@.avg_grade,
    {
        self.avg_grade
    }

    pub fn url(&self) -> (r: String)
        ensures
            r@ == self@.url,
    {
        self.url.clone()
    }

    /// The student's enrollments. One provider round trip; its failures are operation failures.
    pub fn enrollments(&self) -> (r: Result<Vec<EnrollmentEntity>, Failure>)
        ensures
            r is Err ==> r->Err_0 is Operation,
    {
        resolve_many(settle(provider::student_enrollments(&self.source)))
    }

    /// The shifts the student attends. One provider round trip; its failures are operation failures.
    pub fn shifts(&self) -> (r: Result<Vec<ClassShiftEntity>, Failure>)
        ensures
            r is Err ==> r->Err_0 is Operation,
    {
        resolve_many(settle(provider::student_shifts(&self.source)))
    }

    /// The course the student is in, if any. One provider round trip; its failures are operation failures.
    pub fn course(&self) -> (r: Result<Option<CourseEntity>, Failure>)
        ensures
            r is Err ==> r->Err_0 is Operation,
    {
        resolve_optional(settle(provider::student_course(&self.source)))
    }

}

/// What callers can read of a Teacher without a round trip.
pub struct TeacherView {
    pub id: TeacherKey,
    pub name: Seq<char>,
    pub abbreviation: Option<Seq<char>>,
    pub first_year: Option<u32>,
    pub last_year: Option<u32>,
    pub phone: Option<Seq<char>>,
    pub email: Option<Seq<char>>,
    pub thumb: Option<Seq<char>>,
    pub rank: Option<Seq<char>>,
    pub url: Seq<char>,
}

/// A teacher.
pub struct TeacherEntity {
    pub(crate) id: TeacherKey,
    pub(crate) name: String,
    pub(crate) abbreviation: Option<String>,
    pub(crate) first_year: Option<u32>,
    pub(crate) last_year: Option<u32>,
    pub(crate) phone: Option<String>,
    pub(crate) email: Option<String>,
    pub(crate) thumb: Option<String>,
    pub(crate) rank: Option<String>,
    pub(crate) url: String,
    pub(crate) source: iron_planet::models::Teacher,
}

impl View for TeacherEntity {
    type V = TeacherView;

    closed spec fn view(&self) -> TeacherView {
        TeacherView {
            id: self.id,
            name: self.name@,
            abbreviation: text_of(self.abbreviation),
            first_year: self.first_year,
            last_year: self.last_year,
            phone: text_of(self.phone),
            email: text_of(self.email),
            thumb: text_of(self.thumb),
            rank: text_of(self.rank),
            url: self.url@,
        }
    }
}

impl Wrapped for TeacherEntity {
    type Source = iron_planet::models::Teacher;

    closed spec fn source(&self) -> iron_planet::models::Teacher {
        self.source
    }

    fn wrap(src: iron_planet::models::Teacher) -> (r: Self) {
        provider::teacher_entity(src)
    }
}

impl TeacherEntity {
    pub fn id(&self) -> (r: TeacherKey)
        ensures
            r == self@.id,
    {
        self.id
    }

    pub fn name(&self) -> (r: String)
        ensures
            r@ == self@.name,
    {
        self.name.clone()
    }

    pub fn abbreviation(&self) -> (r: Option<String>)
        ensures
            text_of(r) == self@.abbreviation,
    {
        copy_text(&self.abbreviation)
    }

    pub fn first_year(&self) -> (r: Option<u32>)
        ensures
            r == self@.first_year,
    {
        self.first_year
    }

    pub fn last_year(&self) -> (r: Option<u32>)
        ensures
            r == self@.last_year,
    {
        self.last_year
    }

    pub fn phone(&self) -> (r: Option<String>)
        ensures
            text_of(r) == self@.phone,
    {
        copy_text(&self.phone)
    }

    pub fn email(&self) -> (r: Option<String>)
        ensures
            text_of(r) == self@.email,
    {
        copy_text(&self.email)
    }

    pub fn thumb(&self) -> (r: Option<String>)
        ensures
            text_of(r) == self@.thumb,
    {
        copy_text(&self.thumb)
    }

    pub fn rank(&self) -> (r: Option<String>)
        ensures
            text_of(r) == self@.rank,
    {
        copy_text(&self.rank)
    }

    pub fn url(&self) -> (r: String)
        ensures
            r@ == self@.url,
    {
        self.url.clone()
    }

    /// The departments the teacher belongs to. One provider round trip; its failures are operation failures.
    pub fn departments(&self) -> (r: Result<Vec<DepartmentEntity>, Failure>)
        ensures
            r is Err ==> r->Err_0 is Operation,
    {
        resolve_many(settle(provider::teacher_departments(&self.source)))
    }

    /// The shifts the teacher teaches. One provider round trip; its failures are operation failures.
    pub fn shifts(&self) -> (r: Result<Vec<ClassShiftEntity>, Failure>)
        ensures
            r is Err ==> r->Err_0 is Operation,
    {
        resolve_many(settle(provider::teacher_shifts(&self.source)))
    }

}

/// What callers can read of a Enrollment without a round trip.
pub struct EnrollmentView {
    pub id: EnrollmentKey,
    pub attendance: Option<bool>,
    pub attendance_date: Option<Seq<char>>,
    pub normal_grade: Option<u8>,
    pub normal_grade_date: Option<Seq<char>>,
    pub recourse_grade: Option<u8>,
    pub recourse_grade_date: Option<Seq<char>>,
    pub special_grade: Option<u8>,
    pub special_grade_date: Option<Seq<char>>,
    pub improvement_grade: Option<u8>,
    pub improvement_grade_date: Option<Seq<char>>,
    pub approved: Option<bool>,
    pub grade: Option<u8>,
}

/// A student's enrollment in a class instance.
pub struct EnrollmentEntity {
    pub(crate) id: EnrollmentKey,
    pub(crate) attendance: Option<bool>,
    pub(crate) attendance_date: Option<String>,
    pub(crate) normal_grade: Option<u8>,
    pub(crate) normal_grade_date: Option<String>,
    pub(crate) recourse_grade: Option<u8>,
    pub(crate) recourse_grade_date: Option<String>,
    pub(crate) special_grade: Option<u8>,
    pub(crate) special_grade_date: Option<String>,
    pub(crate) improvement_grade: Option<u8>,
    pub(crate) improvement_grade_date: Option<String>,
    pub(crate) approved: Option<bool>,
    pub(crate) grade: Option<u8>,
    pub(crate) source: iron_planet::models::Enrollment,
}

impl View for EnrollmentEntity {
    type V = EnrollmentView;

    closed spec fn view(&self) -> EnrollmentView {
        EnrollmentView {
            id: self.id,
            attendance: self.attendance,
            attendance_date: text_of(self.attendance_date),
            normal_grade: self.normal_grade,
            normal_grade_date: text_of(self.normal_grade_date),
            recourse_grade: self.recourse_grade,
            recourse_grade_date: text_of(self.recourse_grade_date),
            special_grade: self.special_grade,
            special_grade_date: text_of(self.special_grade_date),
            improvement_grade: self.improvement_grade,
            improvement_grade_date: text_of(self.improvement_grade_date),
            approved: self.approved,
            grade: self.grade,
        }
    }
}

impl Wrapped for EnrollmentEntity {
    type Source = iron_planet::models::Enrollment;

    closed spec fn source(&self) -> iron_planet::models::Enrollment {
        self.source
    }

    fn wrap(src: iron_planet::models::Enrollment) -> (r: Self) {
        provider::enrollment_entity(src)
    }
}

impl EnrollmentEntity {
    pub fn id(&self) -> (r: EnrollmentKey)
        ensures
            r == self@.id,
    {
        self.id
    }

    pub fn attendance(&self) -> (r: Option<bool>)
        ensures
            r == self@.attendance,
    {
        self.attendance
    }

    pub fn attendance_date(&self) -> (r: Option<String>)
        ensures
            text_of(r) == self@.attendance_date,
    {
        copy_text(&self.attendance_date)
    }

    pub fn normal_grade(&self) -> (r: Option<u8>)
        ensures
            r == self@.normal_grade,
    {
        self.normal_grade
    }

    pub fn normal_grade_date(&self) -> (r: Option<String>)
        ensures
            text_of(r) == self@.normal_grade_date,
    {
        copy_text(&self.normal_grade_date)
    }

    pub fn recourse_grade(&self) -> (r: Option<u8>)
        ensures
            r == self@.recourse_grade,
    {
        self.recourse_grade
    }

    pub fn recourse_grade_date(&self) -> (r: Option<String>)
        ensures
            text_of(r) == self@.recourse_grade_date,
    {
        copy_text(&self.recourse_grade_date)
    }

    pub fn special_grade(&self) -> (r: Option<u8>)
        ensures
            r == self@.special_grade,
    {
        self.special_grade
    }

    pub fn special_grade_date(&self) -> (r: Option<String>)
        ensures
            text_of(r) == self@.special_grade_date,
    {
        copy_text(&self.special_grade_date)
    }

    pub fn improvement_grade(&self) -> (r: Option<u8>)
        ensures
            r == self@.improvement_grade,
    {
        self.improvement_grade
    }

    pub fn improvement_grade_date(&self) -> (r: Option<String>)
        ensures
            text_of(r) == self@.improvement_grade_date,
    {
        copy_text(&self.improvement_grade_date)
    }

    pub fn approved(&self) -> (r: Option<bool>)
        ensures
            r == self@.approved,
    {
        self.approved
    }

    pub fn grade(&self) -> (r: Option<u8>)
        ensures
            r == self@.grade,
    {
        self.grade
    }

    /// The enrolled student. One provider round trip; its failures are operation failures.
    pub fn student(&self) -> (r: Result<StudentEntity, Failure>)
        ensures
            r is Err ==> r->Err_0 is Operation,
    {
        resolve_one(settle(provider::enrollment_student(&self.source)))
    }

    /// The class instance enrolled in. One provider round trip; its failures are operation failures.
    pub fn class_instance(&self) -> (r: Result<ClassInstanceEntity, Failure>)
        ensures
            r is Err ==> r->Err_0 is Operation,
    {
        resolve_one(settle(provider::enrollment_class_instance(&self.source)))
    }

}
impl PlaceEntity {
    /// Whether the place is a room; the room-only accessors below follow it.
    pub fn is_room(&self) -> (r: bool)
        ensures
            r <==> self@.kind is Some,
    {
        self.kind.is_room()
    }

    /// The room's capacity; absent on a placemark.
    pub fn capacity(&self) -> (r: Option<u16>)
        ensures
            r == room_capacity(self@.kind),
    {
        self.kind.capacity()
    }

    /// The room's door number; absent on a placemark.
    pub fn door_number(&self) -> (r: Option<u16>)
        ensures
            r == room_door_number(self@.kind),
    {
        self.kind.door_number()
    }

    /// The room's description; absent on a placemark.
    pub fn description(&self) -> (r: Option<String>)
        ensures
            text_of(r) == room_description(self@.kind),
    {
        self.kind.description()
    }

    /// The room's equipment; absent on a placemark.
    pub fn equipment(&self) -> (r: Option<String>)
        ensures
            text_of(r) == room_equipment(self@.kind),
    {
        self.kind.equipment()
    }

    /// The department owning the room: absent on a placemark without asking
    /// the provider; for a room, one round trip whose failures are operation
    /// failures.
    pub fn department(&self) -> (r: Result<Option<DepartmentEntity>, Failure>)
        ensures
            self@.kind is None ==> r == Ok::<Option<DepartmentEntity>, Failure>(None),
            r is Err ==> r->Err_0 is Operation,
    {
        if self.kind.is_room() {
            match provider::room_department(&self.source) {
                Some(outcome) => resolve_optional(settle(outcome)),
                None => Ok(None),
            }
        } else {
            Ok(None)
        }
    }
}

} // verus!
