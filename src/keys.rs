use vstd::prelude::*;

verus! {

/// Identifies a department; comparable only with keys of its own kind.
#[derive(Clone, Copy, Debug, PartialEq, Eq, Structural, PartialOrd, Ord, Hash)]
pub struct DepartmentKey {
    pub(crate) id: u32,
}

impl View for DepartmentKey {
    type V = u32;

    closed spec fn view(&self) -> u32 {
        self.id
    }
}

impl DepartmentKey {
    /// The provider's number for this entity.
    pub fn raw(&self) -> (r: u32)
        ensures
            r == self@,
    {
        self.id
    }
}

/// Identifies a building; comparable only with keys of its own kind.
#[derive(Clone, Copy, Debug, PartialEq, Eq, Structural, PartialOrd, Ord, Hash)]
pub struct BuildingKey {
    pub(crate) id: u32,
}

impl View for BuildingKey {
    type V = u32;

    closed spec fn view(&self) -> u32 {
        self.id
    }
}

impl BuildingKey {
    /// The provider's number for this entity.
    pub fn raw(&self) -> (r: u32)
        ensures
            r == self@,
    {
        self.id
    }
}

/// Identifies a place; comparable only with keys of its own kind.
#[derive(Clone, Copy, Debug, PartialEq, Eq, Structural, PartialOrd, Ord, Hash)]
pub struct PlaceKey {
    pub(crate) id: u32,
}

impl View for PlaceKey {
    type V = u32;

    closed spec fn view(&self) -> u32 {
        self.id
    }
}

impl PlaceKey {
    /// The provider's number for this entity.
    pub fn raw(&self) -> (r: u32)
        ensures
            r == self@,
    {
        self.id
    }
}

/// Identifies a course; comparable only with keys of its own kind.
#[derive(Clone, Copy, Debug, PartialEq, Eq, Structural, PartialOrd, Ord, Hash)]
pub struct CourseKey {
    pub(crate) id: u32,
}

impl View for CourseKey {
    type V = u32;

    closed spec fn view(&self) -> u32 {
        self.id
    }
}

impl CourseKey {
    /// The provider's number for this entity.
    pub fn raw(&self) -> (r: u32)
        ensures
            r == self@,
    {
        self.id
    }
}

/// Identifies a class; comparable only with keys of its own kind.
#[derive(Clone, Copy, Debug, PartialEq, Eq, Structural, PartialOrd, Ord, Hash)]
pub struct ClassKey {
    pub(crate) id: u32,
}

impl View for ClassKey {
    type V = u32;

    closed spec fn view(&self) -> u32 {
        self.id
    }
}

impl ClassKey {
    /// The provider's number for this entity.
    pub fn raw(&self) -> (r: u32)
        ensures
            r == self@,
    {
        self.id
    }
}

/// Identifies one yearly instance of a class; comparable only with keys of its own kind.
#[derive(Clone, Copy, Debug, PartialEq, Eq, Structural, PartialOrd, Ord, Hash)]
pub struct ClassInstanceKey {
    pub(crate) id: u32,
}

impl View for ClassInstanceKey {
    type V = u32;

    closed spec fn view(&self) -> u32 {
        self.id
    }
}

impl ClassInstanceKey {
    /// The provider's number for this entity.
    pub fn raw(&self) -> (r: u32)
        ensures
            r == self@,
    {
        self.id
    }
}

/// Identifies a class shift; comparable only with keys of its own kind.
#[derive(Clone, Copy, Debug, PartialEq, Eq, Structural, PartialOrd, Ord, Hash)]
pub struct ShiftKey {
    pub(crate) id: u32,
}

impl View for ShiftKey {
    type V = u32;

    closed spec fn view(&self) -> u32 {
        self.id
    }
}

impl ShiftKey {
    /// The provider's number for this entity.
    pub fn raw(&self) -> (r: u32)
        ensures
            r == self@,
    {
        self.id
    }
}

/// Identifies a student; comparable only with keys of its own kind.
#[derive(Clone, Copy, Debug, PartialEq, Eq, Structural, PartialOrd, Ord, Hash)]
pub struct StudentKey {
    pub(crate) id: u32,
}

impl View for StudentKey {
    type V = u32;

    closed spec fn view(&self) -> u32 {
        self.id
    }
}

impl StudentKey {
    /// The provider's number for this entity.
    pub fn raw(&self) -> (r: u32)
        ensures
            r == self@,
    {
        self.id
    }
}

/// Identifies a teacher; comparable only with keys of its own kind.
#[derive(Clone, Copy, Debug, PartialEq, Eq, Structural, PartialOrd, Ord, Hash)]
pub struct TeacherKey {
    pub(crate) id: u32,
}

impl View for TeacherKey {
    type V = u32;

    closed spec fn view(&self) -> u32 {
        self.id
    }
}

impl TeacherKey {
    /// The provider's number for this entity.
    pub fn raw(&self) -> (r: u32)
        ensures
            r == self@,
    {
        self.id
    }
}

/// Identifies an enrollment; comparable only with keys of its own kind.
#[derive(Clone, Copy, Debug, PartialEq, Eq, Structural, PartialOrd, Ord, Hash)]
pub struct EnrollmentKey {
    pub(crate) id: u32,
}

impl View for EnrollmentKey {
    type V = u32;

    closed spec fn view(&self) -> u32 {
        self.id
    }
}

impl EnrollmentKey {
    /// The provider's number for this entity.
    pub fn raw(&self) -> (r: u32)
        ensures
            r == self@,
    {
        self.id
    }
}

} // verus!
