use vstd::prelude::*;

verus! {

/// A tutor as persisted; the id is assigned by the store.
#[derive(Clone, Debug, PartialEq, Eq)]
pub struct Tutor {
    pub tutor_id: i32,
    pub tutor_name: String,
    pub tutor_pic_url: String,
    pub tutor_profile: String,
}

/// The fields a client supplies to create a tutor.
#[derive(Clone, Debug, PartialEq, Eq)]
pub struct NewTutor {
    pub tutor_name: String,
    pub tutor_pic_url: String,
    pub tutor_profile: String,
}

/// A partial update of a tutor: an absent field leaves the stored value as it is.
#[derive(Clone, Debug, PartialEq, Eq)]
pub struct UpdateTutor {
    pub tutor_name: Option<String>,
    pub tutor_pic_url: Option<String>,
    pub tutor_profile: Option<String>,
}

/// A course as persisted. `posted_time` is in seconds since the Unix epoch, UTC.
#[derive(Clone, Debug, PartialEq, Eq)]
pub struct Course {
    pub course_id: i32,
    pub tutor_id: i32,
    pub course_name: String,
    pub course_description: Option<String>,
    pub course_format: Option<String>,
    pub course_structure: Option<String>,
    pub course_duration: Option<String>,
    pub course_price: Option<i32>,
    pub course_language: Option<String>,
    pub course_level: Option<String>,
    pub posted_time: Option<i64>,
}

/// The fields a client supplies to create a course.
#[derive(Clone, Debug, PartialEq, Eq)]
pub struct CreateCourse {
    pub tutor_id: i32,
    pub course_name: String,
    pub course_description: Option<String>,
    pub course_format: Option<String>,
    pub course_structure: Option<String>,
    pub course_duration: Option<String>,
    pub course_price: Option<i32>,
    pub course_language: Option<String>,
    pub course_level: Option<String>,
}

/// A partial update of a course; owner, id and posting time never change.
#[derive(Clone, Debug, PartialEq, Eq)]
pub struct UpdateCourse {
    pub course_name: Option<String>,
    pub course_description: Option<String>,
    pub course_format: Option<String>,
    pub course_structure: Option<String>,
    pub course_duration: Option<String>,
    pub course_price: Option<i32>,
    pub course_language: Option<String>,
    pub course_level: Option<String>,
}

/// What a delete reports: how many rows it removed.
#[derive(Clone, Copy, Debug, PartialEq, Eq, Structural)]
pub struct DeleteConfirmation {
    pub rows_affected: u64,
}

/// A present patch value replaces the current one; an absent one keeps it.
pub open spec fn patched<T>(current: T, patch: Option<T>) -> T {
    match patch {
        Some(v) => v,
        None => current,
    }
}

/// The same rule for a field that may itself be absent.
pub open spec fn patched_optional<T>(current: Option<T>, patch: Option<T>) -> Option<T> {
    match patch {
        Some(v) => Some(v),
        None => current,
    }
}

pub open spec fn tutor_patched(t: Tutor, p: UpdateTutor) -> Tutor {
    Tutor {
        tutor_id: t.tutor_id,
        tutor_name: patched(t.tutor_name, p.tutor_name),
        tutor_pic_url: patched(t.tutor_pic_url, p.tutor_pic_url),
        tutor_profile: patched(t.tutor_profile, p.tutor_profile),
    }
}

pub open spec fn course_patched(c: Course, p: UpdateCourse) -> Course {
    Course {
        course_id: c.course_id,
        tutor_id: c.tutor_id,
        course_name: patched(c.course_name, p.course_name),
        course_description: patched_optional(c.course_description, p.course_description),
        course_format: patched_optional(c.course_format, p.course_format),
        course_structure: patched_optional(c.course_structure, p.course_structure),
        course_duration: patched_optional(c.course_duration, p.course_duration),
        course_price: patched_optional(c.course_price, p.course_price),
        course_language: patched_optional(c.course_language, p.course_language),
        course_level: patched_optional(c.course_level, p.course_level),
        posted_time: c.posted_time,
    }
}

/// The tutor that an insert of `n` under the id `id` stores.
pub open spec fn tutor_from(id: i32, n: NewTutor) -> Tutor {
    Tutor {
        tutor_id: id,
        tutor_name: n.tutor_name,
        tutor_pic_url: n.tutor_pic_url,
        tutor_profile: n.tutor_profile,
    }
}

/// The course that an insert of `n` under the id `id` at time `at` stores.
pub open spec fn course_from(id: i32, n: CreateCourse, at: i64) -> Course {
    Course {
        course_id: id,
        tutor_id: n.tutor_id,
        course_name: n.course_name,
        course_description: n.course_description,
        course_format: n.course_format,
        course_structure: n.course_structure,
        course_duration: n.course_duration,
        course_price: n.course_price,
        course_language: n.course_language,
        course_level: n.course_level,
        posted_time: Some(at),
    }
}

/// Applies one patch field to its current value.
pub fn merge_value<T>(current: T, patch: Option<T>) -> (r: T)
    ensures
        r == patched(current, patch),
{
    match patch {
        Some(v) => v,
        None => current,
    }
}

/// Applies one patch field to a current value that may be absent.
pub fn merge_optional<T>(current: Option<T>, patch: Option<T>) -> (r: Option<T>)
    ensures
        r == patched_optional(current, patch),
{
    match patch {
        Some(v) => Some(v),
        None => current,
    }
}

/// Merges a patch into the current tutor: present fields replace, absent ones keep.
pub fn merge_tutor(current: Tutor, patch: UpdateTutor) -> (r: Tutor)
    ensures
        r == tutor_patched(current, patch),
{
    Tutor {
        tutor_id: current.tutor_id,
        tutor_name: merge_value(current.tutor_name, patch.tutor_name),
        tutor_pic_url: merge_value(current.tutor_pic_url, patch.tutor_pic_url),
        tutor_profile: merge_value(current.tutor_profile, patch.tutor_profile),
    }
}

/// Merges a patch into the current course: present fields replace, absent ones keep.
pub fn merge_course(current: Course, patch: UpdateCourse) -> (r: Course)
    ensures
        r == course_patched(current, patch),
{
    Course {
        course_id: current.course_id,
        tutor_id: current.tutor_id,
        course_name: merge_value(current.course_name, patch.course_name),
        course_description: merge_optional(current.course_description, patch.course_description),
        course_format: merge_optional(current.course_format, patch.course_format),
        course_structure: merge_optional(current.course_structure, patch.course_structure),
        course_duration: merge_optional(current.course_duration, patch.course_duration),
        course_price: merge_optional(current.course_price, patch.course_price),
        course_language: merge_optional(current.course_language, patch.course_language),
        course_level: merge_optional(current.course_level, patch.course_level),
        posted_time: current.posted_time,
    }
}

impl Tutor {
    /// A field-by-field copy.
    pub fn duplicate(&self) -> (r: Tutor)
        ensures
            r == *self,
    {
        Tutor {
            tutor_id: self.tutor_id,
            tutor_name: self.tutor_name.clone(),
            tutor_pic_url: self.tutor_pic_url.clone(),
            tutor_profile: self.tutor_profile.clone(),
        }
    }
}

fn copy_text(s: &Option<String>) -> (r: Option<String>)
    ensures
        r == *s,
{
    match s {
        Some(v) => Some(v.clone()),
        None => None,
    }
}

impl Course {
    /// A field-by-field copy.
    pub fn duplicate(&self) -> (r: Course)
        ensures
            r == *self,
    {
        Course {
            course_id: self.course_id,
            tutor_id: self.tutor_id,
            course_name: self.course_name.clone(),
            course_description: copy_text(&self.course_description),
            course_format: copy_text(&self.course_format),
            course_structure: copy_text(&self.course_structure),
            course_duration: copy_text(&self.course_duration),
            course_price: self.course_price,
            course_language: copy_text(&self.course_language),
            course_level: copy_text(&self.course_level),
            posted_time: self.posted_time,
        }
    }
}

} // verus!
