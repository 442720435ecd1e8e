//! The data-access layer, over an in-memory relational store: a tutor relation
//! keyed by `tutor_id` and a course relation keyed by `course_id`, whose
//! `tutor_id` must name an existing tutor. Each operation is stated over
//! `CatalogModel` by a spec function, and each store outcome goes through the
//! classification of `outcome`.
use vstd::prelude::*;
use crate::errors::{ErrorKind, EzyTutorError, result_kind, rows_kind};
use crate::models::{
    Course, CreateCourse, DeleteConfirmation, NewTutor, Tutor, UpdateCourse, UpdateTutor,
    course_from, course_patched, merge_course, merge_tutor, tutor_from, tutor_patched,
};
use crate::outcome::{StoreError, lookup_outcome, tutor_list_outcome, write_outcome};

verus! {

/// The contents of a store: both relations, and the next id each sequence hands out.
pub struct CatalogModel {
    pub tutors: Seq<Tutor>,
    pub courses: Seq<Course>,
    pub next_tutor_id: i32,
    pub next_course_id: i32,
}

pub open spec fn has_tutor(rows: Seq<Tutor>, id: i32) -> bool {
    exists|i: int| 0 <= i < rows.len() && (#[trigger] rows[i]).tutor_id == id
}

pub open spec fn tutor_index(rows: Seq<Tutor>, id: i32) -> int {
    choose|i: int| 0 <= i < rows.len() && (#[trigger] rows[i]).tutor_id == id
}

/// The tutor stored under `id`, if any.
pub open spec fn tutor_row(rows: Seq<Tutor>, id: i32) -> Option<Tutor> {
    if has_tutor(rows, id) {
        Some(rows[tutor_index(rows, id)])
    } else {
        None
    }
}

pub open spec fn is_course(c: Course, tutor_id: i32, course_id: i32) -> bool {
    c.tutor_id == tutor_id && c.course_id == course_id
}

pub open spec fn has_course(rows: Seq<Course>, tutor_id: i32, course_id: i32) -> bool {
    exists|i: int| 0 <= i < rows.len() && is_course(#[trigger] rows[i], tutor_id, course_id)
}

pub open spec fn course_index(rows: Seq<Course>, tutor_id: i32, course_id: i32) -> int {
    choose|i: int| 0 <= i < rows.len() && is_course(#[trigger] rows[i], tutor_id, course_id)
}

/// The course stored under the composite key (`tutor_id`, `course_id`), if any.
pub open spec fn course_row(rows: Seq<Course>, tutor_id: i32, course_id: i32) -> Option<Course> {
    if has_course(rows, tutor_id, course_id) {
        Some(rows[course_index(rows, tutor_id, course_id)])
    } else {
        None
    }
}

/// Whether some course belongs to the tutor `tutor_id`.
pub open spec fn owns_courses(rows: Seq<Course>, tutor_id: i32) -> bool {
    exists|i: int| 0 <= i < rows.len() && (#[trigger] rows[i]).tutor_id == tutor_id
}

/// The courses of the tutor `tutor_id`, in store order.
pub open spec fn courses_of(rows: Seq<Course>, tutor_id: i32) -> Seq<Course>
    decreases rows.len(),
{
    if rows.len() == 0 {
        Seq::empty()
    } else if rows.last().tutor_id == tutor_id {
        courses_of(rows.drop_last(), tutor_id).push(rows.last())
    } else {
        courses_of(rows.drop_last(), tutor_id)
    }
}

impl CatalogModel {
    /// Ids are positive, ascending in store order and below the next id to hand
    /// out; every course belongs to a stored tutor.
    pub open spec fn wf(self) -> bool {
        &&& 0 < self.next_tutor_id
        &&& 0 < self.next_course_id
        &&& forall|i: int, j: int|
            0 <= i < j < self.tutors.len() ==> #[trigger] self.tutors[i].tutor_id
                < #[trigger] self.tutors[j].tutor_id
        &&& forall|i: int|
            0 <= i < self.tutors.len() ==> 0 < #[trigger] self.tutors[i].tutor_id
                < self.next_tutor_id
        &&& forall|i: int, j: int|
            0 <= i < j < self.courses.len() ==> #[trigger] self.courses[i].course_id
                < #[trigger] self.courses[j].course_id
        &&& forall|i: int|
            0 <= i < self.courses.len() ==> 0 < #[trigger] self.courses[i].course_id
                < self.next_course_id
        &&& forall|i: int|
            0 <= i < self.courses.len() ==> has_tutor(self.tutors, #[trigger] self.courses[i].tutor_id)
    }

    pub open spec fn with_tutors(self, tutors: Seq<Tutor>, next_tutor_id: i32) -> CatalogModel {
        CatalogModel {
            tutors: tutors,
            courses: self.courses,
            next_tutor_id: next_tutor_id,
            next_course_id: self.next_course_id,
        }
    }

    pub open spec fn with_courses(self, courses: Seq<Course>, next_course_id: i32) -> CatalogModel {
        CatalogModel {
            tutors: self.tutors,
            courses: courses,
            next_tutor_id: self.next_tutor_id,
            next_course_id: next_course_id,
        }
    }

    /// Listing all tutors: an empty relation is reported as not found.
    pub open spec fn list_tutors(self) -> Result<Seq<Tutor>, ErrorKind> {
        if self.tutors.len() == 0 {
            Err(ErrorKind::NotFound)
        } else {
            Ok(self.tutors)
        }
    }

    pub open spec fn get_tutor(self, id: i32) -> Result<Tutor, ErrorKind> {
        match tutor_row(self.tutors, id) {
            Some(t) => Ok(t),
            None => Err(ErrorKind::NotFound),
        }
    }

    /// Inserting a tutor under the next id; a store failure once the sequence is spent.
    pub open spec fn post_tutor(self, n: NewTutor) -> (CatalogModel, Result<Tutor, ErrorKind>) {
        if self.next_tutor_id == i32::MAX {
            (self, Err(ErrorKind::StoreFailure))
        } else {
            let t = tutor_from(self.next_tutor_id, n);
            (self.with_tutors(self.tutors.push(t), (self.next_tutor_id + 1) as i32), Ok(t))
        }
    }

    /// Read, merge, write back in place.
    pub open spec fn update_tutor(self, id: i32, p: UpdateTutor) -> (CatalogModel, Result<Tutor, ErrorKind>) {
        match tutor_row(self.tutors, id) {
            None => (self, Err(ErrorKind::NotFound)),
            Some(cur) => {
                let t = tutor_patched(cur, p);
                (self.with_tutors(self.tutors.update(tutor_index(self.tutors, id), t), self.next_tutor_id), Ok(t))
            },
        }
    }

    /// Deleting by id: no row is still a success; a tutor who owns courses is
    /// kept by the referential constraint.
    pub open spec fn delete_tutor(self, id: i32) -> (CatalogModel, Result<DeleteConfirmation, ErrorKind>) {
        if !has_tutor(self.tutors, id) {
            (self, Ok(DeleteConfirmation { rows_affected: 0 }))
        } else if owns_courses(self.courses, id) {
            (self, Err(ErrorKind::StoreFailure))
        } else {
            (
                self.with_tutors(self.tutors.remove(tutor_index(self.tutors, id)), self.next_tutor_id),
                Ok(DeleteConfirmation { rows_affected: 1 }),
            )
        }
    }
}

impl CatalogModel {
    /// Listing the courses of a tutor: an empty listing is a success.
    pub open spec fn list_courses(self, tutor_id: i32) -> Result<Seq<Course>, ErrorKind> {
        Ok(courses_of(self.courses, tutor_id))
    }

    pub open spec fn get_course(self, tutor_id: i32, course_id: i32) -> Result<Course, ErrorKind> {
        match course_row(self.courses, tutor_id, course_id) {
            Some(c) => Ok(c),
            None => Err(ErrorKind::NotFound),
        }
    }

    /// Inserting a course under the next id, posted at `at`; a store failure
    /// when its tutor does not exist or the sequence is spent.
    pub open spec fn post_course(self, n: CreateCourse, at: i64) -> (CatalogModel, Result<Course, ErrorKind>) {
        if !has_tutor(self.tutors, n.tutor_id) || self.next_course_id == i32::MAX {
            (self, Err(ErrorKind::StoreFailure))
        } else {
            let c = course_from(self.next_course_id, n, at);
            (self.with_courses(self.courses.push(c), (self.next_course_id + 1) as i32), Ok(c))
        }
    }

    /// Read, merge, write back in place, under the composite key.
    pub open spec fn update_course(self, tutor_id: i32, course_id: i32, p: UpdateCourse) -> (CatalogModel, Result<Course, ErrorKind>) {
        match course_row(self.courses, tutor_id, course_id) {
            None => (self, Err(ErrorKind::NotFound)),
            Some(cur) => {
                let c = course_patched(cur, p);
                (
                    self.with_courses(self.courses.update(course_index(self.courses, tutor_id, course_id), c), self.next_course_id),
                    Ok(c),
                )
            },
        }
    }

    /// Deleting under the composite key: no row is still a success.
    pub open spec fn delete_course(self, tutor_id: i32, course_id: i32) -> (CatalogModel, Result<DeleteConfirmation, ErrorKind>) {
        if !has_course(self.courses, tutor_id, course_id) {
            (self, Ok(DeleteConfirmation { rows_affected: 0 }))
        } else {
            (
                self.with_courses(self.courses.remove(course_index(self.courses, tutor_id, course_id)), self.next_course_id),
                Ok(DeleteConfirmation { rows_affected: 1 }),
            )
        }
    }
}

/// An in-memory store holding both relations and their id sequences.
pub struct CatalogStore {
    tutors: Vec<Tutor>,
    courses: Vec<Course>,
    next_tutor_id: i32,
    next_course_id: i32,
}

impl View for CatalogStore {
    type V = CatalogModel;

    closed spec fn view(&self) -> CatalogModel {
        CatalogModel {
            tutors: self.tutors@,
            courses: self.courses@,
            next_tutor_id: self.next_tutor_id,
            next_course_id: self.next_course_id,
        }
    }
}

/// In ascending rows, the row that carries `id` is the one found under it.
pub proof fn lemma_tutor_at(rows: Seq<Tutor>, id: i32, i: int)
    requires
        forall|a: int, b: int| 0 <= a < b < rows.len() ==> #[trigger] rows[a].tutor_id < #[trigger] rows[b].tutor_id,
        0 <= i < rows.len(),
        rows[i].tutor_id == id,
    ensures
        has_tutor(rows, id),
        tutor_index(rows, id) == i,
        tutor_row(rows, id) == Some(rows[i]),
{
    assert(has_tutor(rows, id));
    let j = tutor_index(rows, id);
    assert(rows[j].tutor_id == id);
    if j < i {
        assert(rows[j].tutor_id < rows[i].tutor_id);
    } else if i < j {
        assert(rows[i].tutor_id < rows[j].tutor_id);
    }
}

/// In rows with ascending course ids, the row that carries the key is the one found under it.
pub proof fn lemma_course_at(rows: Seq<Course>, tutor_id: i32, course_id: i32, i: int)
    requires
        forall|a: int, b: int| 0 <= a < b < rows.len() ==> #[trigger] rows[a].course_id < #[trigger] rows[b].course_id,
        0 <= i < rows.len(),
        is_course(rows[i], tutor_id, course_id),
    ensures
        has_course(rows, tutor_id, course_id),
        course_index(rows, tutor_id, course_id) == i,
        course_row(rows, tutor_id, course_id) == Some(rows[i]),
{
    assert(has_course(rows, tutor_id, course_id));
    let j = course_index(rows, tutor_id, course_id);
    assert(is_course(rows[j], tutor_id, course_id));
    if j < i {
        assert(rows[j].course_id < rows[i].course_id);
    } else if i < j {
        assert(rows[i].course_id < rows[j].course_id);
    }
}

impl CatalogStore {
    /// A store with both relations empty; both sequences start at 1.
    pub fn new() -> (r: CatalogStore)
        ensures
            r@.wf(),
            r@.tutors.len() == 0,
            r@.courses.len() == 0,
            r@.next_tutor_id == 1,
            r@.next_course_id == 1,
    {
        CatalogStore { tutors: Vec::new(), courses: Vec::new(), next_tutor_id: 1, next_course_id: 1 }
    }

    fn find_tutor(&self, id: i32) -> (r: Option<usize>)
        requires
            self@.wf(),
        ensures
            match r {
                Some(i) => i < self.tutors@.len() && self.tutors@[i as int].tutor_id == id
                    && tutor_index(self.tutors@, id) == i,
                None => !has_tutor(self.tutors@, id),
            },
    {
        let mut i: usize = 0;
        while i < self.tutors.len()
            invariant
                self@.wf(),
                i <= self.tutors@.len(),
                forall|k: int| 0 <= k < i ==> (#[trigger] self.tutors@[k]).tutor_id != id,
            decreases self.tutors@.len() - i,
        {
            if self.tutors[i].tutor_id == id {
                proof {
                    assert(self@.tutors == self.tutors@);
                    lemma_tutor_at(self.tutors@, id, i as int);
                }
                return Some(i);
            }
            i += 1;
        }
        None
    }

    /// `SELECT` of one tutor by id.
    fn fetch_tutor(&self, id: i32) -> (r: Result<Tutor, StoreError>)
        requires
            self@.wf(),
        ensures
            match tutor_row(self@.tutors, id) {
                Some(t) => r == Ok::<Tutor, StoreError>(t),
                None => r == Err::<Tutor, StoreError>(StoreError::RowNotFound),
            },
    {
        match self.find_tutor(id) {
            Some(i) => Ok(self.tutors[i].duplicate()),
            None => Err(StoreError::RowNotFound),
        }
    }

    /// `SELECT` of every tutor.
    fn fetch_all_tutors(&self) -> (r: Vec<Tutor>)
        ensures
            r@ == self@.tutors,
    {
        let mut out: Vec<Tutor> = Vec::new();
        let mut i: usize = 0;
        while i < self.tutors.len()
            invariant
                i <= self.tutors@.len(),
                out@ == self.tutors@.subrange(0, i as int),
            decreases self.tutors@.len() - i,
        {
            out.push(self.tutors[i].duplicate());
            i += 1;
            assert(out@ =~= self.tutors@.subrange(0, i as int));
        }
        assert(out@ =~= self.tutors@);
        out
    }

    /// `INSERT` of a tutor under the next id of the sequence.
    fn insert_tutor(&mut self, n: NewTutor) -> (r: Result<Tutor, StoreError>)
        requires
            old(self)@.wf(),
        ensures
            final(self)@.wf(),
            final(self)@ == old(self)@.post_tutor(n).0,
            match old(self)@.post_tutor(n).1 {
                Ok(t) => r == Ok::<Tutor, StoreError>(t),
                Err(_) => r is Err,
            },
    {
        if self.next_tutor_id == i32::MAX {
            return Err(StoreError::Failure("tutor id sequence is exhausted".to_owned()));
        }
        let t = Tutor {
            tutor_id: self.next_tutor_id,
            tutor_name: n.tutor_name,
            tutor_pic_url: n.tutor_pic_url,
            tutor_profile: n.tutor_profile,
        };
        self.tutors.push(t.duplicate());
        self.next_tutor_id = self.next_tutor_id + 1;
        proof {
            assert(self@.tutors =~= old(self)@.tutors.push(t));
            assert(forall|i: int| 0 <= i < self@.courses.len() ==> has_tutor(self@.tutors, #[trigger] self@.courses[i].tutor_id)) by {
                assert forall|i: int| 0 <= i < self@.courses.len() implies has_tutor(self@.tutors, #[trigger] self@.courses[i].tutor_id) by {
                    let k = tutor_index(old(self)@.tutors, self@.courses[i].tutor_id);
                    assert(self@.tutors[k] == old(self)@.tutors[k]);
                }
            }
        }
        Ok(t)
    }

    /// `UPDATE` of the tutor row that has `t`'s id, replacing it with `t`.
    fn write_tutor(&mut self, t: Tutor) -> (r: Result<Tutor, StoreError>)
        requires
            old(self)@.wf(),
        ensures
            final(self)@.wf(),
            match tutor_row(old(self)@.tutors, t.tutor_id) {
                Some(_) => r == Ok::<Tutor, StoreError>(t) && final(self)@ == old(self)@.with_tutors(
                    old(self)@.tutors.update(tutor_index(old(self)@.tutors, t.tutor_id), t),
                    old(self)@.next_tutor_id,
                ),
                None => r == Err::<Tutor, StoreError>(StoreError::RowNotFound) && final(self)@ == old(self)@,
            },
    {
        match self.find_tutor(t.tutor_id) {
            None => Err(StoreError::RowNotFound),
            Some(i) => {
                proof {
                    assert(self@.tutors == self.tutors@);
                }
                let ghost before = self@;
                self.tutors[i] = t.duplicate();
                proof {
                    assert(self@.tutors =~= before.tutors.update(i as int, t));
                    assert forall|c: int| 0 <= c < self@.courses.len() implies has_tutor(self@.tutors, #[trigger] self@.courses[c].tutor_id) by {
                        let k = tutor_index(before.tutors, self@.courses[c].tutor_id);
                        assert(self@.tutors[k].tutor_id == before.tutors[k].tutor_id);
                    }
                    assert(self@ == before.with_tutors(before.tutors.update(i as int, t), before.next_tutor_id));
                }
                Ok(t)
            },
        }
    }

    /// Whether some course row belongs to the tutor `id`.
    fn courses_owned_by(&self, id: i32) -> (r: bool)
        ensures
            r == owns_courses(self@.courses, id),
    {
        let mut i: usize = 0;
        while i < self.courses.len()
            invariant
                i <= self.courses@.len(),
                forall|k: int| 0 <= k < i ==> (#[trigger] self.courses@[k]).tutor_id != id,
            decreases self.courses@.len() - i,
        {
            if self.courses[i].tutor_id == id {
                assert(self@.courses[i as int].tutor_id == id);
                return true;
            }
            i += 1;
        }
        false
    }

    /// `DELETE` of the tutor row with id `id`.
    fn delete_tutor_row(&mut self, id: i32) -> (r: Result<DeleteConfirmation, StoreError>)
        requires
            old(self)@.wf(),
        ensures
            final(self)@.wf(),
            final(self)@ == old(self)@.delete_tutor(id).0,
            match old(self)@.delete_tutor(id).1 {
                Ok(d) => r == Ok::<DeleteConfirmation, StoreError>(d),
                Err(_) => r is Err,
            },
    {
        match self.find_tutor(id) {
            None => Ok(DeleteConfirmation { rows_affected: 0 }),
            Some(i) => {
                if self.courses_owned_by(id) {
                    return Err(StoreError::Failure(
                        "delete on the tutor relation violates the foreign key of the course relation".to_owned(),
                    ));
                }
                let ghost before = self@;
                proof {
                    assert(before.tutors == self.tutors@);
                }
                self.tutors.remove(i);
                proof {
                    let after = before.tutors.remove(i as int);
                    assert(self@.tutors =~= after);
                    assert forall|a: int, b: int| 0 <= a < b < after.len() implies #[trigger] after[a].tutor_id
                        < #[trigger] after[b].tutor_id by {
                        let a0 = if a < i { a } else { a + 1 };
                        let b0 = if b < i { b } else { b + 1 };
                        assert(after[a] == before.tutors[a0]);
                        assert(after[b] == before.tutors[b0]);
                    }
                    assert forall|a: int| 0 <= a < after.len() implies 0 < #[trigger] after[a].tutor_id
                        < before.next_tutor_id by {
                        let a0 = if a < i { a } else { a + 1 };
                        assert(after[a] == before.tutors[a0]);
                    }
                    assert forall|c: int| 0 <= c < self@.courses.len() implies has_tutor(after, #[trigger] self@.courses[c].tutor_id) by {
                        let tid = self@.courses[c].tutor_id;
                        assert(tid != id);
                        let k = tutor_index(before.tutors, tid);
                        assert(before.tutors[k].tutor_id == tid);
                        assert(k != i);
                        let k1 = if k < i { k } else { k - 1 };
                        assert(after[k1] == before.tutors[k]);
                    }
                }
                Ok(DeleteConfirmation { rows_affected: 1 })
            },
        }
    }
}

/// All tutors, in store order; `NotFound` when there are none.
pub fn get_all_tutors_db(store: &CatalogStore) -> (r: Result<Vec<Tutor>, EzyTutorError>)
    requires
        store@.wf(),
    ensures
        rows_kind(r) == store@.list_tutors(),
{
    let rows = store.fetch_all_tutors();
    tutor_list_outcome(Ok(rows))
}

/// The tutor with the given id; `NotFound` when there is none.
pub fn get_tutor_details_db(store: &CatalogStore, tutor_id: i32) -> (r: Result<Tutor, EzyTutorError>)
    requires
        store@.wf(),
    ensures
        result_kind(r) == store@.get_tutor(tutor_id),
{
    lookup_outcome(store.fetch_tutor(tutor_id), "Tutor id not found")
}

/// Inserts a tutor and returns it with the id the store assigned.
pub fn post_new_tutor_db(store: &mut CatalogStore, new_tutor: NewTutor) -> (r: Result<Tutor, EzyTutorError>)
    requires
        old(store)@.wf(),
    ensures
        final(store)@.wf(),
        final(store)@ == old(store)@.post_tutor(new_tutor).0,
        result_kind(r) == old(store)@.post_tutor(new_tutor).1,
{
    write_outcome(store.insert_tutor(new_tutor))
}

} // verus!

verus! {

/// Read, merge, write: present patch fields replace the stored values, absent
/// ones keep them; `NotFound` when the tutor is missing at either step.
pub fn update_tutor_details_db(store: &mut CatalogStore, tutor_id: i32, update_tutor: UpdateTutor) -> (r: Result<Tutor, EzyTutorError>)
    requires
        old(store)@.wf(),
    ensures
        final(store)@.wf(),
        final(store)@ == old(store)@.update_tutor(tutor_id, update_tutor).0,
        result_kind(r) == old(store)@.update_tutor(tutor_id, update_tutor).1,
{
    let current = match lookup_outcome(store.fetch_tutor(tutor_id), "tutor id not found") {
        Ok(t) => t,
        Err(e) => return Err(e),
    };
    let merged = merge_tutor(current, update_tutor);
    lookup_outcome(store.write_tutor(merged), "Tutor not found")
}

/// Deletes the tutor with the given id and reports how many rows went; a
/// missing tutor is a success with no rows.
pub fn delete_tutor_db(store: &mut CatalogStore, tutor_id: i32) -> (r: Result<DeleteConfirmation, EzyTutorError>)
    requires
        old(store)@.wf(),
    ensures
        final(store)@.wf(),
        final(store)@ == old(store)@.delete_tutor(tutor_id).0,
        result_kind(r) == old(store)@.delete_tutor(tutor_id).1,
{
    write_outcome(store.delete_tutor_row(tutor_id))
}

} // verus!

verus! {

impl CatalogStore {
    fn find_course(&self, tutor_id: i32, course_id: i32) -> (r: Option<usize>)
        requires
            self@.wf(),
        ensures
            match r {
                Some(i) => i < self.courses@.len() && is_course(self.courses@[i as int], tutor_id, course_id)
                    && course_index(self.courses@, tutor_id, course_id) == i,
                None => !has_course(self.courses@, tutor_id, course_id),
            },
    {
        let mut i: usize = 0;
        while i < self.courses.len()
            invariant
                self@.wf(),
                i <= self.courses@.len(),
                forall|k: int| 0 <= k < i ==> !is_course(#[trigger] self.courses@[k], tutor_id, course_id),
            decreases self.courses@.len() - i,
        {
            if self.courses[i].tutor_id == tutor_id && self.courses[i].course_id == course_id {
                proof {
                    assert(self@.courses == self.courses@);
                    lemma_course_at(self.courses@, tutor_id, course_id, i as int);
                }
                return Some(i);
            }
            i += 1;
        }
        None
    }

    /// `SELECT` of one course by its composite key.
    fn fetch_course(&self, tutor_id: i32, course_id: i32) -> (r: Result<Course, StoreError>)
        requires
            self@.wf(),
        ensures
            match course_row(self@.courses, tutor_id, course_id) {
                Some(c) => r == Ok::<Course, StoreError>(c),
                None => r == Err::<Course, StoreError>(StoreError::RowNotFound),
            },
    {
        match self.find_course(tutor_id, course_id) {
            Some(i) => Ok(self.courses[i].duplicate()),
            None => Err(StoreError::RowNotFound),
        }
    }

    /// `SELECT` of the courses of one tutor.
    fn fetch_courses_of(&self, tutor_id: i32) -> (r: Vec<Course>)
        ensures
            r@ == courses_of(self@.courses, tutor_id),
    {
        let mut out: Vec<Course> = Vec::new();
        let mut i: usize = 0;
        while i < self.courses.len()
            invariant
                i <= self.courses@.len(),
                out@ == courses_of(self.courses@.subrange(0, i as int), tutor_id),
            decreases self.courses@.len() - i,
        {
            let ghost prefix = self.courses@.subrange(0, i as int + 1);
            assert(prefix.drop_last() =~= self.courses@.subrange(0, i as int));
            assert(prefix.last() == self.courses@[i as int]);
            if self.courses[i].tutor_id == tutor_id {
                out.push(self.courses[i].duplicate());
            }
            i += 1;
        }
        assert(self.courses@.subrange(0, i as int) =~= self.courses@);
        out
    }

    /// `INSERT` of a course under the next id of the sequence.
    fn insert_course(&mut self, n: CreateCourse, at: i64) -> (r: Result<Course, StoreError>)
        requires
            old(self)@.wf(),
        ensures
            final(self)@.wf(),
            final(self)@ == old(self)@.post_course(n, at).0,
            match old(self)@.post_course(n, at).1 {
                Ok(c) => r == Ok::<Course, StoreError>(c),
                Err(_) => r is Err,
            },
    {
        if self.find_tutor(n.tutor_id).is_none() {
            return Err(StoreError::Failure(
                "insert on the course relation violates its foreign key to the tutor relation".to_owned(),
            ));
        }
        if self.next_course_id == i32::MAX {
            return Err(StoreError::Failure("course id sequence is exhausted".to_owned()));
        }
        let c = Course {
            course_id: self.next_course_id,
            tutor_id: n.tutor_id,
            course_name: n.course_name,
            course_description: n.course_description,
            course_format: n.course_format,
            course_structure: n.course_structure,
            course_duration: n.course_duration,
            course_price: n.course_price,
            course_language: n.course_language,
            course_level: n.course_level,
            posted_time: Some(at),
        };
        self.courses.push(c.duplicate());
        self.next_course_id = self.next_course_id + 1;
        proof {
            assert(self@.courses =~= old(self)@.courses.push(c));
            assert(self@.tutors == old(self)@.tutors);
            assert(has_tutor(self@.tutors, c.tutor_id));
            assert forall|i: int| 0 <= i < self@.courses.len() implies has_tutor(self@.tutors, #[trigger] self@.courses[i].tutor_id) by {
                if i < old(self)@.courses.len() {
                    assert(self@.courses[i] == old(self)@.courses[i]);
                }
            }
        }
        Ok(c)
    }

    /// `UPDATE` of the course row that has `c`'s composite key, replacing it with `c`.
    fn write_course(&mut self, c: Course) -> (r: Result<Course, StoreError>)
        requires
            old(self)@.wf(),
        ensures
            final(self)@.wf(),
            match course_row(old(self)@.courses, c.tutor_id, c.course_id) {
                Some(_) => r == Ok::<Course, StoreError>(c) && final(self)@ == old(self)@.with_courses(
                    old(self)@.courses.update(course_index(old(self)@.courses, c.tutor_id, c.course_id), c),
                    old(self)@.next_course_id,
                ),
                None => r == Err::<Course, StoreError>(StoreError::RowNotFound) && final(self)@ == old(self)@,
            },
    {
        match self.find_course(c.tutor_id, c.course_id) {
            None => Err(StoreError::RowNotFound),
            Some(i) => {
                proof {
                    assert(self@.courses == self.courses@);
                }
                let ghost before = self@;
                self.courses[i] = c.duplicate();
                proof {
                    assert(self@.courses =~= before.courses.update(i as int, c));
                    assert forall|k: int| 0 <= k < self@.courses.len() implies has_tutor(self@.tutors, #[trigger] self@.courses[k].tutor_id) by {
                        assert(self@.courses[k].tutor_id == before.courses[k].tutor_id);
                    }
                    assert(self@ == before.with_courses(before.courses.update(i as int, c), before.next_course_id));
                }
                Ok(c)
            },
        }
    }

    /// `DELETE` of the course row with the given composite key.
    fn delete_course_row(&mut self, tutor_id: i32, course_id: i32) -> (r: Result<DeleteConfirmation, StoreError>)
        requires
            old(self)@.wf(),
        ensures
            final(self)@.wf(),
            final(self)@ == old(self)@.delete_course(tutor_id, course_id).0,
            match old(self)@.delete_course(tutor_id, course_id).1 {
                Ok(d) => r == Ok::<DeleteConfirmation, StoreError>(d),
                Err(_) => r is Err,
            },
    {
        match self.find_course(tutor_id, course_id) {
            None => Ok(DeleteConfirmation { rows_affected: 0 }),
            Some(i) => {
                let ghost before = self@;
                proof {
                    assert(before.courses == self.courses@);
                }
                self.courses.remove(i);
                proof {
                    let after = before.courses.remove(i as int);
                    assert(self@.courses =~= after);
                    assert forall|a: int, b: int| 0 <= a < b < after.len() implies #[trigger] after[a].course_id
                        < #[trigger] after[b].course_id by {
                        let a0 = if a < i { a } else { a + 1 };
                        let b0 = if b < i { b } else { b + 1 };
                        assert(after[a] == before.courses[a0]);
                        assert(after[b] == before.courses[b0]);
                    }
                    assert forall|a: int| 0 <= a < after.len() implies 0 < #[trigger] after[a].course_id
                        < before.next_course_id by {
                        let a0 = if a < i { a } else { a + 1 };
                        assert(after[a] == before.courses[a0]);
                    }
                    assert forall|a: int| 0 <= a < after.len() implies has_tutor(before.tutors, #[trigger] after[a].tutor_id) by {
                        let a0 = if a < i { a } else { a + 1 };
                        assert(after[a] == before.courses[a0]);
                    }
                }
                Ok(DeleteConfirmation { rows_affected: 1 })
            },
        }
    }
}

/// The courses of a tutor, in store order; an empty list when there are none.
pub fn get_courses_for_tutor_db(store: &CatalogStore, tutor_id: i32) -> (r: Result<Vec<Course>, EzyTutorError>)
    ensures
        rows_kind(r) == store@.list_courses(tutor_id),
{
    Ok(store.fetch_courses_of(tutor_id))
}

/// The course under the composite key; `NotFound` when there is none.
pub fn get_course_details_db(store: &CatalogStore, tutor_id: i32, course_id: i32) -> (r: Result<Course, EzyTutorError>)
    requires
        store@.wf(),
    ensures
        result_kind(r) == store@.get_course(tutor_id, course_id),
{
    lookup_outcome(store.fetch_course(tutor_id, course_id), "Course not found for the given tutor")
}

/// Inserts a course posted at `posted_time` (seconds since the Unix epoch) and
/// returns it with the id the store assigned.
pub fn post_new_course_db(store: &mut CatalogStore, new_course: CreateCourse, posted_time: i64) -> (r: Result<Course, EzyTutorError>)
    requires
        old(store)@.wf(),
    ensures
        final(store)@.wf(),
        final(store)@ == old(store)@.post_course(new_course, posted_time).0,
        result_kind(r) == old(store)@.post_course(new_course, posted_time).1,
{
    write_outcome(store.insert_course(new_course, posted_time))
}

/// Read, merge, write under the composite key; `NotFound` when the course is
/// missing at either step.
pub fn update_course_details_db(
    store: &mut CatalogStore,
    tutor_id: i32,
    course_id: i32,
    update_course: UpdateCourse,
) -> (r: Result<Course, EzyTutorError>)
    requires
        old(store)@.wf(),
    ensures
        final(store)@.wf(),
        final(store)@ == old(store)@.update_course(tutor_id, course_id, update_course).0,
        result_kind(r) == old(store)@.update_course(tutor_id, course_id, update_course).1,
{
    let current = match lookup_outcome(store.fetch_course(tutor_id, course_id), "Course id not found") {
        Ok(c) => c,
        Err(e) => return Err(e),
    };
    let merged = merge_course(current, update_course);
    lookup_outcome(store.write_course(merged), "Course not found")
}

/// Deletes the course under the composite key and reports how many rows went;
/// a missing course is a success with no rows.
pub fn delete_course_db(store: &mut CatalogStore, tutor_id: i32, course_id: i32) -> (r: Result<DeleteConfirmation, EzyTutorError>)
    requires
        old(store)@.wf(),
    ensures
        final(store)@.wf(),
        final(store)@ == old(store)@.delete_course(tutor_id, course_id).0,
        result_kind(r) == old(store)@.delete_course(tutor_id, course_id).1,
{
    write_outcome(store.delete_course_row(tutor_id, course_id))
}

} // verus!
