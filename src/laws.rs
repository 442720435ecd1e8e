//! Properties that relate several operations of the data-access layer,
//! stated over the store model that the operations' contracts use.
use vstd::prelude::*;
use crate::dbaccess::{CatalogModel, course_index, course_row, courses_of, lemma_course_at, lemma_tutor_at, has_course, has_tutor, owns_courses, tutor_index, tutor_row};
use crate::errors::ErrorKind;
use crate::models::{Course, CreateCourse, DeleteConfirmation, NewTutor, Tutor, UpdateCourse, UpdateTutor, course_patched};

verus! {

/// Looking up a tutor id that the store does not hold yields `NotFound`.
pub proof fn law_missing_tutor_not_found(m: CatalogModel, tutor_id: i32)
    requires
        m.wf(),
        !has_tutor(m.tutors, tutor_id),
    ensures
        m.get_tutor(tutor_id) == Err::<Tutor, ErrorKind>(ErrorKind::NotFound),
{
}

/// A tutor that was created is found afterwards under its id, equal in every field.
pub proof fn law_created_tutor_found(m: CatalogModel, n: NewTutor)
    requires
        m.wf(),
    ensures
        m.post_tutor(n).1 matches Ok(t) ==> m.post_tutor(n).0.get_tutor(t.tutor_id) == Ok::<Tutor, ErrorKind>(t),
{
    if m.next_tutor_id != i32::MAX {
        let t = m.post_tutor(n).1->Ok_0;
        let rows = m.post_tutor(n).0.tutors;
        assert(rows == m.tutors.push(t));
        assert forall|a: int, b: int| 0 <= a < b < rows.len() implies #[trigger] rows[a].tutor_id
            < #[trigger] rows[b].tutor_id by {
            if b < m.tutors.len() {
                assert(m.tutors[a].tutor_id < m.tutors[b].tutor_id);
            } else {
                assert(m.tutors[a].tutor_id < m.next_tutor_id);
            }
        }
        lemma_tutor_at(rows, t.tutor_id, rows.len() - 1);
    }
}

/// After an update, each field that the patch holds has the patch's value and
/// each field that it lacks keeps its value from before; the store then
/// returns the merged tutor under the same id.
pub proof fn law_update_merges(m: CatalogModel, tutor_id: i32, p: UpdateTutor)
    requires
        m.wf(),
        has_tutor(m.tutors, tutor_id),
    ensures
        ({
            let before = tutor_row(m.tutors, tutor_id)->Some_0;
            let (after, r) = m.update_tutor(tutor_id, p);
            &&& r matches Ok(t)
            &&& after.get_tutor(tutor_id) == r
            &&& t.tutor_id == tutor_id
            &&& p.tutor_name matches Some(v) ==> t.tutor_name == v
            &&& p.tutor_name is None ==> t.tutor_name == before.tutor_name
            &&& p.tutor_pic_url matches Some(v) ==> t.tutor_pic_url == v
            &&& p.tutor_pic_url is None ==> t.tutor_pic_url == before.tutor_pic_url
            &&& p.tutor_profile matches Some(v) ==> t.tutor_profile == v
            &&& p.tutor_profile is None ==> t.tutor_profile == before.tutor_profile
        }),
{
    let i = tutor_index(m.tutors, tutor_id);
    let t = m.update_tutor(tutor_id, p).1->Ok_0;
    let rows = m.update_tutor(tutor_id, p).0.tutors;
    assert(m.tutors[i].tutor_id == tutor_id);
    assert(rows == m.tutors.update(i, t));
    assert forall|a: int, b: int| 0 <= a < b < rows.len() implies #[trigger] rows[a].tutor_id
        < #[trigger] rows[b].tutor_id by {
        assert(rows[a].tutor_id == m.tutors[a].tutor_id);
        assert(rows[b].tutor_id == m.tutors[b].tutor_id);
    }
    lemma_tutor_at(rows, tutor_id, i);
}

/// Applying the same patch twice leaves the store as applying it once, and
/// both applications return the same result.
pub proof fn law_update_idempotent(m: CatalogModel, tutor_id: i32, p: UpdateTutor)
    requires
        m.wf(),
    ensures
        m.update_tutor(tutor_id, p).0.update_tutor(tutor_id, p) == m.update_tutor(tutor_id, p),
{
    if has_tutor(m.tutors, tutor_id) {
        let once = m.update_tutor(tutor_id, p).0;
        let i = tutor_index(m.tutors, tutor_id);
        law_update_merges(m, tutor_id, p);
        let t = m.update_tutor(tutor_id, p).1->Ok_0;
        assert(once.tutors[i] == t);
        assert forall|a: int, b: int| 0 <= a < b < once.tutors.len() implies #[trigger] once.tutors[a].tutor_id
            < #[trigger] once.tutors[b].tutor_id by {
            assert(once.tutors[a].tutor_id == m.tutors[a].tutor_id);
            assert(once.tutors[b].tutor_id == m.tutors[b].tutor_id);
        }
        lemma_tutor_at(once.tutors, tutor_id, i);
        assert(once.tutors.update(i, t) =~= once.tutors);
    }
}

/// A course update under an existing composite key returns the merged course,
/// which the store then holds under the same key; owner, id and posting time
/// are kept.
pub proof fn law_course_update_merges(m: CatalogModel, tutor_id: i32, course_id: i32, p: UpdateCourse)
    requires
        m.wf(),
        has_course(m.courses, tutor_id, course_id),
    ensures
        ({
            let before = course_row(m.courses, tutor_id, course_id)->Some_0;
            let (after, r) = m.update_course(tutor_id, course_id, p);
            &&& r == Ok::<Course, ErrorKind>(course_patched(before, p))
            &&& after.get_course(tutor_id, course_id) == r
            &&& r->Ok_0.course_id == course_id
            &&& r->Ok_0.tutor_id == tutor_id
            &&& r->Ok_0.posted_time == before.posted_time
        }),
{
    let i = course_index(m.courses, tutor_id, course_id);
    let c = m.update_course(tutor_id, course_id, p).1->Ok_0;
    let rows = m.update_course(tutor_id, course_id, p).0.courses;
    assert(rows == m.courses.update(i, c));
    assert forall|a: int, b: int| 0 <= a < b < rows.len() implies #[trigger] rows[a].course_id
        < #[trigger] rows[b].course_id by {
        assert(rows[a].course_id == m.courses[a].course_id);
        assert(rows[b].course_id == m.courses[b].course_id);
    }
    lemma_course_at(rows, tutor_id, course_id, i);
}

/// Applying the same course patch twice leaves the store as applying it once.
pub proof fn law_course_update_idempotent(m: CatalogModel, tutor_id: i32, course_id: i32, p: UpdateCourse)
    requires
        m.wf(),
    ensures
        m.update_course(tutor_id, course_id, p).0.update_course(tutor_id, course_id, p) == m.update_course(
            tutor_id,
            course_id,
            p,
        ),
{
    if has_course(m.courses, tutor_id, course_id) {
        let once = m.update_course(tutor_id, course_id, p).0;
        let i = course_index(m.courses, tutor_id, course_id);
        law_course_update_merges(m, tutor_id, course_id, p);
        let c = m.update_course(tutor_id, course_id, p).1->Ok_0;
        assert(once.courses[i] == c);
        assert forall|a: int, b: int| 0 <= a < b < once.courses.len() implies #[trigger] once.courses[a].course_id
            < #[trigger] once.courses[b].course_id by {
            assert(once.courses[a].course_id == m.courses[a].course_id);
            assert(once.courses[b].course_id == m.courses[b].course_id);
        }
        lemma_course_at(once.courses, tutor_id, course_id, i);
        assert(once.courses.update(i, c) =~= once.courses);
    }
}

proof fn lemma_no_courses_of(rows: Seq<Course>, tutor_id: i32)
    requires
        !owns_courses(rows, tutor_id),
    ensures
        courses_of(rows, tutor_id) == Seq::<Course>::empty(),
    decreases rows.len(),
{
    if rows.len() > 0 {
        let init = rows.drop_last();
        assert(rows.last() == rows[rows.len() - 1]);
        assert forall|i: int| 0 <= i < init.len() implies (#[trigger] init[i]).tutor_id != tutor_id by {
            assert(init[i] == rows[i]);
        }
        lemma_no_courses_of(init, tutor_id);
    }
}

/// Listing tutors of an empty store yields `NotFound`, while listing the
/// courses of a tutor who has none yields an empty success.
pub proof fn law_empty_listings(m: CatalogModel, tutor_id: i32)
    requires
        m.wf(),
    ensures
        m.tutors.len() == 0 ==> m.list_tutors() == Err::<Seq<Tutor>, ErrorKind>(ErrorKind::NotFound),
        !owns_courses(m.courses, tutor_id) ==> m.list_courses(tutor_id) == Ok::<Seq<Course>, ErrorKind>(Seq::empty()),
{
    if !owns_courses(m.courses, tutor_id) {
        lemma_no_courses_of(m.courses, tutor_id);
    }
}

/// Deleting a tutor or a course that does not exist succeeds, reports no
/// affected rows, and changes nothing.
pub proof fn law_delete_missing_is_success(m: CatalogModel, tutor_id: i32, course_id: i32)
    requires
        m.wf(),
    ensures
        !has_tutor(m.tutors, tutor_id) ==> m.delete_tutor(tutor_id) == (
            m,
            Ok::<DeleteConfirmation, ErrorKind>(DeleteConfirmation { rows_affected: 0 }),
        ),
        !has_course(m.courses, tutor_id, course_id) ==> m.delete_course(tutor_id, course_id) == (
            m,
            Ok::<DeleteConfirmation, ErrorKind>(DeleteConfirmation { rows_affected: 0 }),
        ),
{
}

/// Creating a course for a tutor that does not exist fails as a store failure
/// and changes nothing.
pub proof fn law_course_needs_tutor(m: CatalogModel, n: CreateCourse, posted_time: i64)
    requires
        m.wf(),
        !has_tutor(m.tutors, n.tutor_id),
    ensures
        m.post_course(n, posted_time) == (m, Err::<Course, ErrorKind>(ErrorKind::StoreFailure)),
{
}

} // verus!
