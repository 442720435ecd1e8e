use ezytutors::dbaccess::{
    delete_course_db, delete_tutor_db, get_course_details_db, get_courses_for_tutor_db, post_new_course_db,
    post_new_tutor_db, update_course_details_db, CatalogStore,
};
use ezytutors::errors::ErrorKind;
use ezytutors::models::{merge_course, Course, CreateCourse, NewTutor, UpdateCourse};
use ezytutors::outcome::{describe, lookup_outcome, tutor_list_outcome, write_outcome, StoreError};

fn create(tutor_id: i32, name: &str) -> CreateCourse {
    CreateCourse {
        tutor_id,
        course_name: name.to_string(),
        course_description: None,
        course_format: None,
        course_structure: None,
        course_duration: None,
        course_price: None,
        course_language: None,
        course_level: None,
    }
}

/// Tutors 1 and 2; tutor 1 owns courses 1, 2 and 3; tutor 2 owns none.
fn seeded() -> CatalogStore {
    let mut store = CatalogStore::new();
    for name in ["Merlene", "Frank"] {
        let t = NewTutor { tutor_name: name.to_string(), tutor_pic_url: "pic".to_string(), tutor_profile: "profile".to_string() };
        post_new_tutor_db(&mut store, t).unwrap();
    }
    for name in ["First course", "Second course", "Third course"] {
        post_new_course_db(&mut store, create(1, name), 1_600_000_000).unwrap();
    }
    store
}

#[test]
fn get_all_courses_success() {
    let store = seeded();
    let resp = get_courses_for_tutor_db(&store, 1);
    assert!(resp.is_ok());
    let ids: Vec<i32> = resp.unwrap().iter().map(|c| c.course_id).collect();
    assert_eq!(ids, vec![1, 2, 3]);
}

#[test]
fn get_course_detail_test() {
    let store = seeded();
    let resp = get_course_details_db(&store, 1, 2);
    assert!(resp.is_ok());
    assert_eq!(resp.unwrap().course_name, "Second course");
}

#[test]
fn get_course_detail_failure_test() {
    let store = seeded();
    let resp = get_course_details_db(&store, 1, 21);
    match resp {
        Ok(_) => println!("Something wrong"),
        Err(err) => assert_eq!(err.status_code(), 404),
    }
    assert!(get_course_details_db(&store, 1, 21).is_err());
}

#[test]
fn post_course_success() {
    let mut store = seeded();
    let new_course_msg = CreateCourse {
        tutor_id: 1,
        course_name: "Third course".into(),
        course_description: Some("This is a course description".into()),
        course_format: None,
        course_structure: None,
        course_duration: None,
        course_price: None,
        course_language: Some("Englih".into()),
        course_level: Some("Beginnger".into()),
    };
    let course = post_new_course_db(&mut store, new_course_msg, 1_700_000_000).unwrap();
    assert_eq!(course.course_id, 4);
    assert_eq!(course.tutor_id, 1);
    assert_eq!(course.course_language, Some("Englih".to_string()));
    assert_eq!(course.posted_time, Some(1_700_000_000));
}

#[test]
fn update_course_success() {
    let mut store = seeded();
    let update_course_msg = UpdateCourse {
        course_name: Some("Course name changed".into()),
        course_description: Some("This is yet another test course".into()),
        course_format: None,
        course_structure: None,
        course_duration: None,
        course_price: None,
        course_language: Some("German".into()),
        course_level: Some("Intermediate".into()),
    };
    let course = update_course_details_db(&mut store, 1, 2, update_course_msg).unwrap();
    assert_eq!(course.course_name, "Course name changed");
    assert_eq!(course.course_language, Some("German".to_string()));
    assert_eq!(course.course_format, None);
    assert_eq!(course.posted_time, Some(1_600_000_000));
}

#[test]
fn delete_test_success() {
    let mut store = seeded();
    let conf = delete_course_db(&mut store, 1, 3).unwrap();
    assert_eq!(conf.rows_affected, 1);
    assert!(get_course_details_db(&store, 1, 3).is_err());
}

#[test]
fn delete_test_failure() {
    let mut store = seeded();
    let resp = delete_course_db(&mut store, 1, 21);
    match resp {
        Ok(conf) => assert_eq!(conf.rows_affected, 0),
        Err(err) => assert_eq!(err.status_code(), 404),
    }
}

#[test]
fn tutor_without_courses_lists_empty() {
    let store = seeded();
    let courses = get_courses_for_tutor_db(&store, 2).unwrap();
    assert!(courses.is_empty());
    let courses = get_courses_for_tutor_db(&store, 99).unwrap();
    assert!(courses.is_empty());
}

#[test]
fn course_for_missing_tutor_is_store_failure() {
    let mut store = seeded();
    let err = post_new_course_db(&mut store, create(77, "Orphan"), 0).unwrap_err();
    assert_eq!(err.kind(), ErrorKind::StoreFailure);
    assert_eq!(err.status_code(), 500);
    assert_eq!(get_courses_for_tutor_db(&store, 77).unwrap().len(), 0);
}

#[test]
fn missing_course_detail_is_not_found() {
    let store = seeded();
    let err = get_course_details_db(&store, 1, 999).unwrap_err();
    assert_eq!(err.kind(), ErrorKind::NotFound);
    assert_eq!(err.status_code(), 404);
}

#[test]
fn course_is_scoped_by_its_tutor() {
    let mut store = seeded();
    assert!(get_course_details_db(&store, 2, 1).is_err());
    let patch = UpdateCourse {
        course_name: Some("x".to_string()),
        course_description: None,
        course_format: None,
        course_structure: None,
        course_duration: None,
        course_price: None,
        course_language: None,
        course_level: None,
    };
    assert_eq!(update_course_details_db(&mut store, 2, 1, patch).unwrap_err().kind(), ErrorKind::NotFound);
    assert_eq!(delete_course_db(&mut store, 2, 1).unwrap().rows_affected, 0);
    assert!(get_course_details_db(&store, 1, 1).is_ok());
}

#[test]
fn tutor_with_courses_cannot_be_deleted() {
    let mut store = seeded();
    let err = delete_tutor_db(&mut store, 1).unwrap_err();
    assert_eq!(err.kind(), ErrorKind::StoreFailure);
    assert_eq!(get_courses_for_tutor_db(&store, 1).unwrap().len(), 3);
    assert_eq!(delete_tutor_db(&mut store, 2).unwrap().rows_affected, 1);
}

#[test]
fn merge_course_keeps_owner_and_time() {
    let cur = Course {
        course_id: 5,
        tutor_id: 2,
        course_name: "n".to_string(),
        course_description: Some("d".to_string()),
        course_format: None,
        course_structure: None,
        course_duration: None,
        course_price: Some(100),
        course_language: None,
        course_level: None,
        posted_time: Some(10),
    };
    let patch = UpdateCourse {
        course_name: None,
        course_description: Some("e".to_string()),
        course_format: Some("video".to_string()),
        course_structure: None,
        course_duration: None,
        course_price: None,
        course_language: None,
        course_level: None,
    };
    let m = merge_course(cur, patch);
    assert_eq!((m.course_id, m.tutor_id, m.posted_time), (5, 2, Some(10)));
    assert_eq!(m.course_name, "n");
    assert_eq!(m.course_description, Some("e".to_string()));
    assert_eq!(m.course_format, Some("video".to_string()));
    assert_eq!(m.course_price, Some(100));
}

#[test]
fn store_outcomes_are_classified() {
    let missing: Result<i32, StoreError> = Err(StoreError::RowNotFound);
    assert_eq!(lookup_outcome(missing.clone(), "gone").unwrap_err().message(), "gone");
    assert_eq!(write_outcome(missing).unwrap_err().kind(), ErrorKind::StoreFailure);
    let broken: Result<i32, StoreError> = Err(StoreError::Failure("connection reset".to_string()));
    assert_eq!(lookup_outcome(broken.clone(), "gone").unwrap_err().kind(), ErrorKind::NotFound);
    assert_eq!(write_outcome(broken).unwrap_err().message(), "connection reset");
    assert_eq!(write_outcome::<i32>(Ok(3)).unwrap(), 3);
    let empty: Vec<i32> = Vec::new();
    assert_eq!(tutor_list_outcome(Ok(empty)).unwrap_err().kind(), ErrorKind::NotFound);
    assert_eq!(tutor_list_outcome(Ok(vec![1, 2])).unwrap(), vec![1, 2]);
    let failed: Result<Vec<i32>, StoreError> = Err(StoreError::Failure("timeout".to_string()));
    assert_eq!(tutor_list_outcome(failed).unwrap_err().kind(), ErrorKind::StoreFailure);
    assert_eq!(
        describe(&StoreError::RowNotFound),
        "no rows returned by a query that expected to return at least one row"
    );
}

#[test]
fn same_course_patch_twice_equals_once() {
    let mut once = seeded();
    let mut twice = seeded();
    let patch = UpdateCourse {
        course_name: None,
        course_description: None,
        course_format: None,
        course_structure: Some("modules".to_string()),
        course_duration: Some("4 weeks".to_string()),
        course_price: Some(250),
        course_language: None,
        course_level: None,
    };
    let r1 = update_course_details_db(&mut once, 1, 1, patch.clone()).unwrap();
    update_course_details_db(&mut twice, 1, 1, patch.clone()).unwrap();
    let r2 = update_course_details_db(&mut twice, 1, 1, patch).unwrap();
    assert_eq!(r1, r2);
    assert_eq!(r1.course_name, "First course");
    assert_eq!(r1.course_price, Some(250));
    assert_eq!(get_courses_for_tutor_db(&once, 1).unwrap(), get_courses_for_tutor_db(&twice, 1).unwrap());
}
