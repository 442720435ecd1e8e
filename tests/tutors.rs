use ezytutors::dbaccess::{
    delete_tutor_db, get_all_tutors_db, get_tutor_details_db, post_new_tutor_db, update_tutor_details_db,
    CatalogStore,
};
use ezytutors::errors::{ErrorKind, EzyTutorError};
use ezytutors::models::{merge_tutor, NewTutor, Tutor, UpdateTutor};

fn new_tutor(name: &str, pic: &str, profile: &str) -> NewTutor {
    NewTutor {
        tutor_name: name.to_string(),
        tutor_pic_url: pic.to_string(),
        tutor_profile: profile.to_string(),
    }
}

/// Two tutors, with ids 1 and 2.
fn seeded() -> CatalogStore {
    let mut store = CatalogStore::new();
    post_new_tutor_db(&mut store, new_tutor("Merlene", "http://s3.amazon.aws.com/pic1", "Merlene is an experienced finance professional")).unwrap();
    post_new_tutor_db(&mut store, new_tutor("Frank", "http://s3.amazon.aws.com/pic2", "Frank is an expert nuclear engineer")).unwrap();
    store
}

#[test]
fn get_all_tutors_test() {
    let store = seeded();
    let resp = get_all_tutors_db(&store);
    assert!(resp.is_ok());
    assert_eq!(resp.unwrap().len(), 2);
}

#[test]
fn get_tutor_details_test() {
    let store = seeded();
    let resp = get_tutor_details_db(&store, 1);
    assert!(resp.is_ok());
    assert_eq!(resp.unwrap().tutor_name, "Merlene");
}

#[test]
fn get_tutor_details_failure_test() {
    let store = seeded();
    let resp = get_tutor_details_db(&store, 35);
    match resp {
        Ok(_) => println!("Something wrong"),
        Err(err) => assert_eq!(err.status_code(), 404),
    }
    assert!(get_tutor_details_db(&store, 35).is_err());
}

#[test]
fn post_new_tutor_test() {
    let mut store = seeded();
    let resp = post_new_tutor_db(&mut store, new_tutor("Hans Mueller", "www.googlepics/huli.jpg", "AI Specialist"));
    let tutor = resp.unwrap();
    assert_eq!(tutor.tutor_id, 3);
    assert_eq!(tutor.tutor_name, "Hans Mueller");
}

#[test]
fn update_tutor_details_test() {
    let mut store = seeded();
    let update_tutor = UpdateTutor {
        tutor_name: Some("Alex Woods".into()),
        tutor_pic_url: Some("https://mobi/alex.jpg".into()),
        tutor_profile: Some("Moviemaker pro".to_string()),
    };
    let resp = update_tutor_details_db(&mut store, 1, update_tutor).unwrap();
    assert_eq!(resp.tutor_id, 1);
    assert_eq!(resp.tutor_name, "Alex Woods");
    assert_eq!(resp.tutor_pic_url, "https://mobi/alex.jpg");
    assert_eq!(resp.tutor_profile, "Moviemaker pro");
}

#[test]
fn delete_tutor_test() {
    let mut store = seeded();
    let resp = delete_tutor_db(&mut store, 2);
    match resp {
        Ok(conf) => assert_eq!(conf.rows_affected, 1),
        Err(err) => assert_eq!(err.status_code(), 404),
    }
    assert!(get_tutor_details_db(&store, 2).is_err());
}

#[test]
fn delete_tutor_test_failure() {
    let mut store = seeded();
    let resp = delete_tutor_db(&mut store, 22);
    match resp {
        Ok(conf) => assert_eq!(conf.rows_affected, 0),
        Err(err) => assert_eq!(err.status_code(), 404),
    }
}

#[test]
fn missing_tutor_is_not_found() {
    let store = seeded();
    for id in [0, 3, -1, i32::MAX] {
        let err = get_tutor_details_db(&store, id).unwrap_err();
        assert_eq!(err.kind(), ErrorKind::NotFound);
        assert_eq!(err.message(), "Tutor id not found");
    }
}

#[test]
fn created_tutor_reads_back_equal() {
    let mut store = seeded();
    let created = post_new_tutor_db(&mut store, new_tutor("Ada", "pic", "maths")).unwrap();
    let read = get_tutor_details_db(&store, created.tutor_id).unwrap();
    assert_eq!(read, created);
    assert_eq!(read, Tutor { tutor_id: 3, tutor_name: "Ada".to_string(), tutor_pic_url: "pic".to_string(), tutor_profile: "maths".to_string() });
}

#[test]
fn duplicate_names_are_allowed() {
    let mut store = CatalogStore::new();
    let a = post_new_tutor_db(&mut store, new_tutor("Same", "p", "q")).unwrap();
    let b = post_new_tutor_db(&mut store, new_tutor("Same", "p", "q")).unwrap();
    assert_eq!(a.tutor_id, 1);
    assert_eq!(b.tutor_id, 2);
}

#[test]
fn partial_update_keeps_absent_fields() {
    let mut store = seeded();
    let patch = UpdateTutor { tutor_name: None, tutor_pic_url: Some(String::new()), tutor_profile: None };
    let t = update_tutor_details_db(&mut store, 2, patch).unwrap();
    assert_eq!(t.tutor_name, "Frank");
    assert_eq!(t.tutor_pic_url, "");
    assert_eq!(t.tutor_profile, "Frank is an expert nuclear engineer");
    assert_eq!(get_tutor_details_db(&store, 2).unwrap(), t);
}

#[test]
fn update_missing_tutor_is_not_found() {
    let mut store = seeded();
    let patch = UpdateTutor { tutor_name: Some("X".to_string()), tutor_pic_url: None, tutor_profile: None };
    let err = update_tutor_details_db(&mut store, 9, patch).unwrap_err();
    assert_eq!(err.kind(), ErrorKind::NotFound);
    assert_eq!(err.status_code(), 404);
}

#[test]
fn same_patch_twice_equals_once() {
    let mut once = seeded();
    let mut twice = seeded();
    let patch = UpdateTutor { tutor_name: Some("B".to_string()), tutor_pic_url: None, tutor_profile: Some("new".to_string()) };
    let r1 = update_tutor_details_db(&mut once, 1, patch.clone()).unwrap();
    update_tutor_details_db(&mut twice, 1, patch.clone()).unwrap();
    let r2 = update_tutor_details_db(&mut twice, 1, patch).unwrap();
    assert_eq!(r1, r2);
    assert_eq!(get_all_tutors_db(&once).unwrap(), get_all_tutors_db(&twice).unwrap());
}

#[test]
fn empty_store_lists_no_tutors_as_not_found() {
    let store = CatalogStore::new();
    let err = get_all_tutors_db(&store).unwrap_err();
    assert_eq!(err.kind(), ErrorKind::NotFound);
    assert_eq!(err.message(), "No tutors found");
}

#[test]
fn delete_missing_tutor_reports_zero_rows() {
    let mut store = seeded();
    let conf = delete_tutor_db(&mut store, 40).unwrap();
    assert_eq!(conf.rows_affected, 0);
    assert_eq!(get_all_tutors_db(&store).unwrap().len(), 2);
}

#[test]
fn create_then_patch_name_scenario() {
    let mut store = CatalogStore::new();
    let t = post_new_tutor_db(&mut store, new_tutor("A", "u", "p")).unwrap();
    assert_eq!(t.tutor_name, "A");
    assert_eq!(t.tutor_pic_url, "u");
    assert_eq!(t.tutor_profile, "p");
    let patch = UpdateTutor { tutor_name: Some("B".to_string()), tutor_pic_url: None, tutor_profile: None };
    let u = update_tutor_details_db(&mut store, t.tutor_id, patch).unwrap();
    assert_eq!(u.tutor_id, t.tutor_id);
    assert_eq!(u.tutor_name, "B");
    assert_eq!(u.tutor_pic_url, "u");
    assert_eq!(u.tutor_profile, "p");
}

#[test]
fn merge_tutor_replaces_present_fields() {
    let cur = Tutor { tutor_id: 7, tutor_name: "n".to_string(), tutor_pic_url: "u".to_string(), tutor_profile: "p".to_string() };
    let patch = UpdateTutor { tutor_name: Some("m".to_string()), tutor_pic_url: None, tutor_profile: Some("q".to_string()) };
    let merged = merge_tutor(cur, patch);
    assert_eq!(merged, Tutor { tutor_id: 7, tutor_name: "m".to_string(), tutor_pic_url: "u".to_string(), tutor_profile: "q".to_string() });
}

#[test]
fn status_codes_of_each_kind() {
    assert_eq!(EzyTutorError::NotFound("a".to_string()).status_code(), 404);
    assert_eq!(EzyTutorError::InvalidInput("please provide valid JSON input".to_string()).status_code(), 400);
    assert_eq!(EzyTutorError::StoreFailure("c".to_string()).status_code(), 500);
    assert_eq!(EzyTutorError::InvalidInput("bad".to_string()).message(), "bad");
    assert_eq!(EzyTutorError::InvalidInput("bad".to_string()).kind(), ErrorKind::InvalidInput);
}
