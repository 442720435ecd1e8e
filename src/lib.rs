//! Tutors and the courses they teach: the entity model, partial-update
//! (patch) semantics, the error taxonomy with its status codes, the
//! classification of store outcomes, and an in-memory relational store on
//! which every data-access operation is specified and verified.
pub mod errors;
pub mod models;
pub mod outcome;
pub mod dbaccess;
pub mod laws;
