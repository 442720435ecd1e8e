//! How raw store outcomes become domain results. Every store failure is
//! classified here; none reaches the transport layer unclassified.
use vstd::prelude::*;
use crate::errors::EzyTutorError;

verus! {

/// What a store statement can report besides success.
#[derive(Clone, Debug, PartialEq, Eq)]
pub enum StoreError {
    /// A statement that must yield one row yielded none.
    RowNotFound,
    /// Any other failure: connection loss, constraint violation, timeout.
    Failure(String),
}

/// The text that describes a store failure: its own message, if it has one.
pub open spec fn describe_spec(e: StoreError) -> Seq<char> {
    match e {
        StoreError::RowNotFound => "no rows returned by a query that expected to return at least one row"@,
        StoreError::Failure(m) => m@,
    }
}

pub fn describe(e: &StoreError) -> (r: String)
    ensures
        r@ == describe_spec(*e),
{
    match e {
        StoreError::RowNotFound => "no rows returned by a query that expected to return at least one row".to_owned(),
        StoreError::Failure(m) => m.clone(),
    }
}

/// A read or a keyed write of one row: any failure means the row is not there.
pub fn lookup_outcome<T>(row: Result<T, StoreError>, what: &str) -> (r: Result<T, EzyTutorError>)
    ensures
        match row {
            Ok(v) => r == Ok::<T, EzyTutorError>(v),
            Err(_) => (r matches Err(EzyTutorError::NotFound(m)) && m@ == what@),
        },
{
    match row {
        Ok(v) => Ok(v),
        Err(_) => Err(EzyTutorError::NotFound(what.to_owned())),
    }
}

/// An insert, a delete or a listing: a failure is a store failure.
pub fn write_outcome<T>(res: Result<T, StoreError>) -> (r: Result<T, EzyTutorError>)
    ensures
        match res {
            Ok(v) => r == Ok::<T, EzyTutorError>(v),
            Err(e) => (r matches Err(EzyTutorError::StoreFailure(m)) && m@ == describe_spec(e)),
        },
{
    match res {
        Ok(v) => Ok(v),
        Err(e) => Err(EzyTutorError::StoreFailure(describe(&e))),
    }
}

/// A listing of all tutors: an empty listing is reported as not found.
pub fn tutor_list_outcome<T>(rows: Result<Vec<T>, StoreError>) -> (r: Result<Vec<T>, EzyTutorError>)
    ensures
        match rows {
            Ok(v) => if v@.len() == 0 {
                r matches Err(EzyTutorError::NotFound(_))
            } else {
                r == Ok::<Vec<T>, EzyTutorError>(v)
            },
            Err(e) => (r matches Err(EzyTutorError::StoreFailure(m)) && m@ == describe_spec(e)),
        },
{
    match rows {
        Ok(v) => {
            if v.len() == 0 {
                Err(EzyTutorError::NotFound("No tutors found".to_owned()))
            } else {
                Ok(v)
            }
        },
        Err(e) => Err(EzyTutorError::StoreFailure(describe(&e))),
    }
}

} // verus!
