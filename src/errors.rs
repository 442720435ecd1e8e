use vstd::prelude::*;

verus! {

/// The closed set of failure kinds, without their messages.
#[derive(Clone, Copy, Debug, PartialEq, Eq, Structural)]
pub enum ErrorKind {
    NotFound,
    InvalidInput,
    StoreFailure,
}

/// The transport status code of each kind.
pub open spec fn status_of(k: ErrorKind) -> u16 {
    match k {
        ErrorKind::NotFound => 404,
        ErrorKind::InvalidInput => 400,
        ErrorKind::StoreFailure => 500,
    }
}

/// A failure of a data-access operation, with a human-readable message.
#[derive(Clone, Debug)]
pub enum EzyTutorError {
    NotFound(String),
    InvalidInput(String),
    StoreFailure(String),
}

impl EzyTutorError {
    pub open spec fn kind_of(&self) -> ErrorKind {
        match self {
            EzyTutorError::NotFound(_) => ErrorKind::NotFound,
            EzyTutorError::InvalidInput(_) => ErrorKind::InvalidInput,
            EzyTutorError::StoreFailure(_) => ErrorKind::StoreFailure,
        }
    }

    pub open spec fn message_of(&self) -> String {
        match self {
            EzyTutorError::NotFound(m) => *m,
            EzyTutorError::InvalidInput(m) => *m,
            EzyTutorError::StoreFailure(m) => *m,
        }
    }

    pub fn kind(&self) -> (r: ErrorKind)
        ensures
            r == self.kind_of(),
    {
        match self {
            EzyTutorError::NotFound(_) => ErrorKind::NotFound,
            EzyTutorError::InvalidInput(_) => ErrorKind::InvalidInput,
            EzyTutorError::StoreFailure(_) => ErrorKind::StoreFailure,
        }
    }

    /// The status code under which the transport layer reports this error.
    pub fn status_code(&self) -> (r: u16)
        ensures
            r == status_of(self.kind_of()),
    {
        match self {
            EzyTutorError::NotFound(_) => 404,
            EzyTutorError::InvalidInput(_) => 400,
            EzyTutorError::StoreFailure(_) => 500,
        }
    }

    /// The message carried by the error, as shown to the client.
    pub fn message(&self) -> (r: String)
        ensures
            r == self.message_of(),
    {
        match self {
            EzyTutorError::NotFound(m) => m.clone(),
            EzyTutorError::InvalidInput(m) => m.clone(),
            EzyTutorError::StoreFailure(m) => m.clone(),
        }
    }
}

/// Which kind of failure a result carries, if any.
pub open spec fn result_kind<T>(r: Result<T, EzyTutorError>) -> Result<T, ErrorKind> {
    match r {
        Ok(v) => Ok(v),
        Err(e) => Err(e.kind_of()),
    }
}


/// Which kind of failure a listing carries, or the rows it returned.
pub open spec fn rows_kind<T>(r: Result<Vec<T>, EzyTutorError>) -> Result<Seq<T>, ErrorKind> {
    match r {
        Ok(v) => Ok(v@),
        Err(e) => Err(e.kind_of()),
    }
}

} // verus!
