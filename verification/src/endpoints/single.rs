use vstd::prelude::*;

verus! {

/// The statuses with which a route refuses.
#[derive(Clone, Copy, Debug, PartialEq, Eq, Structural)]
pub enum RouteError {
    Unauthorized,
    NotFound,
    InternalServerError,
}

impl RouteError {
    /// The number of the status.
    pub open spec fn status(self) -> u16 {
        match self {
            RouteError::Unauthorized => 401,
            RouteError::NotFound => 404,
            RouteError::InternalServerError => 500,
        }
    }

    pub fn code(&self) -> (code: u16)
        ensures
            code == self.status(),
    {
        match self {
            RouteError::Unauthorized => 401,
            RouteError::NotFound => 404,
            RouteError::InternalServerError => 500,
        }
    }
}

/// The answer to the lookup of a single item: the item where there is one,
/// "not found" where the upstream knows none, and a server error where the
/// lookup failed.
pub fn process_single_result<T, E>(result: Result<Option<T>, E>) -> (answer: Result<T, RouteError>)
    ensures
        answer == match result {
            Ok(Some(item)) => Ok::<T, RouteError>(item),
            Ok(None) => Err(RouteError::NotFound),
            Err(_) => Err(RouteError::InternalServerError),
        },
{
    match result {
        Err(_) => Err(RouteError::InternalServerError),
        Ok(Some(item)) => Ok(item),
        Ok(None) => Err(RouteError::NotFound),
    }
}

} // verus!
