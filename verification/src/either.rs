//! A value of one of two types; a response from either side converts by
//! delegation.

use vstd::prelude::*;

verus! {

use crate::response::{IntoResponse, Response};

/// One of two alternatives.
#[derive(Debug)]
pub enum Either<L, R> {
    Left(L),
    Right(R),
}

impl<L: IntoResponse, R: IntoResponse> IntoResponse for Either<L, R> {
    open spec fn response_outcome(&self, resp: &Response) -> bool {
        match self {
            Either::Left(left) => left.response_outcome(resp),
            Either::Right(right) => right.response_outcome(resp),
        }
    }

    fn into_response(self) -> (r: Response) {
        match self {
            Either::Left(left) => left.into_response(),
            Either::Right(right) => right.into_response(),
        }
    }
}

} // verus!
