use vstd::prelude::*;

verus! {

/// Outcome codes of the native consensus engine. The numeric value of each
/// variant is fixed by the engine's interface: see [`Error::code`].
#[allow(non_camel_case_types)]
#[derive(Debug, Clone, Copy, PartialEq, Eq, Structural)]
pub enum Error {
    /// No error.
    ERR_OK,
    /// The input index is out of range for the spending transaction.
    ERR_TX_INDEX,
    /// The stated transaction length does not match its serialization.
    ERR_TX_SIZE_MISMATCH,
    /// The spending transaction could not be deserialized.
    ERR_TX_DESERIALIZE,
    /// Witness validation needs the spent amount.
    ERR_AMOUNT_REQUIRED,
}

/// The engine's numeric code for each outcome.
pub open spec fn code_of(e: Error) -> i32 {
    match e {
        Error::ERR_OK => 0,
        Error::ERR_TX_INDEX => 1,
        Error::ERR_TX_SIZE_MISMATCH => 2,
        Error::ERR_TX_DESERIALIZE => 3,
        Error::ERR_AMOUNT_REQUIRED => 4,
    }
}

/// The outcome that the engine reports with `code`, if any.
pub open spec fn error_of_code(code: i32) -> Option<Error> {
    if code == 0 {
        Some(Error::ERR_OK)
    } else if code == 1 {
        Some(Error::ERR_TX_INDEX)
    } else if code == 2 {
        Some(Error::ERR_TX_SIZE_MISMATCH)
    } else if code == 3 {
        Some(Error::ERR_TX_DESERIALIZE)
    } else if code == 4 {
        Some(Error::ERR_AMOUNT_REQUIRED)
    } else {
        None
    }
}

impl Error {
    /// The engine's numeric code for this outcome.
    pub fn code(&self) -> (r: i32)
        ensures
            r == code_of(*self),
            0 <= r <= 4,
    {
        match self {
            Error::ERR_OK => 0,
            Error::ERR_TX_INDEX => 1,
            Error::ERR_TX_SIZE_MISMATCH => 2,
            Error::ERR_TX_DESERIALIZE => 3,
            Error::ERR_AMOUNT_REQUIRED => 4,
        }
    }

    /// The outcome that the engine reports with `code`; `None` for a code
    /// that the engine does not define.
    pub fn from_code(code: i32) -> (r: Option<Error>)
        ensures
            r == error_of_code(code),
            r is Some <==> 0 <= code <= 4,
            r matches Some(e) ==> code_of(e) == code,
    {
        if code == 0 {
            Some(Error::ERR_OK)
        } else if code == 1 {
            Some(Error::ERR_TX_INDEX)
        } else if code == 2 {
            Some(Error::ERR_TX_SIZE_MISMATCH)
        } else if code == 3 {
            Some(Error::ERR_TX_DESERIALIZE)
        } else if code == 4 {
            Some(Error::ERR_AMOUNT_REQUIRED)
        } else {
            None
        }
    }
}

/// Reading back the code of an outcome gives that outcome, and two distinct
/// outcomes never share a code.
pub proof fn lemma_code_round_trip(e: Error, f: Error)
    ensures
        error_of_code(code_of(e)) == Some(e),
        code_of(e) == code_of(f) ==> e == f,
{
}

} // verus!
