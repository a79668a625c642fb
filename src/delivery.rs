use vstd::prelude::*;

verus! {

/// Why a webhook delivery failed.
#[derive(Debug)]
pub enum DeliveryError {
    /// The endpoint answered with a status other than 200.
    BadStatus(u16),
    /// No answer came: the connection, TLS or name lookup failed, or time ran out.
    Transport(String),
}

/// Judges the status code of a webhook answer: exactly 200 is success, any
/// other code (other 2xx included) is a failure that carries the code.
pub fn check_status(status: u16) -> (r: Result<(), DeliveryError>)
    ensures
        r is Ok <==> status == 200,
        r is Err ==> r->Err_0 == DeliveryError::BadStatus(status),
{
    if status == 200 {
        Ok(())
    } else {
        Err(DeliveryError::BadStatus(status))
    }
}

} // verus!
