//! The stamp of a request: its unique id and the time it came in.

use vstd::prelude::*;
use crate::error::Error;
use time::OffsetDateTime;
use uuid::Uuid;

verus! {

#[verifier::external_type_specification]
#[verifier::external_body]
pub struct ExUuid(uuid::Uuid);

#[verifier::external_type_specification]
#[verifier::external_body]
pub struct ExOffsetDateTime(time::OffsetDateTime);

#[derive(Debug, Clone, Copy)]
pub struct ReqStamp {
    pub uuid: Uuid,
    pub time_in: OffsetDateTime,
}

impl ReqStamp {
    /// The stamp kept with the request by the stamp resolver; an error when
    /// the request holds none.
    pub fn from_extension(ext: Option<ReqStamp>) -> (r: Result<ReqStamp, Error>)
        ensures
            match ext {
                Some(stamp) => r == Ok::<ReqStamp, Error>(stamp),
                None => r matches Err(Error::ReqStampNotInReqExt),
            },
    {
        match ext {
            Some(stamp) => Ok(stamp),
            None => Err(Error::ReqStampNotInReqExt),
        }
    }
}

} // verus!
