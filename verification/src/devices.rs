//! Decoding of the native device list.

use vstd::prelude::*;

use crate::error::PvRecorderError;
use crate::error::PvRecorderErrorStatus;

verus! {

/// Turns the copied native device names into an owned list, all or
/// nothing: one undecodable name (`None`) discards the whole list and
/// reports a decoding failure. On success the list keeps the native
/// count and order.
pub fn decode_device_list(raw: &Vec<Option<String>>) -> (r: Result<Vec<String>, PvRecorderError>)
    ensures
        r is Ok <==> (forall|j: int| 0 <= j < raw@.len() ==> raw@[j] is Some),
        r is Ok ==> {
            &&& (r->Ok_0)@.len() == raw@.len()
            &&& forall|j: int| 0 <= j < raw@.len() ==> (r->Ok_0)@[j]@ == raw@[j]->0@
        },
        r is Err ==> {
            &&& (r->Err_0).spec_status() is StringEncodingError
            &&& (r->Err_0).spec_message() == "Failed to convert device strings"@
        },
{
    let mut device_list: Vec<String> = Vec::new();
    let mut i: usize = 0;
    while i < raw.len()
        invariant
            i <= raw@.len(),
            device_list@.len() == i,
            forall|j: int| 0 <= j < i ==> raw@[j] is Some,
            forall|j: int| 0 <= j < i ==> device_list@[j]@ == raw@[j]->0@,
        decreases raw@.len() - i,
    {
        match &raw[i] {
            Some(name) => {
                device_list.push(name.clone());
            },
            None => {
                return Err(
                    PvRecorderError::new(
                        PvRecorderErrorStatus::StringEncodingError,
                        "Failed to convert device strings",
                    ),
                );
            },
        }
        i += 1;
    }
    Ok(device_list)
}

} // verus!
