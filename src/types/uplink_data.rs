//! Payload of the Uplink Data message, carried as opaque bytes.
use vstd::prelude::*;

verus! {

/// The 432-byte uplink payload: an 8-byte UAT-specific header followed by 424 bytes of
/// application data.
#[derive(Debug, Clone, Copy, PartialEq, Eq)]
pub struct UplinkPayload {
    pub uat_specific_header: [u8; 8],
    pub payload: [u8; 424],
}

impl UplinkPayload {
    /// The payload held in the first 432 bytes of `data`.
    pub fn from_slice(data: &[u8]) -> (r: UplinkPayload)
        requires
            data@.len() >= 432,
        ensures
            r.uat_specific_header@ == data@.subrange(0, 8),
            r.payload@ == data@.subrange(8, 432),
    {
        let mut header: [u8; 8] = [0u8; 8];
        let mut i: usize = 0;
        while i < 8
            invariant
                i <= 8,
                data@.len() >= 432,
                forall|j: int| 0 <= j < i ==> header@[j] == data@[j],
            decreases 8 - i,
        {
            header[i] = data[i];
            i = i + 1;
        }
        let mut payload: [u8; 424] = [0u8; 424];
        let mut k: usize = 0;
        while k < 424
            invariant
                k <= 424,
                data@.len() >= 432,
                forall|j: int| 0 <= j < k ==> payload@[j] == data@[j + 8],
            decreases 424 - k,
        {
            payload[k] = data[k + 8];
            k = k + 1;
        }
        assert(header@ =~= data@.subrange(0, 8));
        assert(payload@ =~= data@.subrange(8, 432));
        UplinkPayload { uat_specific_header: header, payload }
    }
}

} // verus!
