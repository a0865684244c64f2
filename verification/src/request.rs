//! Execution requests.
//!
//! A request starts with the prefix `ERV1`.  The contract does not look at what follows.

use crate::bytes::bytes_eq_prefix;
use crate::error::ExecError;
use crate::sdk::{bytes_contents, bytes_len};
use soroban_sdk::Bytes;
use vstd::prelude::*;

verus! {

/// `ERV1`
pub const REQ_EXEC_PREFIX: [u8; 4] = [0x45, 0x52, 0x56, 0x31];

/// What reading a request gives.
pub open spec fn request_format_outcome(req: Seq<u8>) -> Result<(), ExecError> {
    if req.len() < 4 {
        Err(ExecError::BadLengths)
    } else if req.subrange(0, 4) != REQ_EXEC_PREFIX@ {
        Err(ExecError::InvalidRequestPrefix)
    } else {
        Ok(())
    }
}

/// Checks the start of a request.
pub fn parse_request_min(req: &Bytes) -> (r: Result<(), ExecError>)
    ensures
        r == request_format_outcome(bytes_contents(*req)),
{
    if bytes_len(req) < 4 {
        return Err(ExecError::BadLengths);
    }
    if !bytes_eq_prefix(req, 0, &REQ_EXEC_PREFIX) {
        return Err(ExecError::InvalidRequestPrefix);
    }
    Ok(())
}

/// What the first bytes of a request say.
pub(crate) proof fn lemma_request_bytes(m: Seq<u8>)
    ensures
        request_format_outcome(m) is Ok <==> m.len() >= 4 && m[0] == 0x45 && m[1] == 0x52 && m[2]
            == 0x56 && m[3] == 0x31,
        request_format_outcome(m) is Err ==> request_format_outcome(m)->Err_0 == (if m.len() < 4 {
            ExecError::BadLengths
        } else {
            ExecError::InvalidRequestPrefix
        }),
{
    if m.len() >= 4 {
        let head = m.subrange(0, 4);
        assert(head[0] == m[0] && head[1] == m[1] && head[2] == m[2] && head[3] == m[3]);
        if m[0] == 0x45 && m[1] == 0x52 && m[2] == 0x56 && m[3] == 0x31 {
            assert(head =~= REQ_EXEC_PREFIX@);
        }
    }
}

/// A request is well formed if and only if it starts with `ERV1`; a shorter one is refused for its
/// length, and another start for that.
pub proof fn law_request_is_well_formed_iff(req: &Bytes, r: Result<(), ExecError>)
    requires
        call_ensures(parse_request_min, (req,), r),
    ensures
        ({
            let m = bytes_contents(*req);
            &&& r is Ok <==> m.len() >= 4 && m[0] == 0x45 && m[1] == 0x52 && m[2] == 0x56 && m[3]
                == 0x31
            &&& r is Err ==> r->Err_0 == (if m.len() < 4 {
                ExecError::BadLengths
            } else {
                ExecError::InvalidRequestPrefix
            })
        }),
{
    lemma_request_bytes(bytes_contents(*req));
}

/// Whatever follows the prefix, the request is well formed.
pub proof fn law_request_payload_is_ignored(payload: Seq<u8>)
    ensures
        request_format_outcome(REQ_EXEC_PREFIX@ + payload) == Ok::<(), ExecError>(()),
{
    assert((REQ_EXEC_PREFIX@ + payload).subrange(0, 4) =~= REQ_EXEC_PREFIX@);
}

} // verus!
