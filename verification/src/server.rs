//! The protocol gateway's decisions: decoding one request per connection,
//! choosing which recipients are owed a streamed response, and shaping each
//! response as it resolves.
//!
//! The transport work - accepting connections, reading the request bytes,
//! writing each response, closing the stream - happens outside the library;
//! every choice about what the bytes mean and what is written back is made
//! here.

use vstd::prelude::*;
use crate::json::json_of;
use crate::request::{spec_build, build_err_model};
use crate::response::spec_encode_response;
use crate::types::{BauBotError, BauMessage, BauResponse, BauServerResponse, ResponseModel,
    SerializeErrorModel};

verus! {

broadcast use vstd::std_specs::vec::group_vec_axioms;

/// Decodes the one request a connection carries.  A request that parses and
/// builds is handed on for dispatch; anything else is rejected with the
/// single encoded `InvalidData` response the connection must be answered
/// with before closing - no dispatch happens for it.
pub fn decode_request(request: &str) -> (r: Result<BauMessage, String>)
    ensures
        match json_of(request@) {
            None => r matches Err(reply) && (exists|t: Seq<char>|
                reply@ == spec_encode_response(
                    ResponseModel::InvalidData(SerializeErrorModel::Json(t)),
                )),
            Some(j) => match spec_build(j) {
                Ok(mm) => r matches Ok(m) && m.model() == mm,
                Err(e) => r matches Err(reply) && reply@ == spec_encode_response(
                    ResponseModel::InvalidData(build_err_model(e)),
                ),
            },
        },
{
    match BauMessage::builder(request) {
        Ok(m) => Ok(m),
        Err(e) => {
            let ghost em = e.model();
            let reply = BauServerResponse::InvalidData(e);
            proof {
                assert(reply.model() == ResponseModel::InvalidData(em));
            }
            Err(reply.encode())
        },
    }
}

/// The recipients a connection is owed one response each for: those flagged
/// as awaiting a reply, when the prompt grid is non-empty; nobody otherwise.
pub open spec fn spec_awaiting(rs: Seq<(Seq<char>, bool)>) -> Seq<Seq<char>>
    decreases rs,
{
    if rs.len() == 0 {
        Seq::empty()
    } else if rs.last().1 {
        spec_awaiting(rs.drop_last()).push(rs.last().0)
    } else {
        spec_awaiting(rs.drop_last())
    }
}

impl BauMessage {
    /// The recipients this request owes a streamed response: each recipient
    /// flagged as awaiting a reply, in order, when the prompt grid is
    /// non-empty.  With no prompt, delivery alone is owed and the stream is
    /// empty.
    #[verifier::loop_isolation(false)]
    pub fn awaiting_recipients(&self) -> (r: Vec<String>)
        ensures
            self.responses.keyboard@.len() == 0 ==> r.deep_view() == Seq::<Seq<char>>::empty(),
            self.responses.keyboard@.len() > 0 ==> r.deep_view() == spec_awaiting(
                self.model().recipients,
            ),
    {
        let mut out: Vec<String> = Vec::new();
        if self.responses.keyboard.len() == 0 {
            proof {
                assert(out.deep_view() =~= Seq::<Seq<char>>::empty());
            }
            return out;
        }
        let ghost rs = self.model().recipients;
        proof {
            assert(rs.subrange(0, 0) =~= Seq::<(Seq<char>, bool)>::empty());
            assert(out.deep_view() =~= spec_awaiting(rs.subrange(0, 0)));
        }
        let n = self.recipients.len();
        for i in 0..n
            invariant
                out.deep_view() == spec_awaiting(rs.subrange(0, i as int)),
        {
            if self.recipients[i].1 {
                out.push(self.recipients[i].0.clone());
            }
            proof {
                assert(rs.subrange(0, i + 1).drop_last() =~= rs.subrange(0, i as int));
                assert(rs.subrange(0, i + 1).last() == rs[i as int]);
                assert(out.deep_view() =~= spec_awaiting(rs.subrange(0, i + 1)));
            }
        }
        proof {
            assert(rs.subrange(0, rs.len() as int) =~= rs);
        }
        out
    }
}

/// Shapes the response streamed back for one recipient.  `received` is what
/// came out of the recipient's reply slot: the outcome, or nothing when the
/// slot was abandoned without one - reported as a timeout, the only way a
/// slot dies unresolved.
pub fn recipient_response(recipient: String, received: Option<BauResponse>) -> (r:
    BauServerResponse)
    ensures
        r.model() == (ResponseModel::Recipient {
            recipient: recipient@,
            response: match received {
                Some(Ok(s)) => Ok(s@),
                Some(Err(e)) => Err(e),
                None => Err(BauBotError::Timeout),
            },
        }),
{
    match received {
        Some(response) => BauServerResponse::Recipient { recipient, response },
        None => BauServerResponse::Recipient {
            recipient,
            response: Err(BauBotError::Timeout),
        },
    }
}

} // verus!
