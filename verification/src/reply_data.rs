//! Sub-message replies and the contract address that an instantiation reply
//! carries.
use vstd::prelude::*;
use cosmwasm_std::{Binary, Reply, SubMsgResponse, SubMsgResult};
use cw_utils::ParseReplyError;

verus! {

/// A reply to a sub-message: its id, and the response data on success or the
/// error text on failure.
#[derive(Debug, PartialEq, Eq)]
pub struct SubMsgReply {
    pub id: u64,
    pub result: Result<Option<Vec<u8>>, String>,
}

/// Why an instantiation reply could not be read.
#[derive(Clone, Debug, PartialEq, Eq)]
pub enum ReplyParseError {
    /// The sub-message failed, with its error text.
    SubMsgFailure(String),
    /// The response data was missing or malformed.
    ParseFailure(String),
    /// The contract address was not UTF-8; the offending bytes.
    BrokenUtf8(Vec<u8>),
}

/// The contract address that `cw_utils` decodes from the protobuf
/// `MsgInstantiateContractResponse` data of a successful reply.
pub uninterp spec fn instantiate_response_address(data: Seq<u8>) -> Result<String, ReplyParseError>;

/// `cw_utils::parse_reply_instantiate_data`: a failed sub-message yields its
/// error text, a success without data is a parse failure ("Missing reply
/// data"), and otherwise the data is decoded as an instantiation response,
/// whose contract address is returned.
#[verifier::external_body]
pub(crate) fn parse_reply_instantiate_data(reply: SubMsgReply) -> (r: Result<String, ReplyParseError>)
    ensures
        reply.result is Err ==> r is Err && r->Err_0 == ReplyParseError::SubMsgFailure(
            reply.result->Err_0,
        ),
        reply.result matches Ok(None) ==> r is Err && r->Err_0 is ParseFailure
            && r->Err_0->ParseFailure_0@ == "Missing reply data"@,
        reply.result matches Ok(Some(d)) ==> r == instantiate_response_address(d@),
{
    let result = match reply.result {
        Ok(data) => SubMsgResult::Ok(SubMsgResponse { events: vec![], data: data.map(Binary) }),
        Err(m) => SubMsgResult::Err(m),
    };
    match cw_utils::parse_reply_instantiate_data(Reply { id: reply.id, result }) {
        Ok(response) => Ok(response.contract_address),
        Err(ParseReplyError::SubMsgFailure(m)) => Err(ReplyParseError::SubMsgFailure(m)),
        Err(ParseReplyError::ParseFailure(m)) => Err(ReplyParseError::ParseFailure(m)),
        Err(ParseReplyError::BrokenUtf8(e)) => Err(ReplyParseError::BrokenUtf8(e.into_bytes())),
    }
}

} // verus!
