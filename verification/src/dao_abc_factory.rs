//! Decisions of the factory that instantiates a bonding curve for a DAO:
//! code approvals pinned to on-chain checksums, the authentication of the
//! calling voting module, and the ownership handoff.
use vstd::prelude::*;
use vstd::string::*;
use crate::cosmos::{InstantiateSubMsg, ReplyOn, WasmInstantiate};
use crate::cw_abc::InstantiateMsg as AbcInstantiateMsg;
use crate::reply_data::{
    instantiate_response_address, parse_reply_instantiate_data, ReplyParseError, SubMsgReply,
};

verus! {

/// Errors of the factory's own decisions.
#[allow(inconsistent_fields)]
#[derive(Clone, Debug, PartialEq, Eq)]
pub enum ContractError {
    /// A standard failure (a failed query, an invalid request), with its
    /// message.
    Std(String),
    /// The temporary DAO record is missing when the reply arrives.
    CurrentDaoNotFound,
    /// The instantiation reply could not be read.
    ParseReplyError(ReplyParseError),
    Unauthorized,
    UnapprovedCode { kind: String, code_id: u64 },
    ChecksumMismatch { kind: String, code_id: u64 },
    UnknownReplyId { id: u64 },
}

/// The cw2 identity of the factory.
pub const CONTRACT_NAME: &'static str = "crates.io:dao-abc-factory";

/// The cw2 identity every calling voting module must report.
pub const TOKEN_STAKED_VOTING_MODULE: &'static str = "crates.io:dao-voting-token-staked";

/// Reply id of the bonding curve instantiation.
pub const INSTANTIATE_ABC_REPLY_ID: u64 = 1;

/// Label of the bonding curve instance.
pub const ABC_LABEL: &'static str = "cw_abc";

/// Page size of the DAO list when the caller gives none.
pub const DEFAULT_DAOS_LIMIT: u32 = 25;

/// A code id together with the checksum it was approved under.
#[derive(Clone, Debug, PartialEq, Eq)]
pub struct CodeApproval {
    pub code_id: u64,
    pub checksum: Vec<u8>,
}

/// An approval submitted at instantiation, with the answer of the chain's
/// code-info query for its code id (the checksum, or the query's failure).
#[derive(Debug, PartialEq, Eq)]
pub struct CheckedApproval {
    pub approval: CodeApproval,
    pub on_chain: Result<Vec<u8>, String>,
}

/// What is known about a code id when it is used: the checksum stored when
/// it was approved, if any, and the chain's answer for it.
#[derive(Debug, PartialEq, Eq)]
pub struct ApprovalLookup {
    pub stored: Option<Vec<u8>>,
    pub on_chain: Result<Vec<u8>, String>,
}

/// How a code id fares against its approval.
#[derive(Clone, Debug, PartialEq, Eq)]
pub enum ApprovalVerdict {
    Approved,
    Unapproved,
    QueryFailed(String),
    Mismatch,
}

/// The verdict on an expected checksum given the chain's answer.
pub open spec fn chain_verdict(expected: Seq<u8>, on_chain: Result<Vec<u8>, String>) -> ApprovalVerdict {
    match on_chain {
        Err(m) => ApprovalVerdict::QueryFailed(m),
        Ok(c) => if c@ == expected {
            ApprovalVerdict::Approved
        } else {
            ApprovalVerdict::Mismatch
        },
    }
}

/// The verdict on a code id at use.
pub open spec fn lookup_verdict(lookup: ApprovalLookup) -> ApprovalVerdict {
    match lookup.stored {
        None => ApprovalVerdict::Unapproved,
        Some(e) => chain_verdict(e@, lookup.on_chain),
    }
}

/// `e` is the error a failed verdict gives for the approval list `kind`.
pub open spec fn is_verdict_error(
    kind: Seq<char>,
    code_id: u64,
    verdict: ApprovalVerdict,
    e: ContractError,
) -> bool {
    match verdict {
        ApprovalVerdict::Approved => false,
        ApprovalVerdict::Unapproved => e matches ContractError::UnapprovedCode { kind: k, code_id: c }
            && k@ == kind && c == code_id,
        ApprovalVerdict::QueryFailed(m) => e == ContractError::Std(m),
        ApprovalVerdict::Mismatch => e matches ContractError::ChecksumMismatch { kind: k, code_id: c }
            && k@ == kind && c == code_id,
    }
}

/// Byte-wise equality of two checksums.
fn bytes_equal(a: &Vec<u8>, b: &Vec<u8>) -> (r: bool)
    ensures
        r == (a@ == b@),
{
    if a.len() != b.len() {
        return false;
    }
    let mut i: usize = 0;
    while i < a.len()
        invariant
            a@.len() == b@.len(),
            i <= a@.len(),
            forall|j: int| 0 <= j < i ==> a@[j] == b@[j],
        decreases a.len() - i,
    {
        if a[i] != b[i] {
            return false;
        }
        i = i + 1;
    }
    proof {
        assert(a@ =~= b@);
    }
    true
}

/// An approved checksum must equal the checksum the chain reports for the
/// code id; `kind` names the approval list in the error.
pub fn check_checksum(kind: &str, code_id: u64, expected: &Vec<u8>, on_chain: &Vec<u8>) -> (r:
    Result<(), ContractError>)
    ensures
        r is Ok <==> expected@ == on_chain@,
        r matches Err(e) ==> e matches ContractError::ChecksumMismatch { kind: k, code_id: c } && k@
            == kind@ && c == code_id,
{
    if bytes_equal(expected, on_chain) {
        Ok(())
    } else {
        Err(ContractError::ChecksumMismatch { kind: String::from_str(kind), code_id })
    }
}

/// The chain's answer compared with an expected checksum.
fn check_chain_answer(
    kind: &str,
    code_id: u64,
    expected: &Vec<u8>,
    on_chain: &Result<Vec<u8>, String>,
) -> (r: Result<(), ContractError>)
    ensures
        r is Ok <==> chain_verdict(expected@, *on_chain) == ApprovalVerdict::Approved,
        r matches Err(e) ==> is_verdict_error(kind@, code_id, chain_verdict(expected@, *on_chain), e),
{
    match on_chain {
        Err(m) => Err(ContractError::Std(m.clone())),
        Ok(c) => check_checksum(kind, code_id, expected, c),
    }
}

/// A code id at use must have been approved, and its approved checksum must
/// equal the chain's: `UnapprovedCode` when nothing is stored (whatever the
/// chain says), the query's failure, or `ChecksumMismatch`; `kind` names the
/// approval list in the error.
pub fn require_approved(kind: &str, code_id: u64, lookup: &ApprovalLookup) -> (r: Result<
    (),
    ContractError,
>)
    ensures
        r is Ok <==> lookup_verdict(*lookup) == ApprovalVerdict::Approved,
        r matches Err(e) ==> is_verdict_error(kind@, code_id, lookup_verdict(*lookup), e),
{
    match &lookup.stored {
        None => Err(ContractError::UnapprovedCode { kind: String::from_str(kind), code_id }),
        Some(expected) => check_chain_answer(kind, code_id, expected, &lookup.on_chain),
    }
}

/// The approval at position `i` of a submitted list matches the chain.
pub open spec fn approved_at(list: Seq<CheckedApproval>, i: int) -> bool {
    chain_verdict(list[i].approval.checksum@, list[i].on_chain) == ApprovalVerdict::Approved
}

/// Every approval of the list matches the chain.
pub open spec fn all_approved(list: Seq<CheckedApproval>) -> bool {
    forall|i: int| 0 <= i < list.len() ==> #[trigger] approved_at(list, i)
}

/// `e` is the error of the first approval of the list that does not match
/// the chain.
pub open spec fn first_failure_error(kind: Seq<char>, list: Seq<CheckedApproval>, e: ContractError) -> bool {
    exists|i: int|
        0 <= i < list.len() && (forall|j: int| 0 <= j < i ==> #[trigger] approved_at(list, j))
            && !#[trigger] approved_at(list, i) && is_verdict_error(
            kind,
            list[i].approval.code_id,
            chain_verdict(list[i].approval.checksum@, list[i].on_chain),
            e,
        )
}

/// Law: a submitted approval list matches the chain exactly when the chain
/// answered every approval's code id, and each answer equals that approval's
/// own checksum.
pub proof fn lemma_all_approved_iff_own_checksums(list: Seq<CheckedApproval>)
    ensures
        all_approved(list) <==> (forall|i: int|
            0 <= i < list.len() ==> (#[trigger] list[i].on_chain matches Ok(c) && c@
                == list[i].approval.checksum@)),
{
    if all_approved(list) {
        assert forall|i: int| 0 <= i < list.len() implies (#[trigger] list[i].on_chain matches Ok(c)
            && c@ == list[i].approval.checksum@) by {
            assert(approved_at(list, i));
        }
    }
    if forall|i: int|
        0 <= i < list.len() ==> (#[trigger] list[i].on_chain matches Ok(c) && c@
            == list[i].approval.checksum@) {
        assert forall|i: int| 0 <= i < list.len() implies #[trigger] approved_at(list, i) by {
            assert(list[i].on_chain matches Ok(c) && c@ == list[i].approval.checksum@);
        }
    }
}

/// Law: the error reported for a list is that of an approval whose chain
/// answer differs from its own checksum or failed; a mismatch names that
/// approval's code id and the list's kind.
pub proof fn lemma_first_failure_names_a_failing_approval(
    kind: Seq<char>,
    list: Seq<CheckedApproval>,
    e: ContractError,
)
    requires
        first_failure_error(kind, list, e),
    ensures
        e matches ContractError::ChecksumMismatch { kind: k, code_id: id } ==> k@ == kind
            && exists|i: int|
            0 <= i < list.len() && #[trigger] list[i].approval.code_id == id
                && (list[i].on_chain matches Ok(c) && c@ != list[i].approval.checksum@),
        e matches ContractError::Std(m) ==> exists|i: int|
            0 <= i < list.len() && #[trigger] list[i].on_chain == Err::<Vec<u8>, String>(m),
{
    let i = choose|i: int|
        0 <= i < list.len() && (forall|j: int| 0 <= j < i ==> #[trigger] approved_at(list, j))
            && !#[trigger] approved_at(list, i) && is_verdict_error(
            kind,
            list[i].approval.code_id,
            chain_verdict(list[i].approval.checksum@, list[i].on_chain),
            e,
        );
    assert(list[i].approval.code_id == list[i].approval.code_id);
}

/// Walks a submitted approval list in order and stops at its first failure.
fn check_approvals(kind: &str, list: &Vec<CheckedApproval>) -> (r: Result<(), ContractError>)
    ensures
        r is Ok <==> all_approved(list@),
        r matches Err(e) ==> first_failure_error(kind@, list@, e),
{
    let mut i: usize = 0;
    while i < list.len()
        invariant
            i <= list@.len(),
            forall|j: int| 0 <= j < i ==> #[trigger] approved_at(list@, j),
        decreases list.len() - i,
    {
        let item = &list[i];
        match check_chain_answer(kind, item.approval.code_id, &item.approval.checksum, &item.on_chain) {
            Ok(()) => {},
            Err(e) => {
                proof {
                    assert(!approved_at(list@, i as int));
                }
                return Err(e);
            },
        }
        i = i + 1;
    }
    Ok(())
}

/// Instantiation: both approval lists must be non-empty, and every approval
/// must match the chain's checksum for its code id; the bonding-curve
/// approvals are walked first, then the token-issuer approvals, and the
/// first failure is reported. Success admits every approval of both lists
/// for storage.
pub fn instantiate(approved_abc: &Vec<CheckedApproval>, approved_issuers: &Vec<CheckedApproval>) -> (r:
    Result<(), ContractError>)
    ensures
        approved_abc@.len() == 0 || approved_issuers@.len() == 0 ==> (r matches Err(
            ContractError::Std(m),
        ) && m@ == "approval lists must not be empty"@),
        approved_abc@.len() > 0 && approved_issuers@.len() > 0 ==> {
            &&& r is Ok <==> all_approved(approved_abc@) && all_approved(approved_issuers@)
            &&& !all_approved(approved_abc@) ==> (r matches Err(e) && first_failure_error(
                "abc"@,
                approved_abc@,
                e,
            ))
            &&& all_approved(approved_abc@) && !all_approved(approved_issuers@) ==> (r matches Err(
                e,
            ) && first_failure_error("token issuer"@, approved_issuers@, e))
        },
        r is Ok <==> approved_abc@.len() > 0 && approved_issuers@.len() > 0 && (forall|i: int|
            0 <= i < approved_abc@.len() ==> (#[trigger] approved_abc@[i].on_chain matches Ok(c)
                && c@ == approved_abc@[i].approval.checksum@)) && (forall|i: int|
            0 <= i < approved_issuers@.len() ==> (#[trigger] approved_issuers@[i].on_chain matches Ok(
                c,
            ) && c@ == approved_issuers@[i].approval.checksum@)),
        r matches Err(ContractError::ChecksumMismatch { kind: k, code_id: id }) ==> (k@ == "abc"@
            && exists|i: int|
            0 <= i < approved_abc@.len() && #[trigger] approved_abc@[i].approval.code_id == id
                && (approved_abc@[i].on_chain matches Ok(c) && c@
                != approved_abc@[i].approval.checksum@)) || (k@ == "token issuer"@ && exists|i: int|
            0 <= i < approved_issuers@.len() && #[trigger] approved_issuers@[i].approval.code_id
                == id && (approved_issuers@[i].on_chain matches Ok(c) && c@
                != approved_issuers@[i].approval.checksum@)),
{
    proof {
        lemma_all_approved_iff_own_checksums(approved_abc@);
        lemma_all_approved_iff_own_checksums(approved_issuers@);
    }
    if approved_abc.len() == 0 || approved_issuers.len() == 0 {
        return Err(ContractError::Std(String::from_str("approval lists must not be empty")));
    }
    match check_approvals("abc", approved_abc) {
        Ok(()) => {},
        Err(e) => return Err(e),
    }
    check_approvals("token issuer", approved_issuers)
}

/// The answers of the queries that a factory call depends on.
#[derive(Debug, PartialEq, Eq)]
pub struct FactoryAnswers {
    /// The bonding-curve code id's approval and chain checksum.
    pub abc: ApprovalLookup,
    /// The token-issuer code id's approval and chain checksum.
    pub issuer: ApprovalLookup,
    /// The cw2 contract name the caller reports to `Info {}`.
    pub sender_info_contract: Result<String, String>,
    /// The DAO the caller reports to `Dao {}`.
    pub dao: Result<String, String>,
}

/// The writes and the sub-message of a successful factory call; `M` is the
/// bonding curve's instantiate message.
#[derive(Clone, Debug, PartialEq, Eq)]
pub struct FactoryExecution<M> {
    /// Stored as the current voting module.
    pub voting_module: String,
    /// Added to the DAO set and stored as the current DAO.
    pub dao: String,
    /// The bonding curve instantiation, replied to on success.
    pub sub_msg: InstantiateSubMsg<M>,
}

/// A factory call: the bonding-curve code id and then the token-issuer code
/// id that `msg` names must be approved with matching checksums (`answers`
/// holds the lookups of exactly these two ids); the caller must report the
/// token-staked voting module identity (during DAO instantiation the DAO
/// cannot yet vouch for it); the DAO it names then receives the new bonding
/// curve, instantiated from `msg` without admin and funds. Any failure comes
/// before every write.
pub fn execute_token_factory_factory<C, P, H>(
    sender: String,
    code_id: u64,
    msg: AbcInstantiateMsg<C, P, H>,
    answers: &FactoryAnswers,
) -> (r: Result<FactoryExecution<AbcInstantiateMsg<C, P, H>>, ContractError>)
    ensures
        lookup_verdict(answers.abc) != ApprovalVerdict::Approved ==> (r matches Err(e)
            && is_verdict_error("abc"@, code_id, lookup_verdict(answers.abc), e)),
        lookup_verdict(answers.abc) == ApprovalVerdict::Approved && lookup_verdict(answers.issuer)
            != ApprovalVerdict::Approved ==> (r matches Err(e) && is_verdict_error(
            "token issuer"@,
            msg.token_issuer_code_id,
            lookup_verdict(answers.issuer),
            e,
        )),
        lookup_verdict(answers.abc) == ApprovalVerdict::Approved && lookup_verdict(answers.issuer)
            == ApprovalVerdict::Approved ==> match answers.sender_info_contract {
            Err(m) => r == Err::<FactoryExecution<AbcInstantiateMsg<C, P, H>>, ContractError>(ContractError::Std(m)),
            Ok(c) => if c@ != TOKEN_STAKED_VOTING_MODULE@ {
                r == Err::<FactoryExecution<AbcInstantiateMsg<C, P, H>>, ContractError>(ContractError::Unauthorized)
            } else {
                match answers.dao {
                    Err(m) => r == Err::<FactoryExecution<AbcInstantiateMsg<C, P, H>>, ContractError>(ContractError::Std(m)),
                    Ok(d) => r matches Ok(x) && x.voting_module == sender && x.dao == d
                        && x.sub_msg.id == INSTANTIATE_ABC_REPLY_ID && x.sub_msg.reply_on
                        == ReplyOn::Success && x.sub_msg.instantiate.admin is None
                        && x.sub_msg.instantiate.code_id == code_id && x.sub_msg.instantiate.msg
                        == msg && x.sub_msg.instantiate.funds@.len() == 0
                        && x.sub_msg.instantiate.label@ == ABC_LABEL@,
                }
            },
        },
{
    match require_approved("abc", code_id, &answers.abc) {
        Ok(()) => {},
        Err(e) => return Err(e),
    }
    match require_approved("token issuer", msg.token_issuer_code_id, &answers.issuer) {
        Ok(()) => {},
        Err(e) => return Err(e),
    }
    let contract = match &answers.sender_info_contract {
        Ok(c) => c,
        Err(m) => return Err(ContractError::Std(m.clone())),
    };
    let expected = String::from_str(TOKEN_STAKED_VOTING_MODULE);
    if !(*contract == expected) {
        return Err(ContractError::Unauthorized);
    }
    let dao = match &answers.dao {
        Ok(d) => d.clone(),
        Err(m) => return Err(ContractError::Std(m.clone())),
    };
    Ok(
        FactoryExecution {
            voting_module: sender,
            dao,
            sub_msg: InstantiateSubMsg {
                id: INSTANTIATE_ABC_REPLY_ID,
                reply_on: ReplyOn::Success,
                instantiate: WasmInstantiate {
                    admin: None,
                    code_id,
                    msg,
                    funds: Vec::new(),
                    label: String::from_str(ABC_LABEL),
                },
            },
        },
    )
}

/// Number of DAOs listed by one page.
pub fn query_daos_limit(limit: Option<u32>) -> (n: usize)
    ensures
        n == match limit {
            Some(l) => l,
            None => DEFAULT_DAOS_LIMIT,
        },
{
    match limit {
        Some(l) => l as usize,
        None => DEFAULT_DAOS_LIMIT as usize,
    }
}

/// The temporary records kept between a factory call and its reply.
#[derive(Clone, Debug, PartialEq, Eq)]
pub struct TempState {
    pub current_dao: Option<String>,
    pub voting_module: Option<String>,
}

/// What the reply establishes: the new bonding curve, the DAO it goes to,
/// and the temporary records afterwards.
#[derive(Clone, Debug, PartialEq, Eq)]
pub struct AbcCreated {
    pub abc_addr: String,
    pub dao: String,
    pub temp_after: TempState,
}

/// The reply to the bonding curve instantiation: the reply id must be that
/// of the instantiation; the current DAO must be recorded; both temporary
/// records are cleared; the new curve's address is read from the reply. The
/// set of DAOs is not touched.
pub fn reply(response: SubMsgReply, temp: TempState) -> (r: Result<AbcCreated, ContractError>)
    ensures
        response.id != INSTANTIATE_ABC_REPLY_ID ==> r == Err::<AbcCreated, ContractError>(
            ContractError::UnknownReplyId { id: response.id },
        ),
        response.id == INSTANTIATE_ABC_REPLY_ID && temp.current_dao is None ==> r == Err::<
            AbcCreated,
            ContractError,
        >(ContractError::CurrentDaoNotFound),
        temp.current_dao is Some && response.id == INSTANTIATE_ABC_REPLY_ID ==> {
            &&& response.result matches Err(m) ==> r == Err::<AbcCreated, ContractError>(
                ContractError::ParseReplyError(ReplyParseError::SubMsgFailure(m)),
            )
            &&& response.result matches Ok(None) ==> (r matches Err(
                ContractError::ParseReplyError(ReplyParseError::ParseFailure(m)),
            ) && m@ == "Missing reply data"@)
            &&& response.result matches Ok(Some(d)) ==> r == match instantiate_response_address(
                d@,
            ) {
                Ok(a) => Ok::<AbcCreated, ContractError>(
                    AbcCreated {
                        abc_addr: a,
                        dao: temp.current_dao->Some_0,
                        temp_after: TempState { current_dao: None, voting_module: None },
                    },
                ),
                Err(e) => Err(ContractError::ParseReplyError(e)),
            }
        },
{
    if response.id != INSTANTIATE_ABC_REPLY_ID {
        return Err(ContractError::UnknownReplyId { id: response.id });
    }
    let dao = match temp.current_dao {
        Some(d) => d,
        None => return Err(ContractError::CurrentDaoNotFound),
    };
    let temp_after = TempState { current_dao: None, voting_module: None };
    match parse_reply_instantiate_data(response) {
        Ok(abc_addr) => Ok(AbcCreated { abc_addr, dao, temp_after }),
        Err(e) => Err(ContractError::ParseReplyError(e)),
    }
}

/// Ownership actions sent to the bonding curve.
#[derive(Clone, Debug, PartialEq, Eq)]
pub enum OwnershipAction {
    /// Make `new_owner` the pending owner, with no expiry.
    TransferOwnership { new_owner: String },
    /// The pending owner accepts.
    AcceptOwnership,
}

/// How a new bonding curve passes to its DAO: the factory proposes the DAO as
/// owner now, and the DAO accepts in the module-instantiation callback that
/// the voting module hands on together with the token's denom and issuer.
#[derive(Clone, Debug, PartialEq, Eq)]
pub struct AbcHandoff {
    pub abc_addr: String,
    pub transfer: OwnershipAction,
    pub callback: OwnershipAction,
    pub denom: String,
    pub token_contract: String,
}

/// The handoff of the new bonding curve to its DAO, given the curve's
/// answers to `Denom {}` and `TokenContract {}`, queried in that order.
pub fn ownership_handoff(
    created: AbcCreated,
    denom: Result<String, String>,
    token_contract: Result<String, String>,
) -> (r: Result<AbcHandoff, ContractError>)
    ensures
        denom matches Err(m) ==> r == Err::<AbcHandoff, ContractError>(ContractError::Std(m)),
        denom matches Ok(dn) ==> match token_contract {
            Err(m) => r == Err::<AbcHandoff, ContractError>(ContractError::Std(m)),
            Ok(t) => r == Ok::<AbcHandoff, ContractError>(
                AbcHandoff {
                    abc_addr: created.abc_addr,
                    transfer: OwnershipAction::TransferOwnership { new_owner: created.dao },
                    callback: OwnershipAction::AcceptOwnership,
                    denom: dn,
                    token_contract: t,
                },
            ),
        },
{
    let denom = match denom {
        Ok(d) => d,
        Err(m) => return Err(ContractError::Std(m)),
    };
    let token_contract = match token_contract {
        Ok(t) => t,
        Err(m) => return Err(ContractError::Std(m)),
    };
    Ok(
        AbcHandoff {
            abc_addr: created.abc_addr,
            transfer: OwnershipAction::TransferOwnership { new_owner: created.dao },
            callback: OwnershipAction::AcceptOwnership,
            denom,
            token_contract,
        },
    )
}

} // verus!
