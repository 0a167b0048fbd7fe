use dao_contracts::cosmos::{InstantiateSubMsg, ReplyOn, WasmInstantiate};
use dao_contracts::cw_abc::{InstantiateMsg, ReserveToken};
use dao_contracts::token_setup::SupplyToken;
use dao_contracts::dao_abc_factory::{
    check_checksum, execute_token_factory_factory, instantiate, ownership_handoff,
    query_daos_limit, reply, require_approved, AbcCreated, ApprovalLookup, CheckedApproval,
    CodeApproval, ContractError, FactoryAnswers, FactoryExecution, OwnershipAction, TempState,
};
use dao_contracts::reply_data::{ReplyParseError, SubMsgReply};

/// Checksum the mock chain reports for a code id.
fn chain_checksum(code_id: u64) -> Vec<u8> {
    vec![code_id as u8; 32]
}

fn lookup(code_id: u64, stored: Option<Vec<u8>>) -> ApprovalLookup {
    ApprovalLookup { stored, on_chain: Ok(chain_checksum(code_id)) }
}

#[test]
fn rejects_unapproved_abc_and_issuer_code_ids() {
    assert!(matches!(
        require_approved("abc", 7, &lookup(7, None)),
        Err(ContractError::UnapprovedCode { code_id: 7, .. })
    ));
    assert!(matches!(
        require_approved("token issuer", 9, &lookup(9, None)),
        Err(ContractError::UnapprovedCode { code_id: 9, .. })
    ));
}

#[test]
fn rejects_mismatched_abc_and_issuer_checksums() {
    assert!(matches!(
        require_approved("abc", 7, &lookup(7, Some(vec![0u8; 32]))),
        Err(ContractError::ChecksumMismatch { code_id: 7, .. })
    ));
    assert!(matches!(
        require_approved("token issuer", 9, &lookup(9, Some(vec![0u8; 32]))),
        Err(ContractError::ChecksumMismatch { code_id: 9, .. })
    ));
}

#[test]
fn approval_errors_name_their_list() {
    assert_eq!(
        require_approved("abc", 3, &lookup(3, None)),
        Err(ContractError::UnapprovedCode { kind: "abc".to_string(), code_id: 3 })
    );
    assert_eq!(
        check_checksum("token issuer", 4, &vec![1, 2], &vec![1, 3]),
        Err(ContractError::ChecksumMismatch { kind: "token issuer".to_string(), code_id: 4 })
    );
}

#[test]
fn matching_checksum_is_accepted() {
    assert_eq!(require_approved("abc", 5, &lookup(5, Some(chain_checksum(5)))), Ok(()));
    assert_eq!(check_checksum("abc", 5, &chain_checksum(5), &chain_checksum(5)), Ok(()));
    assert!(check_checksum("abc", 5, &vec![5u8; 31], &chain_checksum(5)).is_err());
}

#[test]
fn unapproved_code_is_refused_whatever_the_chain_says() {
    let failed = ApprovalLookup { stored: None, on_chain: Err("no such code".to_string()) };
    assert_eq!(
        require_approved("abc", 8, &failed),
        Err(ContractError::UnapprovedCode { kind: "abc".to_string(), code_id: 8 })
    );
    let failed = ApprovalLookup { stored: Some(chain_checksum(8)), on_chain: Err("no such code".to_string()) };
    assert_eq!(require_approved("abc", 8, &failed), Err(ContractError::Std("no such code".to_string())));
}

/// An approval of `code_id` under `checksum`, checked against the mock chain.
fn checked(code_id: u64, checksum: Vec<u8>) -> CheckedApproval {
    CheckedApproval {
        approval: CodeApproval { code_id, checksum },
        on_chain: Ok(chain_checksum(code_id)),
    }
}

#[test]
fn instantiate_requires_both_approval_lists() {
    let err = Err(ContractError::Std("approval lists must not be empty".to_string()));
    assert_eq!(instantiate(&vec![], &vec![checked(1, chain_checksum(1))]), err);
    assert_eq!(instantiate(&vec![checked(1, chain_checksum(1))], &vec![]), err);
    assert_eq!(
        instantiate(&vec![checked(1, chain_checksum(1))], &vec![checked(2, chain_checksum(2))]),
        Ok(())
    );
}

#[test]
fn instantiate_reports_the_first_mismatch_of_each_list() {
    let abc = vec![checked(1, chain_checksum(1)), checked(2, vec![0; 32]), checked(3, vec![0; 32])];
    let issuers = vec![checked(4, vec![0; 32])];
    assert_eq!(
        instantiate(&abc, &issuers),
        Err(ContractError::ChecksumMismatch { kind: "abc".to_string(), code_id: 2 })
    );
    let abc = vec![checked(1, chain_checksum(1))];
    let issuers = vec![checked(4, chain_checksum(4)), checked(5, vec![0; 32])];
    assert_eq!(
        instantiate(&abc, &issuers),
        Err(ContractError::ChecksumMismatch { kind: "token issuer".to_string(), code_id: 5 })
    );
    let failed = CheckedApproval {
        approval: CodeApproval { code_id: 6, checksum: chain_checksum(6) },
        on_chain: Err("no such code".to_string()),
    };
    assert_eq!(
        instantiate(&vec![failed], &issuers),
        Err(ContractError::Std("no such code".to_string()))
    );
}

fn answers(info_contract: &str) -> FactoryAnswers {
    FactoryAnswers {
        abc: lookup(7, Some(chain_checksum(7))),
        issuer: lookup(9, Some(chain_checksum(9))),
        sender_info_contract: Ok(info_contract.to_string()),
        dao: Ok("dao".to_string()),
    }
}

/// A bonding-curve instantiate message naming token-issuer code 9.
fn abc_msg() -> InstantiateMsg<String, u8, String> {
    InstantiateMsg {
        token_issuer_code_id: 9,
        funding_pool_forwarding: None,
        supply: SupplyToken { subdenom: "uabc".to_string(), metadata: None, decimals: 6, max_supply: None },
        reserve: ReserveToken { denom: "ujuno".to_string(), decimals: 6 },
        curve_type: "linear".to_string(),
        phase_config: 1,
        hatcher_allowlist: None,
    }
}

#[test]
fn token_staked_module_gets_a_curve_for_its_dao() {
    let r = execute_token_factory_factory(
        "module".to_string(),
        7,
        abc_msg(),
        &answers("crates.io:dao-voting-token-staked"),
    );
    assert_eq!(
        r,
        Ok(FactoryExecution {
            voting_module: "module".to_string(),
            dao: "dao".to_string(),
            sub_msg: InstantiateSubMsg {
                id: 1,
                reply_on: ReplyOn::Success,
                instantiate: WasmInstantiate {
                    admin: None,
                    code_id: 7,
                    msg: abc_msg(),
                    funds: vec![],
                    label: "cw_abc".to_string(),
                },
            },
        })
    );
}

#[test]
fn other_callers_are_unauthorized() {
    for contract in ["crates.io:cw20-base", "crates.io:dao-voting-cw4", ""] {
        assert_eq!(
            execute_token_factory_factory("eoa".to_string(), 7, abc_msg(), &answers(contract)),
            Err(ContractError::Unauthorized)
        );
    }
    let mut no_info = answers("crates.io:dao-voting-token-staked");
    no_info.sender_info_contract = Err("not a contract".to_string());
    assert_eq!(
        execute_token_factory_factory("eoa".to_string(), 7, abc_msg(), &no_info),
        Err(ContractError::Std("not a contract".to_string()))
    );
}

#[test]
fn approvals_are_checked_before_the_caller() {
    let mut a = answers("anything");
    a.abc = lookup(7, None);
    a.issuer = lookup(9, None);
    assert_eq!(
        execute_token_factory_factory("eoa".to_string(), 7, abc_msg(), &a),
        Err(ContractError::UnapprovedCode { kind: "abc".to_string(), code_id: 7 })
    );
    a.abc = lookup(7, Some(chain_checksum(7)));
    assert_eq!(
        execute_token_factory_factory("eoa".to_string(), 7, abc_msg(), &a),
        Err(ContractError::UnapprovedCode { kind: "token issuer".to_string(), code_id: 9 })
    );
    a.issuer = lookup(9, Some(vec![1; 32]));
    assert_eq!(
        execute_token_factory_factory("eoa".to_string(), 7, abc_msg(), &a),
        Err(ContractError::ChecksumMismatch { kind: "token issuer".to_string(), code_id: 9 })
    );
    let mut other_issuer = abc_msg();
    other_issuer.token_issuer_code_id = 11;
    a.issuer = lookup(11, None);
    assert_eq!(
        execute_token_factory_factory("eoa".to_string(), 7, other_issuer, &a),
        Err(ContractError::UnapprovedCode { kind: "token issuer".to_string(), code_id: 11 })
    );
}

#[test]
fn dao_pages_default_to_twenty_five() {
    assert_eq!(query_daos_limit(None), 25);
    assert_eq!(query_daos_limit(Some(3)), 3);
    assert_eq!(query_daos_limit(Some(0)), 0);
}

fn pending() -> TempState {
    TempState { current_dao: Some("dao".to_string()), voting_module: Some("module".to_string()) }
}

#[test]
fn factory_reply_accepts_only_the_abc_instantiation() {
    let r = SubMsgReply { id: 0, result: Ok(None) };
    assert_eq!(reply(r, pending()), Err(ContractError::UnknownReplyId { id: 0 }));
    let r = SubMsgReply { id: 42, result: Ok(None) };
    assert_eq!(reply(r, pending()), Err(ContractError::UnknownReplyId { id: 42 }));
}

#[test]
fn abc_address_is_read_from_the_instantiation_reply_and_temp_state_cleared() {
    let mut data = vec![0x0a, 7];
    data.extend_from_slice(b"abc-one");
    let r = SubMsgReply { id: 1, result: Ok(Some(data)) };
    assert_eq!(
        reply(r, pending()),
        Ok(AbcCreated {
            abc_addr: "abc-one".to_string(),
            dao: "dao".to_string(),
            temp_after: TempState { current_dao: None, voting_module: None },
        })
    );
    let failed = SubMsgReply { id: 1, result: Err("failed".to_string()) };
    assert_eq!(
        reply(failed, pending()),
        Err(ContractError::ParseReplyError(ReplyParseError::SubMsgFailure("failed".to_string())))
    );
    let empty = SubMsgReply { id: 1, result: Ok(None) };
    assert_eq!(
        reply(empty, pending()),
        Err(ContractError::ParseReplyError(ReplyParseError::ParseFailure(
            "Missing reply data".to_string()
        )))
    );
}

#[test]
fn reply_without_current_dao_fails() {
    let r = SubMsgReply { id: 1, result: Ok(Some(vec![0x0a, 1, b'a'])) };
    let temp = TempState { current_dao: None, voting_module: Some("module".to_string()) };
    assert_eq!(reply(r, temp), Err(ContractError::CurrentDaoNotFound));
}

#[test]
fn new_curve_is_handed_to_its_dao() {
    let created = AbcCreated {
        abc_addr: "abc".to_string(),
        dao: "dao".to_string(),
        temp_after: TempState { current_dao: None, voting_module: None },
    };
    let h = ownership_handoff(
        created.clone(),
        Ok("factory/issuer/tok".to_string()),
        Ok("issuer".to_string()),
    )
    .unwrap();
    assert_eq!(h.abc_addr, "abc");
    assert_eq!(h.transfer, OwnershipAction::TransferOwnership { new_owner: "dao".to_string() });
    assert_eq!(h.callback, OwnershipAction::AcceptOwnership);
    assert_eq!(h.denom, "factory/issuer/tok");
    assert_eq!(h.token_contract, "issuer");
    assert_eq!(
        ownership_handoff(created.clone(), Err("no denom".to_string()), Ok("issuer".to_string())),
        Err(ContractError::Std("no denom".to_string()))
    );
    assert_eq!(
        ownership_handoff(created, Ok("d".to_string()), Err("no issuer".to_string())),
        Err(ContractError::Std("no issuer".to_string()))
    );
}
