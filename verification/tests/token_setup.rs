use dao_contracts::cw_abc::ContractError;
use dao_contracts::reply_data::{ReplyParseError, SubMsgReply};
use dao_contracts::token_setup::{
    reply, sort_denom_units, token_issuer_instantiated, DenomUnit, IssuerExecuteMsg, Metadata,
    NewDenomMetadata, SupplyToken,
};

fn unit(denom: &str, exponent: u32) -> DenomUnit {
    DenomUnit { denom: denom.to_string(), exponent, aliases: vec![] }
}

/// Protobuf `MsgInstantiateContractResponse` with the given contract address.
fn instantiate_response(address: &str) -> Vec<u8> {
    let mut data = vec![0x0a, address.len() as u8];
    data.extend_from_slice(address.as_bytes());
    data
}

#[test]
fn reply_reads_the_issuer_address() {
    let r = SubMsgReply { id: 0, result: Ok(Some(instantiate_response("issuer-contract"))) };
    assert_eq!(reply(r), Ok("issuer-contract".to_string()));
}

#[test]
fn reply_refuses_unknown_ids_before_reading() {
    let r = SubMsgReply { id: 5, result: Err("boom".to_string()) };
    assert_eq!(reply(r), Err(ContractError::UnknownReplyId { id: 5 }));
}

#[test]
fn reply_reports_failed_or_empty_instantiation() {
    let failed = SubMsgReply { id: 0, result: Err("out of gas".to_string()) };
    assert_eq!(
        reply(failed),
        Err(ContractError::ParseReplyError(ReplyParseError::SubMsgFailure("out of gas".to_string())))
    );
    let empty = SubMsgReply { id: 0, result: Ok(None) };
    assert_eq!(
        reply(empty),
        Err(ContractError::ParseReplyError(ReplyParseError::ParseFailure(
            "Missing reply data".to_string()
        )))
    );
    let garbage = SubMsgReply { id: 0, result: Ok(Some(vec![0x12, 0x01, 0x00])) };
    assert!(matches!(
        reply(garbage),
        Err(ContractError::ParseReplyError(ReplyParseError::ParseFailure(_)))
    ));
}

#[test]
fn denom_units_sort_stably_by_exponent() {
    let units = vec![unit("m6a", 6), unit("base", 0), unit("k3", 3), unit("m6b", 6), unit("z0", 0)];
    let sorted = sort_denom_units(units);
    let names: Vec<&str> = sorted.iter().map(|u| u.denom.as_str()).collect();
    assert_eq!(names, vec!["base", "z0", "k3", "m6a", "m6b"]);
    assert!(sort_denom_units(vec![]).is_empty());
}

fn supply(metadata: Option<NewDenomMetadata>) -> SupplyToken {
    SupplyToken { subdenom: "uabc".to_string(), metadata, decimals: 6, max_supply: None }
}

#[test]
fn token_setup_without_metadata_grants_allowances() {
    let setup = token_issuer_instantiated(&"issuer".to_string(), &"abc".to_string(), supply(None));
    assert_eq!(setup.denom, "factory/issuer/uabc");
    assert_eq!(
        setup.messages,
        vec![
            IssuerExecuteMsg::SetMinterAllowance { address: "abc".to_string(), allowance: u128::MAX },
            IssuerExecuteMsg::SetBurnerAllowance { address: "abc".to_string(), allowance: u128::MAX },
        ]
    );
}

#[test]
fn token_setup_with_metadata_puts_base_unit_first() {
    let metadata = NewDenomMetadata {
        description: "desc".to_string(),
        additional_denom_units: Some(vec![unit("abc", 6), unit("mabc", 3), unit("alias0", 0)]),
        display: "abc".to_string(),
        name: "Abc".to_string(),
        symbol: "ABC".to_string(),
    };
    let setup =
        token_issuer_instantiated(&"issuer".to_string(), &"abc".to_string(), supply(Some(metadata)));
    assert_eq!(setup.messages.len(), 3);
    assert_eq!(
        setup.messages[2],
        IssuerExecuteMsg::SetDenomMetadata {
            metadata: Metadata {
                description: "desc".to_string(),
                denom_units: vec![
                    DenomUnit {
                        denom: "factory/issuer/uabc".to_string(),
                        exponent: 0,
                        aliases: vec!["uabc".to_string()],
                    },
                    unit("alias0", 0),
                    unit("mabc", 3),
                    unit("abc", 6),
                ],
                base: "factory/issuer/uabc".to_string(),
                display: "abc".to_string(),
                name: "Abc".to_string(),
                symbol: "ABC".to_string(),
            },
        }
    );
}
