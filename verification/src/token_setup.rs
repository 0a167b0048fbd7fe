//! The token setup that follows the instantiation of the token-factory
//! issuer: the factory denom, the mint and burn allowances and the denom
//! metadata with its units ordered by exponent.
use vstd::prelude::*;
use vstd::string::*;
use crate::cw_abc::{ContractError, INSTANTIATE_TOKEN_FACTORY_ISSUER_REPLY_ID};
use crate::reply_data::{
    instantiate_response_address, parse_reply_instantiate_data, ReplyParseError, SubMsgReply,
};

verus! {

/// A unit of a denomination: `1 denom = 10^exponent base units`.
#[derive(Clone, Debug, PartialEq, Eq)]
pub struct DenomUnit {
    pub denom: String,
    pub exponent: u32,
    pub aliases: Vec<String>,
}

/// Metadata that the creator of the supply token may provide.
#[derive(Clone, Debug, PartialEq, Eq)]
pub struct NewDenomMetadata {
    pub description: String,
    pub additional_denom_units: Option<Vec<DenomUnit>>,
    pub display: String,
    pub name: String,
    pub symbol: String,
}

/// The supply token requested at instantiation.
#[derive(Clone, Debug, PartialEq, Eq)]
pub struct SupplyToken {
    pub subdenom: String,
    pub metadata: Option<NewDenomMetadata>,
    pub decimals: u8,
    pub max_supply: Option<u128>,
}

/// Bank metadata of the created denomination.
#[derive(Clone, Debug, PartialEq, Eq)]
pub struct Metadata {
    pub description: String,
    pub denom_units: Vec<DenomUnit>,
    pub base: String,
    pub display: String,
    pub name: String,
    pub symbol: String,
}

/// Instantiation of the token-factory issuer: create the denomination
/// `factory/{issuer}/{subdenom}`.
#[derive(Clone, Debug, PartialEq, Eq)]
pub enum IssuerInstantiateMsg {
    NewToken { subdenom: String },
}

/// Calls made on the token-factory issuer.
#[derive(Clone, Debug, PartialEq, Eq)]
pub enum IssuerExecuteMsg {
    SetMinterAllowance { address: String, allowance: u128 },
    SetBurnerAllowance { address: String, allowance: u128 },
    SetDenomMetadata { metadata: Metadata },
}

/// The denom and the issuer calls that finalize the token setup.
#[derive(Clone, Debug, PartialEq, Eq)]
pub struct TokenSetup {
    pub denom: String,
    pub messages: Vec<IssuerExecuteMsg>,
}

/// Units of `s` with the given exponent, in their order in `s`.
pub open spec fn with_exponent(s: Seq<DenomUnit>, e: u32) -> Seq<DenomUnit>
    decreases s.len(),
{
    if s.len() == 0 {
        Seq::empty()
    } else if s.last().exponent == e {
        with_exponent(s.drop_last(), e).push(s.last())
    } else {
        with_exponent(s.drop_last(), e)
    }
}

/// Exponents never decrease along `s`.
pub open spec fn sorted_by_exponent(s: Seq<DenomUnit>) -> bool {
    forall|i: int, j: int| 0 <= i <= j < s.len() ==> s[i].exponent <= s[j].exponent
}

/// `sorted` is the stable sort of `units` by exponent: ordered by exponent,
/// and the units of each exponent keep their relative order.
pub open spec fn is_stable_sort(units: Seq<DenomUnit>, sorted: Seq<DenomUnit>) -> bool {
    &&& sorted_by_exponent(sorted)
    &&& sorted.len() == units.len()
    &&& forall|e: u32| #[trigger] with_exponent(sorted, e) == with_exponent(units, e)
}

proof fn lemma_with_exponent_add(a: Seq<DenomUnit>, b: Seq<DenomUnit>, e: u32)
    ensures
        with_exponent(a + b, e) == with_exponent(a, e) + with_exponent(b, e),
    decreases b.len(),
{
    if b.len() == 0 {
        assert(a + b =~= a);
        assert(with_exponent(a, e) + with_exponent(b, e) =~= with_exponent(a, e));
    } else {
        assert((a + b).drop_last() =~= a + b.drop_last());
        lemma_with_exponent_add(a, b.drop_last(), e);
        if b.last().exponent == e {
            assert(with_exponent(a, e) + with_exponent(b.drop_last(), e).push(b.last())
                =~= (with_exponent(a, e) + with_exponent(b.drop_last(), e)).push(b.last()));
        }
    }
}

proof fn lemma_with_exponent_single(u: DenomUnit, e: u32)
    ensures
        with_exponent(seq![u], e) == (if u.exponent == e {
            seq![u]
        } else {
            Seq::<DenomUnit>::empty()
        }),
{
    let s = seq![u];
    assert(s.drop_last() =~= Seq::<DenomUnit>::empty());
    assert(s.last() == u);
    assert(with_exponent(Seq::<DenomUnit>::empty(), e) == Seq::<DenomUnit>::empty());
    assert(Seq::<DenomUnit>::empty().push(u) =~= seq![u]);
}

proof fn lemma_with_exponent_none(s: Seq<DenomUnit>, e: u32)
    requires
        forall|i: int| 0 <= i < s.len() ==> s[i].exponent != e,
    ensures
        with_exponent(s, e) == Seq::<DenomUnit>::empty(),
    decreases s.len(),
{
    if s.len() > 0 {
        lemma_with_exponent_none(s.drop_last(), e);
    }
}

proof fn lemma_with_exponent_starts_with_first(s: Seq<DenomUnit>, e: u32)
    requires
        s.len() > 0,
        s[0].exponent == e,
    ensures
        with_exponent(s, e).len() > 0,
        with_exponent(s, e)[0] == s[0],
    decreases s.len(),
{
    if s.len() == 1 {
        assert(s.drop_last() =~= Seq::<DenomUnit>::empty());
        assert(with_exponent(Seq::<DenomUnit>::empty(), e) == Seq::<DenomUnit>::empty());
        assert(s.last() == s[0]);
    } else {
        assert(s.drop_last()[0] == s[0]);
        lemma_with_exponent_starts_with_first(s.drop_last(), e);
    }
}

proof fn lemma_with_exponent_nonempty(s: Seq<DenomUnit>, e: u32) -> (i: int)
    requires
        with_exponent(s, e).len() > 0,
    ensures
        0 <= i < s.len(),
        s[i].exponent == e,
    decreases s.len(),
{
    if s.last().exponent == e {
        (s.len() - 1) as int
    } else {
        lemma_with_exponent_nonempty(s.drop_last(), e)
    }
}

/// Law: a stable sort by exponent of the base unit (exponent 0) followed by
/// other units starts with the base unit.
pub proof fn lemma_base_unit_stays_first(base: DenomUnit, others: Seq<DenomUnit>, sorted: Seq<DenomUnit>)
    requires
        base.exponent == 0,
        is_stable_sort(seq![base] + others, sorted),
    ensures
        sorted.len() > 0,
        sorted[0] == base,
{
    lemma_with_exponent_add(seq![base], others, 0);
    lemma_with_exponent_single(base, 0);
    assert(with_exponent(sorted, 0) == with_exponent(seq![base] + others, 0));
    assert((seq![base] + with_exponent(others, 0))[0] == base);
    let i = lemma_with_exponent_nonempty(sorted, 0);
    assert(sorted[0].exponent <= sorted[i].exponent);
    lemma_with_exponent_starts_with_first(sorted, 0);
}

/// Stable sort of denomination units by ascending exponent.
pub fn sort_denom_units(units: Vec<DenomUnit>) -> (sorted: Vec<DenomUnit>)
    ensures
        is_stable_sort(units@, sorted@),
{
    let ghost orig = units@;
    let mut rest = units;
    let mut out: Vec<DenomUnit> = Vec::new();
    let ghost mut done: int = 0;
    while rest.len() > 0
        invariant
            0 <= done <= orig.len(),
            rest@ == orig.skip(done),
            sorted_by_exponent(out@),
            out@.len() == done,
            forall|e: u32| #[trigger] with_exponent(out@, e) == with_exponent(orig.take(done), e),
        decreases rest.len(),
    {
        let u = rest.remove(0);
        proof {
            assert(u == orig[done]);
        }
        let mut p: usize = 0;
        while p < out.len() && out[p].exponent <= u.exponent
            invariant
                p <= out@.len(),
                forall|i: int| 0 <= i < p ==> out@[i].exponent <= u.exponent,
            decreases out.len() - p,
        {
            p = p + 1;
        }
        let ghost before = out@;
        proof {
            assert forall|i: int| p <= i < before.len() implies before[i].exponent > u.exponent by {
                assert(before[p as int].exponent > u.exponent);
            }
        }
        out.insert(p, u);
        proof {
            let lo = before.take(p as int);
            let hi = before.skip(p as int);
            assert(before =~= lo + hi);
            assert(out@ =~= lo + seq![u] + hi);
            assert(orig.take(done + 1) =~= orig.take(done) + seq![u]);
            assert forall|e: u32| #[trigger]
                with_exponent(out@, e) == with_exponent(orig.take(done + 1), e) by {
                lemma_with_exponent_add(lo + seq![u], hi, e);
                lemma_with_exponent_add(lo, seq![u], e);
                lemma_with_exponent_add(lo, hi, e);
                lemma_with_exponent_add(orig.take(done), seq![u], e);
                lemma_with_exponent_single(u, e);
                if u.exponent == e {
                    lemma_with_exponent_none(hi, e);
                    assert(with_exponent(lo, e) + Seq::<DenomUnit>::empty() =~= with_exponent(
                        lo,
                        e,
                    ));
                    assert(with_exponent(lo, e) + seq![u] + Seq::<DenomUnit>::empty()
                        =~= with_exponent(lo, e) + seq![u]);
                } else {
                    assert(with_exponent(lo, e) + Seq::<DenomUnit>::empty() =~= with_exponent(
                        lo,
                        e,
                    ));
                    assert(with_exponent(orig.take(done), e) + Seq::<DenomUnit>::empty()
                        =~= with_exponent(orig.take(done), e));
                }
            }
            done = done + 1;
            assert(rest@ =~= orig.skip(done));
        }
    }
    proof {
        assert(orig.take(done) =~= orig);
    }
    out
}

/// The reply to the issuer instantiation yields the issuer's address; a reply
/// with any other id is refused before its content is read.
pub fn reply(response: SubMsgReply) -> (r: Result<String, ContractError>)
    ensures
        response.id != INSTANTIATE_TOKEN_FACTORY_ISSUER_REPLY_ID ==> r == Err::<String, ContractError>(
            ContractError::UnknownReplyId { id: response.id },
        ),
        response.id == INSTANTIATE_TOKEN_FACTORY_ISSUER_REPLY_ID ==> {
            &&& response.result matches Err(m) ==> r == Err::<String, ContractError>(
                ContractError::ParseReplyError(ReplyParseError::SubMsgFailure(m)),
            )
            &&& response.result matches Ok(None) ==> (r matches Err(
                ContractError::ParseReplyError(ReplyParseError::ParseFailure(m)),
            ) && m@ == "Missing reply data"@)
            &&& response.result matches Ok(Some(d)) ==> r == match instantiate_response_address(d@) {
                Ok(a) => Ok::<String, ContractError>(a),
                Err(e) => Err(ContractError::ParseReplyError(e)),
            }
        },
{
    if response.id != INSTANTIATE_TOKEN_FACTORY_ISSUER_REPLY_ID {
        return Err(ContractError::UnknownReplyId { id: response.id });
    }
    match parse_reply_instantiate_data(response) {
        Ok(address) => Ok(address),
        Err(e) => Err(ContractError::ParseReplyError(e)),
    }
}

/// The token-factory denomination created by an issuer for a subdenom.
pub open spec fn factory_denom(issuer_addr: Seq<char>, subdenom: Seq<char>) -> Seq<char> {
    "factory/"@ + issuer_addr + "/"@ + subdenom
}

/// The base unit of the created token: the denom itself at exponent 0,
/// aliased by the subdenom.
pub open spec fn is_base_unit(u: DenomUnit, denom: String, subdenom: String) -> bool {
    u.denom == denom && u.exponent == 0 && u.aliases@ == seq![subdenom]
}

/// Units the creator added, if any.
pub open spec fn additional_units(additional: Option<Vec<DenomUnit>>) -> Seq<DenomUnit> {
    match additional {
        Some(units) => units@,
        None => Seq::empty(),
    }
}

/// The denom metadata carries the requested description and names, the denom
/// as its base, and the base unit with the added units, stably sorted by
/// exponent.
pub open spec fn metadata_as_requested(
    metadata: Metadata,
    requested: NewDenomMetadata,
    denom: String,
    subdenom: String,
) -> bool {
    &&& metadata.description == requested.description
    &&& metadata.base == denom
    &&& metadata.display == requested.display
    &&& metadata.name == requested.name
    &&& metadata.symbol == requested.symbol
    &&& metadata.denom_units@.len() > 0
    &&& is_base_unit(metadata.denom_units@[0], denom, subdenom)
    &&& exists|base: DenomUnit|
        #![trigger is_base_unit(base, denom, subdenom)]
        is_base_unit(base, denom, subdenom) && is_stable_sort(
            seq![base] + additional_units(requested.additional_denom_units),
            metadata.denom_units@,
        )
}

/// Once the issuer exists: the token-factory denom, unlimited mint and burn
/// allowances for this contract, and, when metadata was requested, the denom
/// metadata with the base unit first among the units sorted by exponent.
pub fn token_issuer_instantiated(
    issuer_addr: &String,
    contract_addr: &String,
    supply: SupplyToken,
) -> (setup: TokenSetup)
    ensures
        setup.denom@ == factory_denom(issuer_addr@, supply.subdenom@),
        setup.messages@.len() == (if supply.metadata is Some {
            3int
        } else {
            2int
        }),
        setup.messages@[0] == (IssuerExecuteMsg::SetMinterAllowance {
            address: *contract_addr,
            allowance: u128::MAX,
        }),
        setup.messages@[1] == (IssuerExecuteMsg::SetBurnerAllowance {
            address: *contract_addr,
            allowance: u128::MAX,
        }),
        supply.metadata matches Some(m) ==> setup.messages@[2] matches IssuerExecuteMsg::SetDenomMetadata {
            metadata,
        } && metadata_as_requested(metadata, m, setup.denom, supply.subdenom),
{
    let mut denom = String::from_str("factory/");
    denom.append(issuer_addr.as_str());
    denom.append("/");
    denom.append(supply.subdenom.as_str());
    let mut messages: Vec<IssuerExecuteMsg> = Vec::new();
    messages.push(
        IssuerExecuteMsg::SetMinterAllowance { address: contract_addr.clone(), allowance: u128::MAX },
    );
    messages.push(
        IssuerExecuteMsg::SetBurnerAllowance { address: contract_addr.clone(), allowance: u128::MAX },
    );
    match supply.metadata {
        Some(metadata) => {
            let ghost subdenom = supply.subdenom;
            let mut aliases: Vec<String> = Vec::new();
            aliases.push(supply.subdenom);
            let mut denom_units: Vec<DenomUnit> = Vec::new();
            denom_units.push(DenomUnit { denom: denom.clone(), exponent: 0, aliases });
            let ghost base_unit = denom_units@[0];
            match metadata.additional_denom_units {
                Some(additional) => {
                    let mut additional = additional;
                    denom_units.append(&mut additional);
                },
                None => {},
            }
            let ghost requested = denom_units@;
            proof {
                assert(requested =~= seq![base_unit] + additional_units(
                    metadata.additional_denom_units,
                ));
                assert(is_base_unit(base_unit, denom, subdenom));
            }
            let denom_units = sort_denom_units(denom_units);
            proof {
                assert(is_stable_sort(requested, denom_units@));
                lemma_base_unit_stays_first(
                    base_unit,
                    additional_units(metadata.additional_denom_units),
                    denom_units@,
                );
            }
            messages.push(
                IssuerExecuteMsg::SetDenomMetadata {
                    metadata: Metadata {
                        description: metadata.description,
                        denom_units,
                        base: denom.clone(),
                        display: metadata.display,
                        name: metadata.name,
                        symbol: metadata.symbol,
                    },
                },
            );
            proof {
                assert(is_base_unit(base_unit, denom, supply.subdenom));
            }
        },
        None => {},
    }
    TokenSetup { denom, messages }
}

} // verus!
