//! The gauge vote hook: one sub-message per subscriber, each under its own
//! reply id from a namespace that never reuses an id.
use vstd::prelude::*;
use crate::cosmos::ReplyOn;
use crate::decimal::StdDecimal;

verus! {

/// A weighted vote for one option.
#[derive(Clone, Debug, PartialEq, Eq)]
pub struct Vote {
    pub option: String,
    pub weight: StdDecimal,
}

/// Hook fired on `PlaceVotes`, carrying the voter's new state after the vote.
#[derive(Clone, Debug, PartialEq, Eq)]
pub enum GaugeVoteHookMsg {
    NewVotes { gauge_id: u64, voter: String, votes: Vec<Vote>, voting_power: u128, height: u64 },
}

/// Envelope received by subscribed contracts.
#[derive(Clone, Debug, PartialEq, Eq)]
pub enum GaugeVoteHookExecuteMsg {
    GaugeVoteHook(GaugeVoteHookMsg),
}

/// Errors of the vote-hook dispatch.
#[derive(Clone, Debug, PartialEq, Eq)]
pub enum ContractError {
    /// A subscriber address failed validation, with the message.
    Std(String),
    /// The reply-id namespace is used up.
    VoteHookReplyIdExhausted,
}

/// Vote-hook replies live in the upper half of the `u64` namespace.
pub const FIRST_VOTE_HOOK_REPLY_ID: u64 = 9223372036854775808u64;

/// One sub-message: the payload executed on `contract_addr`, replied to under
/// `reply_id` on success and on failure alike.
#[derive(Clone, Debug, PartialEq, Eq)]
pub struct HookCall {
    pub reply_id: u64,
    pub reply_on: ReplyOn,
    pub contract_addr: String,
}

/// The hook sub-messages of one vote and the reply id to store for the next.
#[derive(Clone, Debug, PartialEq, Eq)]
pub struct VoteHookDispatch {
    pub payload: GaugeVoteHookExecuteMsg,
    pub calls: Vec<HookCall>,
    pub next_reply_id: u64,
}

/// First reply id of a dispatch, from the stored next id.
pub open spec fn first_reply_id(stored_next: Option<u64>) -> u64 {
    match stored_next {
        Some(n) => n,
        None => FIRST_VOTE_HOOK_REPLY_ID,
    }
}

/// `d` holds one call per subscriber, in order: subscriber `i` at reply id
/// `first + i`, replied to in every case, and `first + n` stored as the next
/// id, where `first` comes from the stored next id.
pub open spec fn dispatched(
    stored_next: Option<u64>,
    hooks: Seq<Result<String, String>>,
    d: VoteHookDispatch,
) -> bool {
    &&& d.calls@.len() == hooks.len()
    &&& d.next_reply_id == first_reply_id(stored_next) + hooks.len()
    &&& forall|i: int|
        0 <= i < hooks.len() ==> #[trigger] d.calls@[i] == (HookCall {
            reply_id: (first_reply_id(stored_next) + i) as u64,
            reply_on: ReplyOn::Always,
            contract_addr: hooks[i]->Ok_0,
        })
}

/// Outcome of walking the subscribers in order from reply id `next`: the
/// first invalid address, or the first subscriber for whom no following id
/// exists, fails the dispatch.
pub open spec fn dispatch_outcome(next: int, hooks: Seq<Result<String, String>>) -> Result<
    (),
    ContractError,
>
    decreases hooks.len(),
{
    if hooks.len() == 0 {
        Ok(())
    } else {
        match hooks[0] {
            Err(m) => Err(ContractError::Std(m)),
            Ok(_) => if next + 1 > u64::MAX {
                Err(ContractError::VoteHookReplyIdExhausted)
            } else {
                dispatch_outcome(next + 1, hooks.drop_first())
            },
        }
    }
}

proof fn lemma_dispatch_outcome_prefix(next: int, hooks: Seq<Result<String, String>>, i: int)
    requires
        0 <= i < hooks.len(),
        dispatch_outcome(next, hooks.take(i)) is Ok,
    ensures
        dispatch_outcome(next, hooks.take(i + 1)) == (match hooks[i] {
            Err(m) => Err(ContractError::Std(m)),
            Ok(_) => if next + i + 1 > u64::MAX {
                Err(ContractError::VoteHookReplyIdExhausted)
            } else {
                Ok(())
            },
        }),
    decreases i,
{
    if i > 0 {
        assert(hooks.take(i).drop_first() =~= hooks.drop_first().take(i - 1));
        assert(hooks.take(i + 1).drop_first() =~= hooks.drop_first().take(i));
        assert(hooks.take(i)[0] == hooks[0]);
        assert(hooks.take(i + 1)[0] == hooks[0]);
        assert(hooks.drop_first()[i - 1] == hooks[i]);
        assert(hooks[0] is Ok && next + 1 <= u64::MAX);
        assert(dispatch_outcome(next + 1, hooks.drop_first().take(i - 1)) is Ok);
        lemma_dispatch_outcome_prefix(next + 1, hooks.drop_first(), i - 1);
        assert(dispatch_outcome(next, hooks.take(i + 1)) == dispatch_outcome(
            next + 1,
            hooks.drop_first().take(i),
        ));
    } else {
        assert(hooks.take(1).drop_first() =~= Seq::<Result<String, String>>::empty());
        assert(hooks.take(1)[0] == hooks[0]);
        assert(dispatch_outcome(next + 1, Seq::<Result<String, String>>::empty()) == Ok::<
            (),
            ContractError,
        >(()));
    }
}

proof fn lemma_dispatch_outcome_fail_extends(
    next: int,
    hooks: Seq<Result<String, String>>,
    i: int,
)
    requires
        0 <= i <= hooks.len(),
        dispatch_outcome(next, hooks.take(i)) is Err,
    ensures
        dispatch_outcome(next, hooks) == dispatch_outcome(next, hooks.take(i)),
    decreases i,
{
    if i == hooks.len() {
        assert(hooks.take(i) =~= hooks);
    } else {
        assert(i > 0);
        assert(hooks.take(i).drop_first() =~= hooks.drop_first().take(i - 1));
        assert(hooks.take(i)[0] == hooks[0]);
        if hooks[0] is Ok && next + 1 <= u64::MAX {
            lemma_dispatch_outcome_fail_extends(next + 1, hooks.drop_first(), i - 1);
        }
    }
}

/// The sub-messages for every registered subscriber, in registration order.
/// `hooks` holds each subscriber address after validation, or the validation
/// failure. Subscriber `i` gets reply id `first + i`, where `first` is the
/// stored next id or the start of the vote-hook namespace; the id after the
/// last one is stored for the next vote.
pub fn new_vote_hook_msgs(
    stored_next: Option<u64>,
    hooks: Vec<Result<String, String>>,
    gauge_id: u64,
    voter: String,
    votes: Vec<Vote>,
    voting_power: u128,
    height: u64,
) -> (r: Result<VoteHookDispatch, ContractError>)
    ensures
        r matches Err(e) ==> dispatch_outcome(first_reply_id(stored_next) as int, hooks@) == Err::<
            (),
            ContractError,
        >(e),
        dispatch_outcome(first_reply_id(stored_next) as int, hooks@) is Ok <==> r is Ok,
        r matches Ok(d) ==> {
            &&& d.payload == GaugeVoteHookExecuteMsg::GaugeVoteHook(
                GaugeVoteHookMsg::NewVotes { gauge_id, voter, votes, voting_power, height },
            )
            &&& dispatched(stored_next, hooks@, d)
        },
        r matches Ok(d) ==> d.calls@.len() == hooks@.len() && forall|i: int|
            0 <= i < hooks@.len() ==> (#[trigger] hooks@[i] matches Ok(a)
                && d.calls@[i].contract_addr == a && d.calls@[i].reply_on == ReplyOn::Always
                && d.calls@[i].reply_id == first_reply_id(stored_next) + i),
        r matches Ok(d) ==> d.next_reply_id == first_reply_id(stored_next) + hooks@.len(),
{
    let payload = GaugeVoteHookExecuteMsg::GaugeVoteHook(
        GaugeVoteHookMsg::NewVotes { gauge_id, voter, votes, voting_power, height },
    );
    let first = match stored_next {
        Some(n) => n,
        None => FIRST_VOTE_HOOK_REPLY_ID,
    };
    let mut next = first;
    let mut calls: Vec<HookCall> = Vec::new();
    let mut i: usize = 0;
    while i < hooks.len()
        invariant
            first == first_reply_id(stored_next),
            i <= hooks@.len(),
            next == first + i,
            calls@.len() == i,
            dispatch_outcome(first as int, hooks@.take(i as int)) is Ok,
            forall|j: int|
                0 <= j < i ==> #[trigger] calls@[j] == (HookCall {
                    reply_id: (first + j) as u64,
                    reply_on: ReplyOn::Always,
                    contract_addr: hooks@[j]->Ok_0,
                }),
        decreases hooks.len() - i,
    {
        proof {
            lemma_dispatch_outcome_prefix(first as int, hooks@, i as int);
        }
        let address = match &hooks[i] {
            Ok(a) => a.clone(),
            Err(m) => {
                proof {
                    lemma_dispatch_outcome_fail_extends(first as int, hooks@, i as int + 1);
                }
                return Err(ContractError::Std(m.clone()));
            },
        };
        let id = next;
        next = match next.checked_add(1) {
            Some(n) => n,
            None => {
                proof {
                    lemma_dispatch_outcome_fail_extends(first as int, hooks@, i as int + 1);
                }
                return Err(ContractError::VoteHookReplyIdExhausted);
            },
        };
        calls.push(HookCall { reply_id: id, reply_on: ReplyOn::Always, contract_addr: address });
        i = i + 1;
    }
    proof {
        assert(hooks@.take(hooks@.len() as int) =~= hooks@);
    }
    let d = VoteHookDispatch { payload, calls, next_reply_id: next };
    proof {
        lemma_dispatch_notifies_every_subscriber(stored_next, hooks@, d);
    }
    Ok(d)
}

/// Law: a successful dispatch notifies every subscriber, in order: call `i`
/// executes on subscriber `i`'s validated address, whatever reply id the
/// namespace stood at, and its reply id is `i` past the first.
pub proof fn lemma_dispatch_notifies_every_subscriber(
    stored_next: Option<u64>,
    hooks: Seq<Result<String, String>>,
    d: VoteHookDispatch,
)
    requires
        dispatched(stored_next, hooks, d),
        dispatch_outcome(first_reply_id(stored_next) as int, hooks) is Ok,
    ensures
        d.calls@.len() == hooks.len(),
        forall|i: int|
            0 <= i < hooks.len() ==> (#[trigger] hooks[i] matches Ok(a) && d.calls@[i].contract_addr
                == a && d.calls@[i].reply_id == first_reply_id(stored_next) + i),
{
    assert forall|i: int| 0 <= i < hooks.len() implies (#[trigger] hooks[i] matches Ok(a)
        && d.calls@[i].contract_addr == a && d.calls@[i].reply_id == first_reply_id(stored_next)
        + i) by {
        lemma_dispatch_outcome_all_ok(first_reply_id(stored_next) as int, hooks, i);
        assert(d.calls@[i] == (HookCall {
            reply_id: (first_reply_id(stored_next) + i) as u64,
            reply_on: ReplyOn::Always,
            contract_addr: hooks[i]->Ok_0,
        }));
        assert(first_reply_id(stored_next) + i < d.next_reply_id);
    }
}

/// A dispatch that succeeds found every subscriber address valid.
proof fn lemma_dispatch_outcome_all_ok(next: int, hooks: Seq<Result<String, String>>, i: int)
    requires
        dispatch_outcome(next, hooks) is Ok,
        0 <= i < hooks.len(),
    ensures
        hooks[i] is Ok,
    decreases i,
{
    if i > 0 {
        assert(hooks.drop_first()[i - 1] == hooks[i]);
        lemma_dispatch_outcome_all_ok(next + 1, hooks.drop_first(), i - 1);
    }
}

/// Law: reply ids are never reused and stay in the vote-hook namespace. Two
/// consecutive dispatches, the second starting from the next id the first
/// stored, give every call of either a reply id that no other call of either
/// has; when the first starts from an empty record (or anywhere in the upper
/// half), every id lies in the upper half of `u64`.
pub proof fn lemma_vote_hook_reply_ids_never_repeat(
    stored_next: Option<u64>,
    hooks1: Seq<Result<String, String>>,
    d1: VoteHookDispatch,
    hooks2: Seq<Result<String, String>>,
    d2: VoteHookDispatch,
)
    requires
        dispatched(stored_next, hooks1, d1),
        dispatched(Some(d1.next_reply_id), hooks2, d2),
    ensures
        forall|i: int, j: int|
            0 <= i < d1.calls@.len() && 0 <= j < d2.calls@.len() ==> #[trigger] d1.calls@[i].reply_id
                != #[trigger] d2.calls@[j].reply_id,
        forall|i: int, j: int|
            0 <= i < j < d1.calls@.len() ==> #[trigger] d1.calls@[i].reply_id
                != #[trigger] d1.calls@[j].reply_id,
        forall|i: int, j: int|
            0 <= i < j < d2.calls@.len() ==> #[trigger] d2.calls@[i].reply_id
                != #[trigger] d2.calls@[j].reply_id,
        stored_next is None || first_reply_id(stored_next) >= FIRST_VOTE_HOOK_REPLY_ID ==> {
            &&& forall|i: int|
                0 <= i < d1.calls@.len() ==> #[trigger] d1.calls@[i].reply_id
                    >= FIRST_VOTE_HOOK_REPLY_ID
            &&& forall|j: int|
                0 <= j < d2.calls@.len() ==> #[trigger] d2.calls@[j].reply_id
                    >= FIRST_VOTE_HOOK_REPLY_ID
        },
{
    let f1 = first_reply_id(stored_next) as int;
    let f2 = d1.next_reply_id as int;
    assert forall|i: int| 0 <= i < d1.calls@.len() implies #[trigger] d1.calls@[i].reply_id == f1 + i by {
        assert(d1.calls@[i].reply_id == (f1 + i) as u64);
        assert(f1 + i < d1.next_reply_id);
    }
    assert forall|j: int| 0 <= j < d2.calls@.len() implies #[trigger] d2.calls@[j].reply_id == f2 + j by {
        assert(d2.calls@[j].reply_id == (f2 + j) as u64);
        assert(f2 + j < d2.next_reply_id);
    }
}

} // verus!
