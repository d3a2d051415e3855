use crate::error::ContractError;
use crate::math::Decimal;
use crate::msgs::InstantiateMsg;
use crate::state::{Config, ConfigResponse, SwapRequest};
use vstd::prelude::*;
use vstd::string::{StrSliceExecFns, StringExecFns};

verus! {

/// One key-value pair of a ledger event.
#[derive(Clone, Debug)]
pub struct Attribute {
    pub key: String,
    pub value: String,
}

/// One event reported back by the conversion sub-call.
#[derive(Clone, Debug)]
pub struct Event {
    pub ty: String,
    pub attributes: Vec<Attribute>,
}

/// What the callback carries: the sub-call's events on success, or the
/// bare fact of failure.
#[derive(Clone, Debug)]
pub enum ReplyResult {
    Success { events: Vec<Event> },
    Failure,
}

/// The payload a token contract forwards with an inbound transfer.
/// Belief price and max spread are accepted for surface compatibility and
/// never read: this pair has no slippage protection.
#[derive(Clone, Debug)]
pub enum Cw20HookMsg {
    Swap { belief_price: Option<Decimal>, max_spread: Option<Decimal>, to: Option<String> },
    WithdrawLiquidity,
}

/// An inbound execute message, after the host has decoded it.
#[derive(Clone, Debug)]
pub enum ExecuteMsg {
    UpdateConfig,
    ProvideLiquidity,
    Swap,
    Receive { sender_token: String, initiator: String, amount: u128, msg: Cw20HookMsg },
}

/// The instruction a planned swap sends out: tell `token_addr` to forward
/// `amount` to the hub for conversion, with a callback on success.
#[derive(Clone, Debug)]
pub struct ConvertInstruction {
    pub token_addr: String,
    pub hub_addr: String,
    pub amount: u128,
}

/// Everything a valid swap request commits the contract to: the pending
/// record to persist, and the conversion instruction to emit.
#[derive(Clone, Debug)]
pub struct SwapPlan {
    pub request: SwapRequest,
    pub instruction: ConvertInstruction,
}

/// The final settlement of a swap: transfer `amount` of token
/// `token_addr` to `recipient`.
#[derive(Clone, Debug)]
pub struct Transfer {
    pub token_addr: String,
    pub recipient: String,
    pub amount: u128,
}

/// Builds the initial config for a new pair, rejecting one whose two
/// token addresses coincide. Whether each address is well-formed on the
/// host chain is the host's to check before the strings reach here.
pub fn instantiate(msg: InstantiateMsg, owner: String) -> (r: Result<Config, ContractError>)
    ensures
        msg.stluna_address@ == msg.bluna_address@ ==> r == Err::<Config, ContractError>(
            ContractError::InvalidAsset,
        ),
        msg.stluna_address@ != msg.bluna_address@ ==> (r matches Ok(c) && c.well_formed()
            && c.stluna_addr@ == msg.stluna_address@ && c.bluna_addr@ == msg.bluna_address@
            && c.hub_addr@ == msg.hub_address@ && c.owner@ == owner@ && c.block_time_last == 0
            && c.price0_cumulative_last == 0 && c.price1_cumulative_last == 0),
{
    if msg.stluna_address == msg.bluna_address {
        Err(ContractError::InvalidAsset)
    } else {
        Ok(Config {
            block_time_last: 0,
            price0_cumulative_last: 0,
            price1_cumulative_last: 0,
            hub_addr: msg.hub_address,
            stluna_addr: msg.stluna_address,
            bluna_addr: msg.bluna_address,
            owner,
        })
    }
}

/// What a config query reports of a stored config.
pub fn query_config(config: &Config) -> (r: ConfigResponse)
    ensures
        r.hub_address@ == config.hub_addr@,
        r.stluna_address@ == config.stluna_addr@,
        r.bluna_address@ == config.bluna_addr@,
        r.owner@ == config.owner@,
        r.block_time_last == config.block_time_last,
{
    ConfigResponse {
        hub_address: config.hub_addr.clone(),
        stluna_address: config.stluna_addr.clone(),
        bluna_address: config.bluna_addr.clone(),
        owner: config.owner.clone(),
        block_time_last: config.block_time_last,
    }
}

/// Plans a swap for an inbound transfer-with-payload.
///
/// Only a transfer sent by one of the two registered token contracts is
/// accepted; the ask token is the other of the pair, and the proceeds go
/// to the explicit `to` address when one was given, else back to the
/// account that initiated the transfer.
pub fn swap(
    config: &Config,
    offer_token: &String,
    initiator: &String,
    amount: u128,
    to: &Option<String>,
) -> (r: Result<SwapPlan, ContractError>)
    ensures
        (config.stluna_addr@ != offer_token@ && config.bluna_addr@ != offer_token@) ==> r
            == Err::<SwapPlan, ContractError>(ContractError::Unauthorized),
        (config.stluna_addr@ == offer_token@ || config.bluna_addr@ == offer_token@) ==> (r matches
            Ok(plan) && {
            &&& plan.instruction.token_addr@ == offer_token@
            &&& plan.instruction.hub_addr@ == config.hub_addr@
            &&& plan.instruction.amount == amount
            &&& plan.request.ask_addr@ == (if offer_token@ == config.bluna_addr@ {
                config.stluna_addr@
            } else {
                config.bluna_addr@
            })
            &&& plan.request.recipient@ == (match to {
                Some(t) => t@,
                None => initiator@,
            })
        }),
{
    if !(config.stluna_addr == *offer_token || config.bluna_addr == *offer_token) {
        return Err(ContractError::Unauthorized);
    }

    let ask_token_addr = if *offer_token == config.bluna_addr {
        config.stluna_addr.clone()
    } else {
        config.bluna_addr.clone()
    };

    let recipient = match to {
        Some(to_addr) => to_addr.clone(),
        None => initiator.clone(),
    };

    Ok(SwapPlan {
        request: SwapRequest { recipient, ask_addr: ask_token_addr },
        instruction: ConvertInstruction {
            token_addr: offer_token.clone(),
            hub_addr: config.hub_addr.clone(),
            amount,
        },
    })
}

/// Dispatches an inbound transfer-with-payload: a swap payload plans a
/// swap; a liquidity withdrawal is not offered here.
pub fn receive_cw20(
    config: &Config,
    sender_token: &String,
    initiator: &String,
    amount: u128,
    msg: &Cw20HookMsg,
) -> (r: Result<SwapPlan, ContractError>)
    ensures
        (msg matches Cw20HookMsg::WithdrawLiquidity) ==> r == Err::<SwapPlan, ContractError>(
            ContractError::NonSupported,
        ),
        (msg matches Cw20HookMsg::Swap { belief_price, max_spread, to } ==> ({
            &&& ((config.stluna_addr@ != sender_token@ && config.bluna_addr@ != sender_token@)
                ==> r == Err::<SwapPlan, ContractError>(ContractError::Unauthorized))
            &&& ((config.stluna_addr@ == sender_token@ || config.bluna_addr@ == sender_token@)
                ==> (r matches Ok(plan) && {
                &&& plan.instruction.token_addr@ == sender_token@
                &&& plan.instruction.hub_addr@ == config.hub_addr@
                &&& plan.instruction.amount == amount
                &&& plan.request.ask_addr@ == (if sender_token@ == config.bluna_addr@ {
                    config.stluna_addr@
                } else {
                    config.bluna_addr@
                })
                &&& plan.request.recipient@ == (match to {
                    Some(t) => t@,
                    None => initiator@,
                })
            }))
        })),
{
    match msg {
        Cw20HookMsg::Swap { belief_price: _, max_spread: _, to } => {
            swap(config, sender_token, initiator, amount, to)
        },
        Cw20HookMsg::WithdrawLiquidity => Err(ContractError::NonSupported),
    }
}

/// The execute surface: only an inbound transfer-with-payload does any
/// work. Config updates and liquidity operations are not offered, and a
/// direct swap without the token transfer is rejected outright.
pub fn execute(config: &Config, msg: &ExecuteMsg) -> (r: Result<SwapPlan, ContractError>)
    ensures
        (msg matches ExecuteMsg::UpdateConfig) ==> r == Err::<SwapPlan, ContractError>(
            ContractError::NonSupported,
        ),
        (msg matches ExecuteMsg::ProvideLiquidity) ==> r == Err::<SwapPlan, ContractError>(
            ContractError::NonSupported,
        ),
        (msg matches ExecuteMsg::Swap) ==> r == Err::<SwapPlan, ContractError>(
            ContractError::Unauthorized,
        ),
        (msg matches ExecuteMsg::Receive { sender_token, initiator, amount, msg: hook } ==> ({
            &&& (hook matches Cw20HookMsg::WithdrawLiquidity ==> r == Err::<
                SwapPlan,
                ContractError,
            >(ContractError::NonSupported))
            &&& (hook matches Cw20HookMsg::Swap { belief_price, max_spread, to } ==> ({
                &&& ((config.stluna_addr@ != sender_token@ && config.bluna_addr@
                    != sender_token@) ==> r == Err::<SwapPlan, ContractError>(
                    ContractError::Unauthorized,
                ))
                &&& ((config.stluna_addr@ == sender_token@ || config.bluna_addr@
                    == sender_token@) ==> (r matches Ok(plan) && {
                    &&& plan.instruction.token_addr@ == sender_token@
                    &&& plan.instruction.hub_addr@ == config.hub_addr@
                    &&& plan.instruction.amount == amount
                    &&& plan.request.ask_addr@ == (if sender_token@ == config.bluna_addr@ {
                        config.stluna_addr@
                    } else {
                        config.bluna_addr@
                    })
                    &&& plan.request.recipient@ == (match to {
                        Some(t) => t@,
                        None => initiator@,
                    })
                }))
            }))
        })),
{
    match msg {
        ExecuteMsg::UpdateConfig => Err(ContractError::NonSupported),
        ExecuteMsg::ProvideLiquidity => Err(ContractError::NonSupported),
        ExecuteMsg::Swap => Err(ContractError::Unauthorized),
        ExecuteMsg::Receive { sender_token, initiator, amount, msg: hook } => {
            receive_cw20(config, sender_token, initiator, *amount, hook)
        },
    }
}

/// The first value under `key` among the attributes, front to back.
pub open spec fn spec_find_attr_in(attrs: Seq<Attribute>, key: Seq<char>) -> Option<Seq<char>>
    decreases attrs.len(),
{
    if attrs.len() == 0 {
        None
    } else if attrs[0].key@ == key {
        Some(attrs[0].value@)
    } else {
        spec_find_attr_in(attrs.drop_first(), key)
    }
}

/// The first value under `key` over all events, in event order.
pub open spec fn spec_find_attr(events: Seq<Event>, key: Seq<char>) -> Option<Seq<char>>
    decreases events.len(),
{
    if events.len() == 0 {
        None
    } else {
        match spec_find_attr_in(events[0].attributes@, key) {
            Some(v) => Some(v),
            None => spec_find_attr(events.drop_first(), key),
        }
    }
}

/// Scans the callback's events for the first attribute named `key` and
/// hands its value back.
pub fn get_attribute_value_from_events(events: &Vec<Event>, key: &String) -> (r: Option<String>)
    ensures
        match spec_find_attr(events@, key@) {
            Some(v) => r matches Some(rv) && rv@ == v,
            None => r is None,
        },
{
    let ghost all = events@;
    let mut i: usize = 0;
    proof {
        assert(all.skip(0) =~= all);
    }
    while i < events.len()
        invariant
            0 <= i <= all.len(),
            events@ == all,
            spec_find_attr(all, key@) == spec_find_attr(all.skip(i as int), key@),
        decreases all.len() - i,
    {
        let event = &events[i];
        let ghost attrs = event.attributes@;
        proof {
            assert(all.skip(i as int)[0] == all[i as int]);
            assert(attrs.skip(0) =~= attrs);
        }
        let mut j: usize = 0;
        while j < event.attributes.len()
            invariant
                0 <= j <= attrs.len(),
                0 <= i < all.len(),
                events@ == all,
                all[i as int].attributes@ == attrs,
                event.attributes@ == attrs,
                spec_find_attr(all, key@) == spec_find_attr(all.skip(i as int), key@),
                spec_find_attr_in(attrs, key@) == spec_find_attr_in(attrs.skip(j as int), key@),
            decreases attrs.len() - j,
        {
            let attr = &event.attributes[j];
            if attr.key == *key {
                proof {
                    assert(attrs.skip(j as int)[0] == attrs[j as int]);
                    assert(spec_find_attr_in(attrs, key@) == Some(attrs[j as int].value@));
                    assert(all.skip(i as int)[0] == all[i as int]);
                    assert(spec_find_attr(all.skip(i as int), key@) == Some(
                        attrs[j as int].value@,
                    ));
                }
                return Some(attr.value.clone());
            }
            proof {
                assert(attrs.skip(j as int)[0] == attrs[j as int]);
                assert(attrs.skip(j as int).drop_first() =~= attrs.skip(j + 1));
            }
            j += 1;
        }
        proof {
            assert(attrs.skip(attrs.len() as int) =~= Seq::<Attribute>::empty());
            assert(spec_find_attr_in(attrs, key@) is None);
            assert(all.skip(i as int)[0] == all[i as int]);
            assert(all.skip(i as int).drop_first() =~= all.skip(i + 1));
        }
        i += 1;
    }
    proof {
        assert(all.skip(all.len() as int) =~= Seq::<Event>::empty());
    }
    None
}

/// A decimal digit, `'0'` through `'9'`.
pub open spec fn is_dec_digit(c: char) -> bool {
    48 <= c as u32 <= 57
}

/// The numeric value of one decimal digit.
pub open spec fn digit_value(c: char) -> int {
    c as u32 - 48
}

/// Whether every character of `s` is a decimal digit.
pub open spec fn all_dec_digits(s: Seq<char>) -> bool {
    forall|i: int| 0 <= i < s.len() ==> is_dec_digit(#[trigger] s[i])
}

/// The number the digit string `s` denotes, most significant digit first.
pub open spec fn dec_digits_value(s: Seq<char>) -> int
    decreases s.len(),
{
    if s.len() == 0 {
        0
    } else {
        10 * dec_digits_value(s.drop_last()) + digit_value(s.last())
    }
}

/// Whether `s` denotes a number an unsigned 128-bit amount can hold.
pub open spec fn parseable_u128(s: Seq<char>) -> bool {
    s.len() > 0 && all_dec_digits(s) && dec_digits_value(s) <= u128::MAX
}

proof fn lemma_dec_digits_value_nonneg(s: Seq<char>)
    requires
        all_dec_digits(s),
    ensures
        dec_digits_value(s) >= 0,
    decreases s.len(),
{
    if s.len() > 0 {
        assert(all_dec_digits(s.drop_last()));
        lemma_dec_digits_value_nonneg(s.drop_last());
    }
}

proof fn lemma_dec_digits_prefix_le(s: Seq<char>, j: int)
    requires
        all_dec_digits(s),
        0 <= j <= s.len(),
    ensures
        dec_digits_value(s.take(j)) <= dec_digits_value(s),
    decreases s.len() - j,
{
    if j == s.len() {
        assert(s.take(j) =~= s);
    } else {
        assert(s.take(j + 1).drop_last() =~= s.take(j));
        assert(all_dec_digits(s.take(j)));
        lemma_dec_digits_value_nonneg(s.take(j));
        assert(dec_digits_value(s.take(j + 1)) == 10 * dec_digits_value(s.take(j)) + digit_value(
            s[j],
        ));
        lemma_dec_digits_prefix_le(s, j + 1);
    }
}

/// Reads a bare decimal number, as token amounts appear in event
/// attributes: at least one digit, digits only, within 128 bits.
pub fn parse_uint128(s: &str) -> (r: Option<u128>)
    ensures
        (r is Some) <==> parseable_u128(s@),
        r matches Some(v) ==> v == dec_digits_value(s@),
{
    let len = s.unicode_len();
    if len == 0 {
        return None;
    }
    let mut value: u128 = 0;
    let mut i: usize = 0;
    while i < len
        invariant
            0 <= i <= len,
            len == s@.len(),
            all_dec_digits(s@.take(i as int)),
            value == dec_digits_value(s@.take(i as int)),
        decreases len - i,
    {
        let c = s.get_char(i);
        let code: u32 = c as u32;
        if code < 48 || code > 57 {
            proof {
                assert(!is_dec_digit(s@[i as int]));
            }
            return None;
        }
        let d: u128 = (code - 48) as u128;
        proof {
            assert(s@.take(i + 1).drop_last() =~= s@.take(i as int));
            assert(s@.take(i + 1).last() == s@[i as int]);
            assert(all_dec_digits(s@.take(i + 1)));
            assert(dec_digits_value(s@.take(i + 1)) == 10 * dec_digits_value(s@.take(i as int))
                + digit_value(s@[i as int]));
        }
        match value.checked_mul(10) {
            Some(v10) => {
                match v10.checked_add(d) {
                    Some(v) => {
                        value = v;
                    },
                    None => {
                        proof {
                            if all_dec_digits(s@) {
                                lemma_dec_digits_prefix_le(s@, i + 1);
                            }
                        }
                        return None;
                    },
                }
            },
            None => {
                proof {
                    if all_dec_digits(s@) {
                        lemma_dec_digits_prefix_le(s@, i + 1);
                    }
                }
                return None;
            },
        }
        i += 1;
    }
    proof {
        assert(s@.take(len as int) =~= s@);
    }
    Some(value)
}

/// What a successful settlement must look like for a given attribute key:
/// the first value under the key, read as an amount, transferred in the
/// ask token to the recorded recipient; a missing or unreadable value is
/// the callback-data error.
pub open spec fn settle_outcome_matches(
    r: Result<Transfer, ContractError>,
    events: Seq<Event>,
    key: Seq<char>,
    request: SwapRequest,
) -> bool {
    match spec_find_attr(events, key) {
        None => r == Err::<Transfer, ContractError>(ContractError::CallbackDataMissing),
        Some(v) => if parseable_u128(v) {
            r matches Ok(t) && t.token_addr@ == request.ask_addr@ && t.recipient@
                == request.recipient@ && t.amount == dec_digits_value(v)
        } else {
            r == Err::<Transfer, ContractError>(ContractError::CallbackDataMissing)
        },
    }
}

/// Settles a pending swap from its conversion callback.
///
/// On success the hub's events carry the converted amount under
/// `bluna_amount` or `stluna_amount`, according to the pending ask token;
/// that amount is transferred to the recorded recipient. A failed
/// sub-call settles nothing: the error aborts the transaction, so the
/// pending record stays as it was and no message leaves.
pub fn reply(config: &Config, request: &SwapRequest, result: &ReplyResult) -> (r: Result<
    Transfer,
    ContractError,
>)
    ensures
        (result matches ReplyResult::Failure) ==> r == Err::<Transfer, ContractError>(
            ContractError::QueryFailure,
        ),
        (result matches ReplyResult::Success { events } ==> {
            if request.ask_addr@ == config.bluna_addr@ {
                settle_outcome_matches(r, events@, "bluna_amount"@, *request)
            } else if request.ask_addr@ == config.stluna_addr@ {
                settle_outcome_matches(r, events@, "stluna_amount"@, *request)
            } else {
                r == Err::<Transfer, ContractError>(ContractError::InvalidAsset)
            }
        }),
{
    let events = match result {
        ReplyResult::Success { events } => events,
        ReplyResult::Failure => {
            return Err(ContractError::QueryFailure);
        },
    };

    let attr_key: String = if request.ask_addr == config.bluna_addr {
        String::from_str("bluna_amount")
    } else if request.ask_addr == config.stluna_addr {
        String::from_str("stluna_amount")
    } else {
        return Err(ContractError::InvalidAsset);
    };

    let return_amount = match get_attribute_value_from_events(events, &attr_key) {
        Some(v) => v,
        None => {
            return Err(ContractError::CallbackDataMissing);
        },
    };

    let amount = match parse_uint128(return_amount.as_str()) {
        Some(a) => a,
        None => {
            return Err(ContractError::CallbackDataMissing);
        },
    };

    Ok(Transfer {
        token_addr: request.ask_addr.clone(),
        recipient: request.recipient.clone(),
        amount,
    })
}

} // verus!
