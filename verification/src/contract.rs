//! The handlers: instantiation, the three commands and the two queries.

use vstd::prelude::*;
use vstd::string::*;
use crate::error::{ContractError, ErrorView};
use crate::msg::{
    verdicts, AdminListResp, ExecuteMsg, GreetResp, InstantiateMsg, QueryMsg, QueryResp, Verdict,
};
use crate::response::{decimal, decimal_text, Attribute, Event, Payout, Response, ResponseView};
use crate::state::{attached, names, Coin, MessageInfo, State};

verus! {

/// Every address of the list was accepted.
pub open spec fn all_valid(v: Seq<Result<Seq<char>, Seq<char>>>) -> bool {
    forall|i: int| 0 <= i < v.len() ==> (#[trigger] v[i]) is Ok
}

/// The verdict at `i` is the first refusal of the list.
pub open spec fn first_refused(v: Seq<Result<Seq<char>, Seq<char>>>, i: int) -> bool {
    &&& 0 <= i < v.len()
    &&& v[i] is Err
    &&& forall|j: int| 0 <= j < i ==> (#[trigger] v[j]) is Ok
}

/// The validated addresses of a list of verdicts that holds no refusal.
pub open spec fn accepted(v: Seq<Result<Seq<char>, Seq<char>>>) -> Seq<Seq<char>> {
    Seq::new(v.len(), |i: int| v[i]->Ok_0)
}

/// The result is the error `e`.
pub open spec fn fails_with<T>(r: Result<T, ContractError>, e: ErrorView) -> bool {
    r matches Err(x) && x@ == e
}

/// The result is the validation error that carries the reason of the first
/// refusal of the list.
pub open spec fn refused<T>(
    v: Seq<Result<Seq<char>, Seq<char>>>,
    r: Result<T, ContractError>,
) -> bool {
    exists|i: int| #[trigger]
        first_refused(v, i) && fails_with(r, ErrorView::Validation { reason: v[i]->Err_0 })
}

/// Whether `x` is among the first `upto` strings of `v`.
fn found(v: &Vec<String>, upto: usize, x: &String) -> (r: bool)
    requires
        upto <= v.len(),
    ensures
        r == names(v@).take(upto as int).contains(x@),
{
    let mut i: usize = 0;
    while i < upto
        invariant
            i <= upto <= v.len(),
            forall|j: int| 0 <= j < i ==> names(v@)[j] != x@,
        decreases upto - i,
    {
        if v[i] == *x {
            assert(names(v@).take(upto as int)[i as int] == x@);
            return true;
        }
        i += 1;
    }
    false
}

/// The authorization rule: a caller may change the registry exactly when it
/// is one of its members.
pub fn is_authorized(admins: &Vec<String>, caller: &String) -> (r: bool)
    ensures
        r == names(admins@).contains(caller@),
{
    assert(names(admins@).take(admins.len() as int) =~= names(admins@));
    found(admins, admins.len(), caller)
}

/// Gathers the validated addresses, all or nothing: the first refusal fails
/// the whole list with the host's reason.
pub fn validate_all(validated: &Vec<Verdict>) -> (r: Result<Vec<String>, ContractError>)
    ensures
        all_valid(verdicts(validated@)) ==> (r matches Ok(addrs) && names(addrs@) == accepted(
            verdicts(validated@),
        )),
        !all_valid(verdicts(validated@)) ==> refused(verdicts(validated@), r),
{
    let ghost vv = verdicts(validated@);
    let mut addrs: Vec<String> = Vec::new();
    let mut i: usize = 0;
    while i < validated.len()
        invariant
            i <= validated.len(),
            vv == verdicts(validated@),
            addrs.len() == i,
            forall|j: int| 0 <= j < i ==> (#[trigger] vv[j]) is Ok,
            forall|j: int| 0 <= j < i ==> (#[trigger] addrs[j])@ == vv[j]->Ok_0,
        decreases validated.len() - i,
    {
        match &validated[i] {
            Ok(addr) => {
                addrs.push(addr.clone());
            },
            Err(reason) => {
                assert(first_refused(vv, i as int));
                return Err(ContractError::Validation { reason: reason.clone() });
            },
        }
        i += 1;
    }
    assert(names(addrs@) =~= accepted(vv));
    Ok(addrs)
}

/// Creates the stored state.
///
/// `validated` holds the host's verdict on each address of `msg.admins`, in
/// that order. One refusal fails the instantiation with the first refusal's
/// reason. Else the registry is the validated list as it stands: an address
/// given twice stands in it twice.
pub fn instantiate(msg: InstantiateMsg, validated: Vec<Verdict>) -> (r: Result<
    State,
    ContractError,
>)
    ensures
        all_valid(verdicts(validated@)) ==> (r matches Ok(state) && state.registry() == accepted(
            verdicts(validated@),
        ) && state.denom() == msg.donation_denom@),
        !all_valid(verdicts(validated@)) ==> refused(verdicts(validated@), r),
{
    match validate_all(&validated) {
        Ok(admins) => Ok(State { admins, donation_denom: msg.donation_denom }),
        Err(e) => Err(e),
    }
}

/// The address at `i` of a batch stands in the registry already, or earlier
/// in the batch.
pub open spec fn repeats(reg: Seq<Seq<char>>, batch: Seq<Seq<char>>, i: int) -> bool {
    reg.contains(batch[i]) || batch.take(i).contains(batch[i])
}

/// No address of the batch stands in the registry, and none comes twice.
pub open spec fn fresh(reg: Seq<Seq<char>>, batch: Seq<Seq<char>>) -> bool {
    forall|i: int| 0 <= i < batch.len() ==> !#[trigger] repeats(reg, batch, i)
}

/// The address at `i` is the first of the batch that repeats.
pub open spec fn first_repeat(reg: Seq<Seq<char>>, batch: Seq<Seq<char>>, i: int) -> bool {
    &&& 0 <= i < batch.len()
    &&& repeats(reg, batch, i)
    &&& forall|j: int| 0 <= j < i ==> !#[trigger] repeats(reg, batch, j)
}

/// The result is the error that names the first repeated address of the batch.
pub open spec fn repeated<T>(
    reg: Seq<Seq<char>>,
    batch: Seq<Seq<char>>,
    r: Result<T, ContractError>,
) -> bool {
    exists|i: int| #[trigger]
        first_repeat(reg, batch, i) && fails_with(
            r,
            ErrorView::AdminAlreadyExists { admin: batch[i] },
        )
}

/// What a successful `AddMembers` reports: one `admin_added` event for each
/// new admin, in order, and the action with the number added.
pub open spec fn added(batch: Seq<Seq<char>>) -> ResponseView {
    ResponseView {
        messages: Seq::empty(),
        attributes: seq![
            ("action"@, "add_members"@),
            ("added_count"@, decimal_text(batch.len())),
        ],
        events: Seq::new(batch.len(), |i: int| ("admin_added"@, seq![("addr"@, batch[i])])),
    }
}

/// What `AddMembers` does, from the state before it to the state after it and
/// the result: the checks in their order, and the outcome of each.
pub open spec fn add_members_spec(
    before: State,
    sender: Seq<char>,
    v: Seq<Result<Seq<char>, Seq<char>>>,
    after: State,
    r: Result<Response, ContractError>,
) -> bool {
    let reg = before.registry();
    if !reg.contains(sender) {
        fails_with(r, ErrorView::Unauthorized { sender }) && after == before
    } else if !all_valid(v) {
        refused(v, r) && after == before
    } else if !fresh(reg, accepted(v)) {
        repeated(reg, accepted(v), r) && after == before
    } else {
        &&& r matches Ok(resp) && resp@ == added(accepted(v))
        &&& after.registry() == reg + accepted(v)
        &&& after.denom() == before.denom()
    }
}

/// The index of the first address of the batch that repeats, if any does.
fn first_repeated(admins: &Vec<String>, batch: &Vec<String>) -> (r: Option<usize>)
    ensures
        fresh(names(admins@), names(batch@)) ==> r is None,
        !fresh(names(admins@), names(batch@)) ==> (r matches Some(i) && first_repeat(
            names(admins@),
            names(batch@),
            i as int,
        )),
{
    let mut i: usize = 0;
    while i < batch.len()
        invariant
            i <= batch.len(),
            forall|j: int| 0 <= j < i ==> !#[trigger] repeats(names(admins@), names(batch@), j),
        decreases batch.len() - i,
    {
        let in_registry = is_authorized(admins, &batch[i]);
        let earlier = found(batch, i, &batch[i]);
        if in_registry || earlier {
            assert(repeats(names(admins@), names(batch@), i as int));
            return Some(i);
        }
        i += 1;
    }
    None
}

/// One `admin_added` event for each address of the batch, in order.
fn added_events(batch: &Vec<String>) -> (r: Vec<Event>)
    ensures
        crate::response::events(r@) == added(names(batch@)).events,
{
    let mut out: Vec<Event> = Vec::new();
    let mut i: usize = 0;
    while i < batch.len()
        invariant
            i <= batch.len(),
            out.len() == i,
            forall|j: int|
                0 <= j < i ==> (#[trigger] out[j])@ == ("admin_added"@, seq![("addr"@, batch[j]@)]),
        decreases batch.len() - i,
    {
        let mut attributes: Vec<Attribute> = Vec::new();
        attributes.push(Attribute { key: String::from_str("addr"), value: batch[i].clone() });
        let ev = Event { ty: String::from_str("admin_added"), attributes };
        assert(ev@.1 =~= seq![("addr"@, batch[i as int]@)]);
        out.push(ev);
        i += 1;
    }
    assert(crate::response::events(out@) =~= added(names(batch@)).events);
    out
}

/// Adds a batch of validated addresses to the registry, all or nothing.
///
/// `validated` holds the host's verdict on each address of the command, in
/// the command's order. The caller must be an admin; no address may have been
/// refused; none may stand in the registry or twice in the batch. The checks
/// come in this order and the first that fails decides the error. A call
/// that fails leaves the state as it was.
pub fn add_members(state: &mut State, info: MessageInfo, validated: Vec<Verdict>) -> (r: Result<
    Response,
    ContractError,
>)
    ensures
        add_members_spec(*old(state), info.sender@, verdicts(validated@), *final(state), r),
{
    if !is_authorized(&state.admins, &info.sender) {
        return Err(ContractError::Unauthorized { sender: info.sender });
    }
    let mut batch = match validate_all(&validated) {
        Ok(batch) => batch,
        Err(e) => {
            return Err(e);
        },
    };
    match first_repeated(&state.admins, &batch) {
        Some(i) => {
            return Err(ContractError::AdminAlreadyExists { admin: batch[i].clone() });
        },
        None => {},
    }
    let events = added_events(&batch);
    let mut attributes: Vec<Attribute> = Vec::new();
    attributes.push(
        Attribute { key: String::from_str("action"), value: String::from_str("add_members") },
    );
    attributes.push(
        Attribute { key: String::from_str("added_count"), value: decimal(batch.len()) },
    );
    let resp = Response { messages: Vec::new(), attributes, events };
    let ghost reg = state.registry();
    let ghost new = names(batch@);
    state.admins.append(&mut batch);
    proof {
        assert(state.registry() =~= reg + new);
        assert(resp@.messages =~= added(new).messages);
        assert(resp@.attributes =~= added(new).attributes);
    }
    Ok(resp)
}

/// The registry without the address `who`, the others in their order.
pub open spec fn without(reg: Seq<Seq<char>>, who: Seq<char>) -> Seq<Seq<char>> {
    reg.filter(|a: Seq<char>| a != who)
}

/// What `Leave` does: the caller is gone from the registry, nothing else
/// changes, and the call succeeds with nothing to report.
pub open spec fn leave_spec(
    before: State,
    sender: Seq<char>,
    after: State,
    r: Result<Response, ContractError>,
) -> bool {
    &&& r matches Ok(resp) && resp@ == ResponseView::nothing()
    &&& after.registry() == without(before.registry(), sender)
    &&& after.denom() == before.denom()
}

/// Takes the caller out of the registry. A caller that is no member changes
/// nothing; the call never fails.
pub fn leave(state: &mut State, info: MessageInfo) -> (r: Result<Response, ContractError>)
    ensures
        leave_spec(*old(state), info.sender@, *final(state), r),
{
    let ghost reg = state.registry();
    let ghost keep = |a: Seq<char>| a != info.sender@;
    let mut rest: Vec<String> = Vec::new();
    let mut i: usize = 0;
    proof {
        reveal(Seq::filter);
        assert(names(rest@) =~= reg.take(0).filter(keep));
    }
    while i < state.admins.len()
        invariant
            i <= state.admins.len(),
            reg == names(state.admins@),
            keep == |a: Seq<char>| a != info.sender@,
            names(rest@) == reg.take(i as int).filter(keep),
        decreases state.admins.len() - i,
    {
        let ghost prev = names(rest@);
        if state.admins[i] != info.sender {
            rest.push(state.admins[i].clone());
        }
        proof {
            reveal(Seq::filter);
            assert(reg.take(i + 1).drop_last() =~= reg.take(i as int));
            assert(reg.take(i + 1).last() == reg[i as int]);
            assert(names(rest@) =~= if keep(reg[i as int]) {
                prev.push(reg[i as int])
            } else {
                prev
            });
        }
        i += 1;
    }
    assert(reg.take(i as int) =~= reg);
    state.admins = rest;
    Ok(Response::new())
}

/// The equal split of an amount among `count` recipients: the share of each,
/// rounded down, and what is left over. There is no split among none.
pub fn split(amount: u128, count: usize) -> (r: Option<(u128, u128)>)
    ensures
        count == 0 ==> r is None,
        count > 0 ==> (r matches Some(parts) && parts.0 == amount / (count as u128) && parts.1
            == amount % (count as u128) && parts.0 * count + parts.1 == amount && parts.1 < count),
{
    if count == 0 {
        None
    } else {
        let n: u128 = count as u128;
        proof {
            vstd::arithmetic::div_mod::lemma_fundamental_div_mod(amount as int, n as int);
            vstd::arithmetic::mul::lemma_mul_is_commutative(n as int, (amount / n) as int);
        }
        Some((amount / n, amount % n))
    }
}

/// The amount that the funds of a call carry in `denom`; coins of other
/// denominations are passed over.
pub fn attached_amount(funds: &Vec<Coin>, denom: &String) -> (r: u128)
    ensures
        r == attached(funds@, denom@),
{
    let mut i: usize = 0;
    assert(funds@.skip(0) =~= funds@);
    while i < funds.len()
        invariant
            i <= funds.len(),
            attached(funds@, denom@) == attached(funds@.skip(i as int), denom@),
        decreases funds.len() - i,
    {
        if funds[i].denom == *denom {
            return funds[i].amount;
        }
        assert(funds@.skip(i as int).drop_first() =~= funds@.skip(i + 1));
        i += 1;
    }
    0
}

/// One payout of `share` in `denom` to each admin, in registry order.
pub open spec fn shares(reg: Seq<Seq<char>>, denom: Seq<char>, share: nat) -> Seq<
    (Seq<char>, Seq<char>, nat),
> {
    Seq::new(reg.len(), |i: int| (reg[i], denom, share))
}

/// What `Donate` does: with no admin the call is refused; else each admin is
/// paid the amount attached in the donation denomination divided by the
/// number of admins, rounded down. What is left over is paid to nobody.
pub open spec fn donate_spec(state: State, funds: Seq<Coin>, r: Result<Response, ContractError>) -> bool {
    let reg = state.registry();
    let amount = attached(funds, state.denom());
    if reg.len() == 0 {
        fails_with(r, ErrorView::NoRecipients)
    } else {
        r matches Ok(resp) && resp@ == (ResponseView {
            messages: shares(reg, state.denom(), amount / reg.len()),
            attributes: Seq::empty(),
            events: Seq::empty(),
        })
    }
}

/// Splits the donation attached to the call evenly among the admins. The
/// registry does not change.
pub fn donate(state: &State, info: MessageInfo) -> (r: Result<Response, ContractError>)
    ensures
        donate_spec(*state, info.funds@, r),
{
    let amount = attached_amount(&info.funds, &state.donation_denom);
    let share = match split(amount, state.admins.len()) {
        Some(parts) => parts.0,
        None => {
            return Err(ContractError::NoRecipients);
        },
    };
    let mut messages: Vec<Payout> = Vec::new();
    let mut i: usize = 0;
    while i < state.admins.len()
        invariant
            i <= state.admins.len(),
            messages.len() == i,
            forall|j: int|
                0 <= j < i ==> (#[trigger] messages[j])@ == (
                    state.admins[j]@,
                    state.donation_denom@,
                    share as nat,
                ),
        decreases state.admins.len() - i,
    {
        messages.push(
            Payout {
                to: state.admins[i].clone(),
                denom: state.donation_denom.clone(),
                amount: share,
            },
        );
        i += 1;
    }
    let resp = Response { messages, attributes: Vec::new(), events: Vec::new() };
    proof {
        assert(resp@.messages =~= shares(state.registry(), state.denom(), share as nat));
        assert(resp@.attributes =~= Seq::empty());
        assert(resp@.events =~= Seq::empty());
    }
    Ok(resp)
}

/// What a command does, by its kind.
pub open spec fn execute_spec(
    before: State,
    info: MessageInfo,
    msg: ExecuteMsg,
    v: Seq<Result<Seq<char>, Seq<char>>>,
    after: State,
    r: Result<Response, ContractError>,
) -> bool {
    match msg {
        ExecuteMsg::AddMembers { .. } => add_members_spec(before, info.sender@, v, after, r),
        ExecuteMsg::Leave {} => leave_spec(before, info.sender@, after, r),
        ExecuteMsg::Donate {} => donate_spec(before, info.funds@, r) && after == before,
    }
}

/// Runs one command against the state.
///
/// `validated` holds the host's verdict on each address that an `AddMembers`
/// command names, in the command's order; the other commands do not read it.
/// A command that fails leaves the state as it was.
pub fn execute(state: &mut State, info: MessageInfo, msg: ExecuteMsg, validated: Vec<Verdict>) -> (r:
    Result<Response, ContractError>)
    ensures
        execute_spec(*old(state), info, msg, verdicts(validated@), *final(state), r),
        r is Err ==> *final(state) == *old(state),
{
    match msg {
        ExecuteMsg::AddMembers { .. } => add_members(state, info, validated),
        ExecuteMsg::Leave {} => leave(state, info),
        ExecuteMsg::Donate {} => donate(state, info),
    }
}

/// The greeting.
pub fn greet() -> (r: GreetResp)
    ensures
        r.message@ == "Hello World"@,
{
    GreetResp { message: String::from_str("Hello World") }
}

/// The registry as it is stored, in stored order.
pub fn admin_list(state: &State) -> (r: AdminListResp)
    ensures
        names(r.admins@) == state.registry(),
{
    let mut admins: Vec<String> = Vec::new();
    let mut i: usize = 0;
    while i < state.admins.len()
        invariant
            i <= state.admins.len(),
            admins.len() == i,
            forall|j: int| 0 <= j < i ==> (#[trigger] admins[j])@ == state.admins[j]@,
        decreases state.admins.len() - i,
    {
        admins.push(state.admins[i].clone());
        i += 1;
    }
    assert(names(admins@) =~= state.registry());
    AdminListResp { admins }
}

/// What a query answers, by its kind.
pub open spec fn query_spec(state: State, msg: QueryMsg, r: QueryResp) -> bool {
    match msg {
        QueryMsg::Greet {} => r matches QueryResp::Greet(g) && g.message@ == "Hello World"@,
        QueryMsg::AdminList {} => r matches QueryResp::AdminList(l) && names(l.admins@)
            == state.registry(),
    }
}

/// Answers one query. The state is only read.
pub fn query(state: &State, msg: QueryMsg) -> (r: QueryResp)
    ensures
        query_spec(*state, msg, r),
{
    match msg {
        QueryMsg::Greet {} => QueryResp::Greet(greet()),
        QueryMsg::AdminList {} => QueryResp::AdminList(admin_list(state)),
    }
}

} // verus!
