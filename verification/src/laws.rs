//! What holds of the handlers on every state and every call.

use vstd::prelude::*;
use crate::contract::{
    accepted, add_members_spec, all_valid, donate_spec, execute_spec, fails_with, first_repeat,
    fresh, leave_spec, repeats, shares, without,
};
use crate::error::{ContractError, ErrorView};
use crate::msg::ExecuteMsg;
use crate::response::{total, Response};
use crate::state::{attached, Coin, MessageInfo, State};

verus! {

/// A caller that is not in the registry cannot add members: whatever the
/// batch, the command fails with `Unauthorized`, which names the caller, and
/// the state stays as it was.
pub proof fn outsider_cannot_add(
    before: State,
    sender: Seq<char>,
    v: Seq<Result<Seq<char>, Seq<char>>>,
    after: State,
    r: Result<Response, ContractError>,
)
    requires
        !before.registry().contains(sender),
        add_members_spec(before, sender, v, after, r),
    ensures
        fails_with(r, ErrorView::Unauthorized { sender }),
        after == before,
{
}

/// An admin who adds one address that is in the registry already gets
/// `AdminAlreadyExists`, which names that address, and the state stays as it
/// was.
pub proof fn member_cannot_be_added_again(
    before: State,
    sender: Seq<char>,
    admin: Seq<char>,
    after: State,
    r: Result<Response, ContractError>,
)
    requires
        before.registry().contains(sender),
        before.registry().contains(admin),
        add_members_spec(before, sender, seq![Ok(admin)], after, r),
    ensures
        fails_with(r, ErrorView::AdminAlreadyExists { admin }),
        after == before,
{
    let v: Seq<Result<Seq<char>, Seq<char>>> = seq![Ok(admin)];
    let reg = before.registry();
    let batch = accepted(v);
    assert(all_valid(v));
    assert(batch[0] == admin);
    assert(repeats(reg, batch, 0));
    assert(!fresh(reg, batch));
    let i = choose|i: int| #[trigger]
        first_repeat(reg, batch, i) && fails_with(
            r,
            ErrorView::AdminAlreadyExists { admin: batch[i] },
        );
    assert(i == 0);
}

/// A batch of which any address is in the registry already, or comes twice,
/// adds nothing: the command fails and the state stays as it was.
pub proof fn repeat_fails_whole_batch(
    before: State,
    sender: Seq<char>,
    v: Seq<Result<Seq<char>, Seq<char>>>,
    after: State,
    r: Result<Response, ContractError>,
)
    requires
        !fresh(before.registry(), accepted(v)),
        add_members_spec(before, sender, v, after, r),
    ensures
        r is Err,
        after == before,
{
}

/// A registry without repeated addresses has none after `AddMembers`,
/// whether the command succeeds or fails.
pub proof fn add_members_keeps_distinct(
    before: State,
    sender: Seq<char>,
    v: Seq<Result<Seq<char>, Seq<char>>>,
    after: State,
    r: Result<Response, ContractError>,
)
    requires
        before.distinct(),
        add_members_spec(before, sender, v, after, r),
    ensures
        after.distinct(),
{
    let reg = before.registry();
    let batch = accepted(v);
    if reg.contains(sender) && all_valid(v) && fresh(reg, batch) {
        let all = reg + batch;
        assert forall|i: int, j: int| 0 <= i < all.len() && 0 <= j < all.len() && i != j implies all[i]
            != all[j] by {
            let (lo, hi) = if i < j {
                (i, j)
            } else {
                (j, i)
            };
            if hi >= reg.len() {
                let k = hi - reg.len();
                assert(!repeats(reg, batch, k));
                if lo < reg.len() {
                    assert(reg[lo] == all[lo]);
                } else {
                    assert(batch.take(k)[lo - reg.len()] == all[lo]);
                }
            }
        }
    }
}

/// The members of a registry without `who` are the other members of the
/// registry.
pub proof fn without_members(reg: Seq<Seq<char>>, who: Seq<char>)
    ensures
        !without(reg, who).contains(who),
        forall|a: Seq<char>| a != who ==> (without(reg, who).contains(a) <==> reg.contains(a)),
        !reg.contains(who) ==> without(reg, who) == reg,
        reg.no_duplicates() ==> without(reg, who).no_duplicates(),
    decreases reg.len(),
{
    reveal(Seq::filter);
    if reg.len() > 0 {
        let front = reg.drop_last();
        let x = reg.last();
        without_members(front, who);
        let sub = without(front, who);
        assert(without(reg, who) == if x != who {
            sub.push(x)
        } else {
            sub
        });
        assert forall|a: Seq<char>| reg.contains(a) <==> (front.contains(a) || a == x) by {
            if reg.contains(a) {
                let i = choose|i: int| 0 <= i < reg.len() && reg[i] == a;
                if i < reg.len() - 1 {
                    assert(front[i] == a);
                }
            }
            if front.contains(a) {
                let i = choose|i: int| 0 <= i < front.len() && front[i] == a;
                assert(reg[i] == a);
            }
            if a == x {
                assert(reg[reg.len() - 1] == a);
            }
        }
        if x != who {
            assert forall|a: Seq<char>| sub.push(x).contains(a) <==> (sub.contains(a) || a == x) by {
                if sub.push(x).contains(a) {
                    let i = choose|i: int| 0 <= i < sub.push(x).len() && sub.push(x)[i] == a;
                    if i < sub.len() {
                        assert(sub[i] == a);
                    }
                }
                if sub.contains(a) {
                    let i = choose|i: int| 0 <= i < sub.len() && sub[i] == a;
                    assert(sub.push(x)[i] == a);
                }
                if a == x {
                    assert(sub.push(x)[sub.len() as int] == a);
                }
            }
            if !reg.contains(who) {
                assert(sub.push(x) =~= reg);
            }
            if reg.no_duplicates() {
                assert(front.no_duplicates());
                assert(!front.contains(x)) by {
                    if front.contains(x) {
                        let i = choose|i: int| 0 <= i < front.len() && front[i] == x;
                        assert(reg[i] == reg[reg.len() - 1]);
                    }
                }
                assert(!sub.contains(x));
                assert(sub.push(x).no_duplicates());
            }
        } else {
            if reg.no_duplicates() {
                assert(front.no_duplicates());
            }
        }
    } else {
        assert(without(reg, who) =~= reg);
    }
}

/// After `Leave` the caller is no member, every other member is one still,
/// and nobody has joined. A registry without repeated addresses has none
/// afterwards.
pub proof fn leave_removes_caller(
    before: State,
    sender: Seq<char>,
    after: State,
    r: Result<Response, ContractError>,
)
    requires
        leave_spec(before, sender, after, r),
    ensures
        r is Ok,
        !after.registry().contains(sender),
        forall|a: Seq<char>|
            a != sender ==> (after.registry().contains(a) <==> before.registry().contains(a)),
        before.distinct() ==> after.distinct(),
{
    without_members(before.registry(), sender);
}

/// `Leave` by a caller that is no member changes nothing in the registry.
pub proof fn leave_by_outsider_is_noop(
    before: State,
    sender: Seq<char>,
    after: State,
    r: Result<Response, ContractError>,
)
    requires
        !before.registry().contains(sender),
        leave_spec(before, sender, after, r),
    ensures
        after.registry() == before.registry(),
        after.denom() == before.denom(),
{
    without_members(before.registry(), sender);
}

/// `Leave` twice in a row ends where `Leave` once ends.
pub proof fn leave_is_idempotent(
    before: State,
    sender: Seq<char>,
    once: State,
    first: Result<Response, ContractError>,
    twice: State,
    second: Result<Response, ContractError>,
)
    requires
        leave_spec(before, sender, once, first),
        leave_spec(once, sender, twice, second),
    ensures
        twice.registry() == once.registry(),
        twice.denom() == once.denom(),
{
    without_members(before.registry(), sender);
    without_members(once.registry(), sender);
}

/// Equal payouts add up to the share times the number of recipients.
pub proof fn total_of_shares(reg: Seq<Seq<char>>, denom: Seq<char>, share: nat)
    ensures
        total(shares(reg, denom, share)) == reg.len() * share,
    decreases reg.len(),
{
    let paid = shares(reg, denom, share);
    if reg.len() > 0 {
        total_of_shares(reg.drop_last(), denom, share);
        assert(paid.drop_last() =~= shares(reg.drop_last(), denom, share));
        assert(paid.last().2 == share);
        assert(total(paid) == total(paid.drop_last()) + share);
        assert(reg.len() * share == (reg.len() - 1) * share + share) by (nonlinear_arith);
    } else {
        assert(total(paid) == 0);
        assert(reg.len() * share == 0) by (nonlinear_arith)
            requires
                reg.len() == 0,
        ;
    }
}

/// A donation of `A` to a registry of `N` admins, `N` above zero, pays each
/// admin the whole part of `A / N` in the donation denomination, and the
/// payouts together with the remainder of that division are `A`: nothing is
/// made and nothing is lost.
pub proof fn donation_is_conserved(state: State, funds: Seq<Coin>, r: Result<Response, ContractError>)
    requires
        state.registry().len() > 0,
        donate_spec(state, funds, r),
    ensures
        r is Ok,
        r->Ok_0@.messages.len() == state.registry().len(),
        forall|i: int|
            0 <= i < state.registry().len() ==> #[trigger] r->Ok_0@.messages[i] == (
                state.registry()[i],
                state.denom(),
                attached(funds, state.denom()) / state.registry().len(),
            ),
        total(r->Ok_0@.messages) + attached(funds, state.denom()) % state.registry().len()
            == attached(funds, state.denom()),
        attached(funds, state.denom()) % state.registry().len() < state.registry().len(),
{
    let reg = state.registry();
    let amount = attached(funds, state.denom());
    let n = reg.len();
    total_of_shares(reg, state.denom(), amount / n);
    vstd::arithmetic::div_mod::lemma_fundamental_div_mod(amount as int, n as int);
    assert(n * (amount / n) + amount % n == amount);
}

/// No command changes the donation denomination, and none but `AddMembers`
/// and `Leave` changes the registry.
pub proof fn denomination_is_fixed(
    before: State,
    info: MessageInfo,
    msg: ExecuteMsg,
    v: Seq<Result<Seq<char>, Seq<char>>>,
    after: State,
    r: Result<Response, ContractError>,
)
    requires
        execute_spec(before, info, msg, v, after, r),
    ensures
        after.denom() == before.denom(),
        msg is Donate ==> after.registry() == before.registry(),
{
}

} // verus!
