//! The lifecycle's laws, stated over the same transition predicates the
//! operations' contracts use, and proved once and for all.

use vstd::prelude::*;

verus! {

use crate::AccountId;
use crate::Context;
use crate::Contract;
use crate::ResolveOutcome;
use crate::SnipeId;
use crate::SnipeOpened;
use crate::SnipeStatus;
use crate::TokenId;
use crate::delete_allowed;
use crate::dispatch_allowed;
use crate::events::LogBuyToken;
use crate::events::SnipeNearEventKind;
use crate::is_terminal;
use crate::opened;
use crate::resolve_allowed;
use crate::resolved_failure;
use crate::resolved_success;

/// Law: the ids of two successive successful opens are consecutive, hence
/// strictly increasing — over any run of opens the returned ids are
/// pairwise distinct.
pub proof fn lemma_open_ids_strictly_increase(
    c0: Contract,
    c1: Contract,
    c2: Contract,
    ctx1: Context,
    ctx2: Context,
    contract_id1: AccountId,
    token_id1: Option<TokenId>,
    memo1: Option<String>,
    contract_id2: AccountId,
    token_id2: Option<TokenId>,
    memo2: Option<String>,
    out1: SnipeOpened,
    out2: SnipeOpened,
)
    requires
        opened(c0, c1, ctx1, contract_id1, token_id1, memo1, out1),
        opened(c1, c2, ctx2, contract_id2, token_id2, memo2, out2),
    ensures
        out2.snipe_id == out1.snipe_id + 1,
        out2.snipe_id > out1.snipe_id,
{
}

/// Law: an open returns an id strictly above every id already in the
/// store, and that id then names the fresh record — ids are never reused.
pub proof fn lemma_open_id_fresh(
    pre: Contract,
    post: Contract,
    ctx: Context,
    contract_id: AccountId,
    token_id: Option<TokenId>,
    memo: Option<String>,
    out: SnipeOpened,
)
    requires
        opened(pre, post, ctx, contract_id, token_id, memo, out),
    ensures
        forall|id: SnipeId| pre.spec_has_snipe(id) ==> out.snipe_id > id,
        post.spec_has_snipe(out.snipe_id),
        !pre.spec_has_snipe(out.snipe_id),
{
}

/// Law: a delete succeeds only from `Waiting`. In any other status the
/// guard refuses — whoever calls, whatever they attach — and the delete
/// operation's contract then leaves record, index and funds untouched.
pub proof fn lemma_delete_only_from_waiting(pre: Contract, ctx: Context, id: SnipeId)
    requires
        pre.spec_has_snipe(id),
        pre.spec_snipe(id).status != SnipeStatus::Waiting,
    ensures
        !delete_allowed(pre, ctx, id),
{
}

/// Law: a dispatch succeeds only for the operator, only from `Waiting`,
/// and only when the price is covered by the deposit; when any of these
/// fails the guard refuses and the dispatch operation's contract then
/// leaves everything untouched and issues no call.
pub proof fn lemma_dispatch_guards(
    pre: Contract,
    ctx: Context,
    marketplace: AccountId,
    price: u128,
    id: SnipeId,
    token_id: Option<TokenId>,
)
    ensures
        ctx.predecessor_account_id@ != pre.owner_id@ ==> !dispatch_allowed(
            pre,
            ctx,
            marketplace,
            price,
            id,
            token_id,
        ),
        pre.spec_has_snipe(id) && pre.spec_snipe(id).status != SnipeStatus::Waiting
            ==> !dispatch_allowed(pre, ctx, marketplace, price, id, token_id),
        pre.spec_has_snipe(id) && price > pre.spec_snipe(id).deposit ==> !dispatch_allowed(
            pre,
            ctx,
            marketplace,
            price,
            id,
            token_id,
        ),
{
}

/// Law: a successful resolution refunds exactly `deposit - price` to the
/// record's owner, and when the price consumed the whole deposit it issues
/// no refund transfer at all.
pub proof fn lemma_resolve_success_refund(
    pre: Contract,
    post: Contract,
    marketplace: AccountId,
    id: SnipeId,
    price: u128,
    token_id: TokenId,
    out: ResolveOutcome,
)
    requires
        pre.spec_has_snipe(id),
        price <= pre.spec_snipe(id).deposit,
        resolved_success(pre, post, marketplace, id, price, token_id, out),
    ensures
        out matches ResolveOutcome::Success { refund, .. } && {
            &&& price < pre.spec_snipe(id).deposit ==> (refund matches Some(t)
                && t.amount == pre.spec_snipe(id).deposit - price
                && t.receiver_id == pre.spec_snipe(id).account_id)
            &&& price == pre.spec_snipe(id).deposit ==> refund is None
        },
{
}

/// Law: a failed resolution transfers nothing — the outcome carries no
/// refund and no token forwarding — while the record commits to `Failed`
/// with its deposit kept locked, every other record untouched, and the
/// failure event carries the attempted marketplace, price and token.
pub proof fn lemma_resolve_failure_locks_deposit(
    pre: Contract,
    post: Contract,
    marketplace: AccountId,
    id: SnipeId,
    price: u128,
    token_id: TokenId,
    out: ResolveOutcome,
)
    requires
        pre.spec_has_snipe(id),
        resolved_failure(pre, post, marketplace, id, price, token_id, out),
    ensures
        out is Failure,
        out matches ResolveOutcome::Failure { event } && event.is_v1(
            SnipeNearEventKind::BuyToken(
                LogBuyToken {
                    marketplace_contract_id: marketplace,
                    price: price,
                    snipe_id: id,
                    token_id: token_id,
                    status: SnipeStatus::Failed,
                    account_id: pre.spec_snipe(id).account_id,
                },
            ),
        ),
        post.spec_snipe(id).status == SnipeStatus::Failed,
        post.spec_snipe(id).deposit == pre.spec_snipe(id).deposit,
        forall|other: SnipeId|
            pre.spec_has_snipe(other) && other != id ==> post.spec_snipe(other) == pre.spec_snipe(
                other,
            ),
{
}

/// Law: under the store's invariant a record id is listed at exactly one
/// position of the owner index — two listings of the same id coincide.
pub proof fn lemma_id_listed_once(c: Contract, j: int, k: int, p: int, q: int)
    requires
        c.wf(),
        0 <= j < c.snipes_by_account_id@.len(),
        0 <= k < c.snipes_by_account_id@.len(),
        0 <= p < c.snipes_by_account_id@[j].snipe_ids@.len(),
        0 <= q < c.snipes_by_account_id@[k].snipe_ids@.len(),
        c.snipes_by_account_id@[j].snipe_ids@[p] == c.snipes_by_account_id@[k].snipe_ids@[q],
    ensures
        j == k,
        p == q,
{
    let es = c.snipes_by_account_id@;
    let id = es[j].snipe_ids@[p];
    assert(c.spec_snipe(id).account_id@ == es[j].account_id@);
    assert(c.spec_snipe(es[k].snipe_ids@[q]).account_id@ == es[k].account_id@);
    if j < k {
        assert(es[j].account_id@ != es[k].account_id@);
        assert(false);
    } else if k < j {
        assert(es[k].account_id@ != es[j].account_id@);
        assert(false);
    }
    if p < q {
        assert(es[j].snipe_ids@[p] != es[j].snipe_ids@[q]);
        assert(false);
    } else if q < p {
        assert(es[j].snipe_ids@[q] != es[j].snipe_ids@[p]);
        assert(false);
    }
}

/// Law: under the store's invariant every record's id is listed in its
/// owner's index entry — the index membership mirrors the owner field.
pub proof fn lemma_record_listed_under_owner(c: Contract, id: SnipeId)
    requires
        c.wf(),
        c.spec_has_snipe(id),
    ensures
        c.spec_has_owner(c.spec_snipe(id).account_id@),
        c.spec_owner_ids(c.spec_snipe(id).account_id@).contains(id),
{
    let es = c.snipes_by_account_id@;
    let i = id - 1;
    let (j0, p0) = choose|j0: int, p0: int|
        {
            &&& 0 <= j0 < es.len()
            &&& 0 <= p0 < es[j0].snipe_ids@.len()
            &&& es[j0].snipe_ids@[p0] == i + 1
            &&& es[j0].account_id@ == c.snipe_by_id@[i].account_id@
        };
    let account = c.spec_snipe(id).account_id@;
    assert(es[j0].account_id@ == account);
    assert(c.spec_has_owner(account));
    let je = c.spec_owner_entry(account);
    if je != j0 {
        if je < j0 {
            assert(es[je].account_id@ != es[j0].account_id@);
        } else {
            assert(es[j0].account_id@ != es[je].account_id@);
        }
        assert(false);
    }
    assert(c.spec_owner_ids(account)[p0] == id);
}

/// Law: a terminal status admits no transition at all — every mutating
/// operation's guard refuses a record that is `Success`, `Failed` or
/// `Deleted`.
pub proof fn lemma_terminal_states_locked(
    pre: Contract,
    ctx: Context,
    marketplace: AccountId,
    price: u128,
    id: SnipeId,
    token_id: Option<TokenId>,
    promise_success: bool,
)
    requires
        pre.spec_has_snipe(id),
        is_terminal(pre.spec_snipe(id).status),
    ensures
        !delete_allowed(pre, ctx, id),
        !dispatch_allowed(pre, ctx, marketplace, price, id, token_id),
        !resolve_allowed(pre, ctx, id, price, promise_success),
{
}

} // verus!
