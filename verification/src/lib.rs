//! An escrow contract for sniping NFT purchases on external marketplaces.
//!
//! A depositor opens an escrow record (a "snipe") against a future purchase
//! of a token from a target contract. A privileged operator later dispatches
//! the purchase on a known marketplace; a resolution callback settles the
//! outcome, refunding unspent escrow and forwarding the purchased token.
//!
//! All host interaction (attached deposits, balances, promises) enters
//! through an explicit [`Context`], and every outbound call leaves as a
//! plain description value, so the whole lifecycle is verified here.

use vstd::prelude::*;

pub mod events;
pub mod external;
pub mod laws;

verus! {

use crate::external::GAS_FOR_BUY_TOKEN;
use crate::external::GAS_FOR_NFT_TRANSFER;
use crate::external::GAS_FOR_RESOLVE_BUY;
use crate::external::MarketplaceCall;
use crate::external::NftTransferCall;
use crate::external::PurchaseDispatch;
use crate::external::ResolveCallback;
use crate::external::Transfer;

/// Identifier of an escrow record; assigned as record count + 1, never reused.
pub type SnipeId = u64;

/// Identifier of a token within an NFT contract.
pub type TokenId = String;

/// A NEAR account name, held as its plain string form.
pub type AccountId = String;

/// Lifecycle status of an escrow record.
///
/// `Waiting` is initial; `Success`, `Failed` and `Deleted` are terminal:
/// no operation transitions out of them.
#[derive(Clone, Copy, Debug, PartialEq, Eq, Structural)]
pub enum SnipeStatus {
    Waiting,
    Sniping,
    Success,
    Failed,
    Deleted,
}

/// True of the statuses that admit no further transition.
pub open spec fn is_terminal(status: SnipeStatus) -> bool {
    status == SnipeStatus::Success || status == SnipeStatus::Failed
        || status == SnipeStatus::Deleted
}

/// The marketplace protocols this deployment knows how to call.
#[derive(Clone, Copy, Debug, PartialEq, Eq, Structural)]
pub enum NftMarketplace {
    Paras,
    Mintbase,
    Fewfar,
}

/// One escrow record: a deposit earmarked for a future purchase.
///
/// The deposit is immutable once set; only `status` mutates, and only
/// through the operations on [`Contract`].
#[derive(Debug)]
pub struct Snipe {
    pub snipe_id: SnipeId,
    pub account_id: AccountId,
    pub contract_id: AccountId,
    pub token_id: Option<TokenId>,
    pub deposit: u128,
    pub status: SnipeStatus,
}

/// The ambient host facts an entry point runs under, passed explicitly so
/// that every operation is a function of its arguments alone.
#[derive(Debug)]
pub struct Context {
    /// The account that invoked the entry point.
    pub predecessor_account_id: AccountId,
    /// The account this contract itself is deployed at.
    pub current_account_id: AccountId,
    /// The native currency attached to the invocation.
    pub attached_deposit: u128,
    /// This contract's own available balance.
    pub account_balance: u128,
}

/// Why an operation refused to run. Every error leaves the contract state,
/// the owner index and all funds untouched.
#[derive(Clone, Copy, Debug, PartialEq, Eq, Structural)]
pub enum SnipeError {
    /// An opening deposit must exceed the smallest currency unit.
    DepositTooLow,
    /// Deletion must attach exactly one smallest currency unit as proof.
    OneYoctoRequired,
    /// No record carries the given id.
    SnipeNotFound,
    /// The owner index has no entry for the given account.
    AccountNotFound,
    /// Only the record's owner may delete it.
    NotSnipeOwner,
    /// The record is not in the `Waiting` status the transition requires.
    NotWaiting,
    /// The record is not in the `Sniping` status the transition requires.
    NotSniping,
    /// Neither the record nor the call supplies a token id.
    TokenIdRequired,
    /// The purchase price exceeds the escrowed deposit.
    PriceExceedsDeposit,
    /// The marketplace account is not in the registry.
    MarketplaceNotFound,
    /// The registry maps the account to a protocol with no purchase call.
    MarketplaceNotSupported,
    /// Only the designated operator may dispatch purchases.
    OwnerOnly,
    /// Only this contract itself may invoke the resolution callback.
    SelfCallOnly,
    /// The contract's balance does not cover the transfer it must schedule.
    NotEnoughBalance,
}

/// The ids of the records one account has opened.
#[derive(Debug)]
pub struct OwnerSnipes {
    pub account_id: AccountId,
    pub snipe_ids: Vec<SnipeId>,
}

/// The escrow store: the records keyed by id, and an owner-keyed index.
///
/// Records are never physically removed, so the record count serves as the
/// id generator: the record with id `i` sits at position `i - 1`.
#[derive(Debug)]
pub struct Contract {
    pub owner_id: AccountId,
    pub snipe_by_id: Vec<Snipe>,
    pub snipes_by_account_id: Vec<OwnerSnipes>,
}

impl Contract {
    /// How many records have ever been opened.
    pub open spec fn spec_snipe_count(self) -> nat {
        self.snipe_by_id@.len()
    }

    /// True when a record carries the given id.
    pub open spec fn spec_has_snipe(self, id: SnipeId) -> bool {
        1 <= id && id <= self.snipe_by_id@.len()
    }

    /// The record with the given id.
    pub open spec fn spec_snipe(self, id: SnipeId) -> Snipe
        recommends
            self.spec_has_snipe(id),
    {
        self.snipe_by_id@[id - 1]
    }

    /// True when the owner index has an entry for the account.
    pub open spec fn spec_has_owner(self, account: Seq<char>) -> bool {
        exists|j: int|
            0 <= j < self.snipes_by_account_id@.len()
                && (#[trigger] self.snipes_by_account_id@[j]).account_id@ == account
    }

    /// The position of the account's entry in the owner index.
    pub open spec fn spec_owner_entry(self, account: Seq<char>) -> int {
        choose|j: int|
            0 <= j < self.snipes_by_account_id@.len()
                && (#[trigger] self.snipes_by_account_id@[j]).account_id@ == account
    }

    /// The record ids in the account's index entry.
    pub open spec fn spec_owner_ids(self, account: Seq<char>) -> Seq<SnipeId>
        recommends
            self.spec_has_owner(account),
    {
        self.snipes_by_account_id@[self.spec_owner_entry(account)].snipe_ids@
    }

    /// Each record sits at the position its id names, and each deposit
    /// cleared the opening threshold.
    pub open spec fn records_wf(self) -> bool {
        &&& forall|i: int|
            0 <= i < self.snipe_by_id@.len() ==> {
                &&& (#[trigger] self.snipe_by_id@[i]).snipe_id == i + 1
                &&& self.snipe_by_id@[i].deposit > 1
            }
    }

    /// The owner index mirrors the records: accounts appear once, every
    /// listed id names a record owned by that account with no id listed
    /// twice, and every record's id is listed under its owner.
    pub open spec fn index_wf(self) -> bool {
        let entries = self.snipes_by_account_id@;
        &&& forall|j: int, k: int|
            0 <= j < k < entries.len()
                ==> (#[trigger] entries[j]).account_id@ != (#[trigger] entries[k]).account_id@
        &&& forall|j: int, p: int|
            0 <= j < entries.len() && 0 <= p < (#[trigger] entries[j]).snipe_ids@.len() ==> {
                let id = #[trigger] entries[j].snipe_ids@[p];
                &&& self.spec_has_snipe(id)
                &&& self.spec_snipe(id).account_id@ == entries[j].account_id@
            }
        &&& forall|j: int, p: int, q: int|
            0 <= j < entries.len() && 0 <= p < q < entries[j].snipe_ids@.len()
                ==> #[trigger] entries[j].snipe_ids@[p] != #[trigger] entries[j].snipe_ids@[q]
        &&& forall|i: int|
            0 <= i < self.snipe_by_id@.len() ==> exists|j: int, p: int|
                {
                    &&& 0 <= j < entries.len()
                    &&& 0 <= p < entries[j].snipe_ids@.len()
                    &&& entries[j].snipe_ids@[p] == i + 1
                    &&& entries[j].account_id@ == (#[trigger] self.snipe_by_id@[i]).account_id@
                }
    }

    /// The store's standing invariant.
    pub open spec fn wf(self) -> bool {
        self.records_wf() && self.index_wf()
    }

    /// Sets up an empty store under the given operator account.
    pub fn init(owner_id: AccountId) -> (c: Contract)
        ensures
            c.owner_id == owner_id,
            c.snipe_by_id@ == Seq::<Snipe>::empty(),
            c.snipes_by_account_id@ == Seq::<OwnerSnipes>::empty(),
            c.wf(),
    {
        Contract { owner_id, snipe_by_id: Vec::new(), snipes_by_account_id: Vec::new() }
    }

    /// Looks a record up by id. Fails, touching nothing, when no record
    /// carries the id.
    pub fn snipe_by_id(&self, snipe_id: SnipeId) -> (r: Result<Snipe, SnipeError>)
        ensures
            r is Ok <==> self.spec_has_snipe(snipe_id),
            r matches Ok(s) ==> s == self.spec_snipe(snipe_id),
            r matches Err(e) ==> e == SnipeError::SnipeNotFound,
    {
        if 1 <= snipe_id && snipe_id <= self.snipe_by_id.len() as u64 {
            Ok(copy_snipe(&self.snipe_by_id[(snipe_id - 1) as usize]))
        } else {
            Err(SnipeError::SnipeNotFound)
        }
    }
}

/// An owned copy of a record, equal to the original.
fn copy_snipe(s: &Snipe) -> (r: Snipe)
    ensures
        r == *s,
{
    Snipe {
        snipe_id: s.snipe_id,
        account_id: s.account_id.clone(),
        contract_id: s.contract_id.clone(),
        token_id: copy_opt_string(&s.token_id),
        deposit: s.deposit,
        status: s.status,
    }
}

/// An owned copy of an optional string, equal to the original.
fn copy_opt_string(t: &Option<String>) -> (r: Option<String>)
    ensures
        r == *t,
{
    match t {
        Some(s) => Some(s.clone()),
        None => None,
    }
}

/// True exactly when the two accounts are the same name.
fn account_eq(a: &AccountId, b: &AccountId) -> (r: bool)
    ensures
        r == (a@ == b@),
{
    *a == *b
}

/// True exactly when the account bears the given well-known name.
fn account_is(a: &AccountId, name: &str) -> (r: bool)
    ensures
        r == (a@ == name@),
{
    let owned: String = name.to_owned();
    *a == owned
}

/// The marketplace protocol behind a contract account, if the account is
/// one of the fixed set this deployment was built for.
pub open spec fn spec_marketplace_of(account: Seq<char>) -> Option<NftMarketplace> {
    if account == "paras-marketplace-v1.testnet"@ || account == "marketplace.paras.mainnet"@ {
        Some(NftMarketplace::Paras)
    } else if account == "market-v2-beta.mintspace2.testnet"@ || account
        == "market.mintbase1.near"@ {
        Some(NftMarketplace::Mintbase)
    } else {
        None
    }
}

impl Contract {
    /// Resolves a marketplace account to its protocol. The registry is
    /// deliberately closed: adding a marketplace is a code change.
    pub fn get_nft_marketplace_by_contract(&self, marketplace_contract_id: &AccountId) -> (r:
        Option<NftMarketplace>)
        ensures
            r == spec_marketplace_of(marketplace_contract_id@),
    {
        if account_is(marketplace_contract_id, "paras-marketplace-v1.testnet") {
            Some(NftMarketplace::Paras)
        } else if account_is(marketplace_contract_id, "marketplace.paras.mainnet") {
            Some(NftMarketplace::Paras)
        } else if account_is(marketplace_contract_id, "market-v2-beta.mintspace2.testnet") {
            Some(NftMarketplace::Mintbase)
        } else if account_is(marketplace_contract_id, "market.mintbase1.near") {
            Some(NftMarketplace::Mintbase)
        } else {
            None
        }
    }
}

/// What a successful open returns: the fresh id and the emitted event.
#[derive(Debug)]
pub struct SnipeOpened {
    pub snipe_id: SnipeId,
    pub event: events::NearEvent,
}

/// The record an open under `ctx` appends to `pre`.
pub open spec fn spec_new_record(
    pre: Contract,
    ctx: Context,
    contract_id: AccountId,
    token_id: Option<TokenId>,
) -> Snipe {
    Snipe {
        snipe_id: (pre.spec_snipe_count() + 1) as u64,
        account_id: ctx.predecessor_account_id,
        contract_id: contract_id,
        token_id: token_id,
        deposit: ctx.attached_deposit,
        status: SnipeStatus::Waiting,
    }
}

/// How an open changes the owner index: the fresh id joins the owner's
/// entry, a new entry being created when the owner had none, and every
/// other entry stays as it was.
pub open spec fn index_extended(pre: Contract, post: Contract, owner: AccountId, id: SnipeId) -> bool {
    let pes = pre.snipes_by_account_id@;
    let qes = post.snipes_by_account_id@;
    if pre.spec_has_owner(owner@) {
        let j = pre.spec_owner_entry(owner@);
        &&& qes.len() == pes.len()
        &&& forall|k: int| 0 <= k < pes.len() && k != j ==> qes[k] == pes[k]
        &&& qes[j].account_id == pes[j].account_id
        &&& qes[j].snipe_ids@ == pes[j].snipe_ids@.push(id)
    } else {
        &&& qes.len() == pes.len() + 1
        &&& forall|k: int| 0 <= k < pes.len() ==> qes[k] == pes[k]
        &&& qes.last().account_id == owner
        &&& qes.last().snipe_ids@ == seq![id]
    }
}

/// The whole effect of a successful open: one fresh `Waiting` record at the
/// next id, the index extended under the depositor, and the opened event.
pub open spec fn opened(
    pre: Contract,
    post: Contract,
    ctx: Context,
    contract_id: AccountId,
    token_id: Option<TokenId>,
    memo: Option<String>,
    out: SnipeOpened,
) -> bool {
    &&& out.snipe_id == pre.spec_snipe_count() + 1
    &&& post.owner_id == pre.owner_id
    &&& post.snipe_by_id@ == pre.snipe_by_id@.push(
        spec_new_record(pre, ctx, contract_id, token_id),
    )
    &&& index_extended(pre, post, ctx.predecessor_account_id, out.snipe_id)
    &&& out.event.is_v1(
        events::SnipeNearEventKind::Snipe(
            events::LogSnipe {
                snipe_id: out.snipe_id,
                account_id: ctx.predecessor_account_id,
                contract_id: contract_id,
                token_id: token_id,
                deposit: ctx.attached_deposit,
                status: SnipeStatus::Waiting,
                memo: memo,
            },
        ),
    )
}

impl Contract {
    /// Opens an escrow record for the caller against a future purchase
    /// from `contract_id`, escrowing the attached deposit.
    ///
    /// The deposit must strictly exceed the smallest currency unit;
    /// otherwise the call fails and creates nothing. The returned id is
    /// the record count after the open, so successive opens return
    /// strictly increasing ids.
    pub fn snipe(
        &mut self,
        ctx: &Context,
        contract_id: AccountId,
        token_id: Option<TokenId>,
        memo: Option<String>,
    ) -> (r: Result<SnipeOpened, SnipeError>)
        requires
            old(self).wf(),
            old(self).spec_snipe_count() < u64::MAX,
        ensures
            final(self).wf(),
            r is Ok <==> ctx.attached_deposit > 1,
            r matches Ok(out) ==> opened(
                *old(self),
                *final(self),
                *ctx,
                contract_id,
                token_id,
                memo,
                out,
            ),
            r matches Err(e) ==> *final(self) == *old(self) && e == SnipeError::DepositTooLow,
    {
        match self.assert_more_than_one_yocto(ctx) {
            Ok(()) => {},
            Err(e) => { return Err(e) },
        }
        let ghost pre = *old(self);

        let id: SnipeId = self.snipe_by_id.len() as u64 + 1;
        let record = Snipe {
            snipe_id: id,
            account_id: ctx.predecessor_account_id.clone(),
            contract_id: contract_id.clone(),
            token_id: copy_opt_string(&token_id),
            deposit: ctx.attached_deposit,
            status: SnipeStatus::Waiting,
        };
        self.snipe_by_id.push(record);

        let n = self.snipes_by_account_id.len();
        let mut j: usize = 0;
        let mut found: Option<usize> = None;
        while j < n
            invariant
                n == self.snipes_by_account_id.len(),
                j <= n,
                found matches Some(f) ==> f < n && self.snipes_by_account_id@[f as int].account_id@
                    == ctx.predecessor_account_id@,
                found is None ==> forall|k: int|
                    0 <= k < j ==> (#[trigger] self.snipes_by_account_id@[k]).account_id@
                        != ctx.predecessor_account_id@,
            decreases n - j,
        {
            if found.is_none() && account_eq(
                &self.snipes_by_account_id[j].account_id,
                &ctx.predecessor_account_id,
            ) {
                found = Some(j);
            }
            j += 1;
        }

        match found {
            Some(f) => {
                self.snipes_by_account_id[f].snipe_ids.push(id);
                proof {
                    lemma_open_updates_entry(pre, *self, *ctx, contract_id, token_id, f as int, id);
                }
            },
            None => {
                let mut ids: Vec<SnipeId> = Vec::new();
                ids.push(id);
                self.snipes_by_account_id.push(
                    OwnerSnipes {
                        account_id: ctx.predecessor_account_id.clone(),
                        snipe_ids: ids,
                    },
                );
                proof {
                    lemma_open_appends_entry(pre, *self, *ctx, contract_id, token_id, id);
                }
            },
        }

        let event = events::NearEvent::snipe(
            events::LogSnipe {
                snipe_id: id,
                account_id: ctx.predecessor_account_id.clone(),
                contract_id: contract_id,
                token_id: token_id,
                deposit: ctx.attached_deposit,
                status: SnipeStatus::Waiting,
                memo: memo,
            },
        );
        Ok(SnipeOpened { snipe_id: id, event })
    }
}

/// After an open that pushed the fresh id onto the existing entry `f` of
/// its owner, the index is the old one extended at that entry and the
/// store's invariant still holds.
proof fn lemma_open_updates_entry(
    pre: Contract,
    post: Contract,
    ctx: Context,
    contract_id: AccountId,
    token_id: Option<TokenId>,
    f: int,
    id: SnipeId,
)
    requires
        pre.wf(),
        pre.spec_snipe_count() < u64::MAX,
        ctx.attached_deposit > 1,
        id == pre.spec_snipe_count() + 1,
        post.owner_id == pre.owner_id,
        post.snipe_by_id@ == pre.snipe_by_id@.push(spec_new_record(pre, ctx, contract_id, token_id)),
        0 <= f < pre.snipes_by_account_id@.len(),
        pre.snipes_by_account_id@[f].account_id@ == ctx.predecessor_account_id@,
        post.snipes_by_account_id@ == pre.snipes_by_account_id@.update(
            f,
            OwnerSnipes {
                account_id: pre.snipes_by_account_id@[f].account_id,
                snipe_ids: post.snipes_by_account_id@[f].snipe_ids,
            },
        ),
        post.snipes_by_account_id@[f].snipe_ids@ == pre.snipes_by_account_id@[f].snipe_ids@.push(
            id,
        ),
    ensures
        post.wf(),
        index_extended(pre, post, ctx.predecessor_account_id, id),
{
    let pes = pre.snipes_by_account_id@;
    let qes = post.snipes_by_account_id@;
    assert(pre.spec_has_owner(ctx.predecessor_account_id@));
    let je = pre.spec_owner_entry(ctx.predecessor_account_id@);
    assert(0 <= je < pes.len() && pes[je].account_id@ == ctx.predecessor_account_id@);
    if je != f {
        assert(pes[je].account_id@ != pes[f].account_id@);
        assert(false);
    }
    assert(index_extended(pre, post, ctx.predecessor_account_id, id));

    // Records keep their positions, ids and deposits; the fresh record
    // carries the next id and a deposit over the threshold.
    assert(post.records_wf());

    // Membership: every listed id still names a record of the entry's
    // account, the fresh id included.
    assert forall|j: int, p: int|
        0 <= j < qes.len() && 0 <= p < (#[trigger] qes[j]).snipe_ids@.len() implies {
        let lid = #[trigger] qes[j].snipe_ids@[p];
        &&& post.spec_has_snipe(lid)
        &&& post.spec_snipe(lid).account_id@ == qes[j].account_id@
    } by {
        let lid = qes[j].snipe_ids@[p];
        if j == f && p == pes[f].snipe_ids@.len() {
            assert(lid == id);
            assert(post.spec_snipe(id) == spec_new_record(pre, ctx, contract_id, token_id));
        } else {
            assert(qes[j].snipe_ids@[p] == pes[j].snipe_ids@[p]);
            assert(pre.spec_has_snipe(lid));
            assert(post.spec_snipe(lid) == pre.spec_snipe(lid));
        }
    }

    // No id is listed twice: all old ids are at most the old count, and
    // the fresh id is above it.
    assert forall|j: int, p: int, q: int|
        0 <= j < qes.len() && 0 <= p < q < qes[j].snipe_ids@.len() implies #[trigger] qes[j].snipe_ids@[p]
        != #[trigger] qes[j].snipe_ids@[q] by {
        if j == f {
            if q == pes[f].snipe_ids@.len() {
                assert(qes[j].snipe_ids@[p] == pes[j].snipe_ids@[p]);
                assert(pre.spec_has_snipe(pes[j].snipe_ids@[p]));
            } else {
                assert(qes[j].snipe_ids@[p] == pes[j].snipe_ids@[p]);
                assert(qes[j].snipe_ids@[q] == pes[j].snipe_ids@[q]);
            }
        }
    }

    // Every record is still listed under its owner; the fresh record is
    // listed at the end of entry `f`.
    assert forall|i: int| 0 <= i < post.snipe_by_id@.len() implies exists|j: int, p: int|
        {
            &&& 0 <= j < qes.len()
            &&& 0 <= p < qes[j].snipe_ids@.len()
            &&& qes[j].snipe_ids@[p] == i + 1
            &&& qes[j].account_id@ == (#[trigger] post.snipe_by_id@[i]).account_id@
        } by {
        if i < pre.snipe_by_id@.len() {
            let (j0, p0) = choose|j0: int, p0: int|
                {
                    &&& 0 <= j0 < pes.len()
                    &&& 0 <= p0 < pes[j0].snipe_ids@.len()
                    &&& pes[j0].snipe_ids@[p0] == i + 1
                    &&& pes[j0].account_id@ == pre.snipe_by_id@[i].account_id@
                };
            assert(qes[j0].snipe_ids@[p0] == i + 1);
            assert(qes[j0].account_id@ == post.snipe_by_id@[i].account_id@);
        } else {
            let p1 = pes[f].snipe_ids@.len() as int;
            assert(qes[f].snipe_ids@[p1] == i + 1);
            assert(qes[f].account_id@ == post.snipe_by_id@[i].account_id@);
        }
    }
}

/// After an open that appended a fresh one-id entry for an owner the index
/// did not know, the index is the old one extended and the store's
/// invariant still holds.
proof fn lemma_open_appends_entry(
    pre: Contract,
    post: Contract,
    ctx: Context,
    contract_id: AccountId,
    token_id: Option<TokenId>,
    id: SnipeId,
)
    requires
        pre.wf(),
        pre.spec_snipe_count() < u64::MAX,
        ctx.attached_deposit > 1,
        id == pre.spec_snipe_count() + 1,
        post.owner_id == pre.owner_id,
        post.snipe_by_id@ == pre.snipe_by_id@.push(spec_new_record(pre, ctx, contract_id, token_id)),
        forall|k: int|
            0 <= k < pre.snipes_by_account_id@.len()
                ==> (#[trigger] pre.snipes_by_account_id@[k]).account_id@
                != ctx.predecessor_account_id@,
        post.snipes_by_account_id@.len() == pre.snipes_by_account_id@.len() + 1,
        forall|k: int|
            0 <= k < pre.snipes_by_account_id@.len() ==> #[trigger] post.snipes_by_account_id@[k]
                == pre.snipes_by_account_id@[k],
        post.snipes_by_account_id@.last().account_id@ == ctx.predecessor_account_id@,
        post.snipes_by_account_id@.last().account_id == ctx.predecessor_account_id,
        post.snipes_by_account_id@.last().snipe_ids@ == seq![id],
    ensures
        post.wf(),
        index_extended(pre, post, ctx.predecessor_account_id, id),
{
    let pes = pre.snipes_by_account_id@;
    let qes = post.snipes_by_account_id@;
    assert(!pre.spec_has_owner(ctx.predecessor_account_id@));
    assert(index_extended(pre, post, ctx.predecessor_account_id, id));
    assert(post.records_wf());

    let last = pes.len() as int;
    assert forall|j: int, p: int|
        0 <= j < qes.len() && 0 <= p < (#[trigger] qes[j]).snipe_ids@.len() implies {
        let lid = #[trigger] qes[j].snipe_ids@[p];
        &&& post.spec_has_snipe(lid)
        &&& post.spec_snipe(lid).account_id@ == qes[j].account_id@
    } by {
        let lid = qes[j].snipe_ids@[p];
        if j == last {
            assert(lid == id);
            assert(post.spec_snipe(id) == spec_new_record(pre, ctx, contract_id, token_id));
        } else {
            assert(qes[j] == pes[j]);
            assert(pre.spec_has_snipe(lid));
            assert(post.spec_snipe(lid) == pre.spec_snipe(lid));
        }
    }

    assert forall|j: int, p: int, q: int|
        0 <= j < qes.len() && 0 <= p < q < qes[j].snipe_ids@.len() implies #[trigger] qes[j].snipe_ids@[p]
        != #[trigger] qes[j].snipe_ids@[q] by {
        if j < last {
            assert(qes[j] == pes[j]);
        }
    }

    assert forall|j: int, k: int|
        0 <= j < k < qes.len() implies (#[trigger] qes[j]).account_id@ != (
    #[trigger] qes[k]).account_id@ by {
        if k == last {
            assert(qes[j] == pes[j]);
        } else {
            assert(qes[j] == pes[j] && qes[k] == pes[k]);
        }
    }

    assert forall|i: int| 0 <= i < post.snipe_by_id@.len() implies exists|j: int, p: int|
        {
            &&& 0 <= j < qes.len()
            &&& 0 <= p < qes[j].snipe_ids@.len()
            &&& qes[j].snipe_ids@[p] == i + 1
            &&& qes[j].account_id@ == (#[trigger] post.snipe_by_id@[i]).account_id@
        } by {
        if i < pre.snipe_by_id@.len() {
            let (j0, p0) = choose|j0: int, p0: int|
                {
                    &&& 0 <= j0 < pes.len()
                    &&& 0 <= p0 < pes[j0].snipe_ids@.len()
                    &&& pes[j0].snipe_ids@[p0] == i + 1
                    &&& pes[j0].account_id@ == pre.snipe_by_id@[i].account_id@
                };
            assert(qes[j0] == pes[j0]);
            assert(qes[j0].snipe_ids@[p0] == i + 1);
            assert(qes[j0].account_id@ == post.snipe_by_id@[i].account_id@);
        } else {
            assert(qes[last].snipe_ids@[0] == i + 1);
            assert(qes[last].account_id@ == post.snipe_by_id@[i].account_id@);
        }
    }
}

/// What a successful delete returns: the full refund to schedule and the
/// emitted event.
#[derive(Debug)]
pub struct SnipeDeleted {
    pub refund: Transfer,
    pub event: events::NearEvent,
}

/// The record `s` with its status replaced; every other attribute is kept,
/// the deposit in particular being immutable once set.
pub open spec fn with_status(s: Snipe, status: SnipeStatus) -> Snipe {
    Snipe {
        snipe_id: s.snipe_id,
        account_id: s.account_id,
        contract_id: s.contract_id,
        token_id: s.token_id,
        deposit: s.deposit,
        status: status,
    }
}

/// When a delete succeeds: exactly one authorization unit attached, the
/// record exists, the caller owns it, it is still `Waiting`, and the
/// contract's balance covers the refund it must schedule.
pub open spec fn delete_allowed(pre: Contract, ctx: Context, id: SnipeId) -> bool {
    &&& ctx.attached_deposit == 1
    &&& pre.spec_has_snipe(id)
    &&& pre.spec_snipe(id).account_id@ == ctx.predecessor_account_id@
    &&& pre.spec_snipe(id).status == SnipeStatus::Waiting
    &&& ctx.account_balance >= pre.spec_snipe(id).deposit
}

/// The error a refused delete reports, guards checked in order.
pub open spec fn delete_error(pre: Contract, ctx: Context, id: SnipeId) -> SnipeError {
    if ctx.attached_deposit != 1 {
        SnipeError::OneYoctoRequired
    } else if !pre.spec_has_snipe(id) {
        SnipeError::SnipeNotFound
    } else if pre.spec_snipe(id).account_id@ != ctx.predecessor_account_id@ {
        SnipeError::NotSnipeOwner
    } else if pre.spec_snipe(id).status != SnipeStatus::Waiting {
        SnipeError::NotWaiting
    } else {
        SnipeError::NotEnoughBalance
    }
}

/// The whole effect of a successful delete: the one record flipped to
/// `Deleted`, the index untouched, the full deposit refunded to the owner,
/// and the deleted event.
pub open spec fn deleted(
    pre: Contract,
    post: Contract,
    ctx: Context,
    id: SnipeId,
    out: SnipeDeleted,
) -> bool {
    &&& post.owner_id == pre.owner_id
    &&& post.snipe_by_id@ == pre.snipe_by_id@.update(
        id - 1,
        with_status(pre.spec_snipe(id), SnipeStatus::Deleted),
    )
    &&& post.snipes_by_account_id@ == pre.snipes_by_account_id@
    &&& out.refund == (Transfer {
        receiver_id: ctx.predecessor_account_id,
        amount: pre.spec_snipe(id).deposit,
    })
    &&& out.event.is_v1(
        events::SnipeNearEventKind::DeleteSnipe(
            events::LogDeleteSnipe { snipe_id: id, account_id: ctx.predecessor_account_id },
        ),
    )
}

/// Replacing one record's status, everything else alike, preserves the
/// store's invariant.
proof fn lemma_status_update_wf(pre: Contract, post: Contract, id: SnipeId, status: SnipeStatus)
    requires
        pre.wf(),
        pre.spec_has_snipe(id),
        post.owner_id == pre.owner_id,
        post.snipe_by_id@ == pre.snipe_by_id@.update(
            id - 1,
            with_status(pre.spec_snipe(id), status),
        ),
        post.snipes_by_account_id@ == pre.snipes_by_account_id@,
    ensures
        post.wf(),
{
    let es = pre.snipes_by_account_id@;
    assert(post.records_wf());
    assert forall|j: int, p: int|
        0 <= j < es.len() && 0 <= p < (#[trigger] es[j]).snipe_ids@.len() implies {
        let lid = #[trigger] es[j].snipe_ids@[p];
        &&& post.spec_has_snipe(lid)
        &&& post.spec_snipe(lid).account_id@ == es[j].account_id@
    } by {
        let lid = es[j].snipe_ids@[p];
        assert(pre.spec_has_snipe(lid));
        assert(post.spec_snipe(lid).account_id == pre.spec_snipe(lid).account_id);
    }
    assert forall|i: int| 0 <= i < post.snipe_by_id@.len() implies exists|j: int, p: int|
        {
            &&& 0 <= j < es.len()
            &&& 0 <= p < es[j].snipe_ids@.len()
            &&& es[j].snipe_ids@[p] == i + 1
            &&& es[j].account_id@ == (#[trigger] post.snipe_by_id@[i]).account_id@
        } by {
        let (j0, p0) = choose|j0: int, p0: int|
            {
                &&& 0 <= j0 < es.len()
                &&& 0 <= p0 < es[j0].snipe_ids@.len()
                &&& es[j0].snipe_ids@[p0] == i + 1
                &&& es[j0].account_id@ == pre.snipe_by_id@[i].account_id@
            };
        assert(post.snipe_by_id@[i].account_id == pre.snipe_by_id@[i].account_id);
        assert(es[j0].snipe_ids@[p0] == i + 1);
    }
}

impl Contract {
    /// Checks that the contract's balance covers `amount` and, if so,
    /// describes the transfer for the host to schedule. An insufficient
    /// balance is fatal for the enclosing operation: nothing is scheduled.
    fn internal_transfer_near(&self, ctx: &Context, account_id: AccountId, amount: u128) -> (r:
        Result<Transfer, SnipeError>)
        ensures
            r is Ok <==> ctx.account_balance >= amount,
            r matches Ok(t) ==> t == (Transfer { receiver_id: account_id, amount }),
            r matches Err(e) ==> e == SnipeError::NotEnoughBalance,
    {
        if ctx.account_balance < amount {
            Err(SnipeError::NotEnoughBalance)
        } else {
            Ok(Transfer { receiver_id: account_id, amount })
        }
    }

    /// Deletes a `Waiting` record the caller owns, refunding the full
    /// deposit. The caller attaches exactly one smallest currency unit as
    /// authorization proof. Any refused guard leaves record, index and
    /// funds untouched.
    pub fn delete_snipe(&mut self, ctx: &Context, snipe_id: SnipeId) -> (r: Result<
        SnipeDeleted,
        SnipeError,
    >)
        requires
            old(self).wf(),
        ensures
            final(self).wf(),
            r is Ok <==> delete_allowed(*old(self), *ctx, snipe_id),
            r matches Ok(out) ==> deleted(*old(self), *final(self), *ctx, snipe_id, out),
            r matches Err(e) ==> *final(self) == *old(self) && e == delete_error(
                *old(self),
                *ctx,
                snipe_id,
            ),
    {
        if ctx.attached_deposit != 1 {
            return Err(SnipeError::OneYoctoRequired);
        }
        if !(1 <= snipe_id && snipe_id <= self.snipe_by_id.len() as u64) {
            return Err(SnipeError::SnipeNotFound);
        }
        let idx = (snipe_id - 1) as usize;
        if !account_eq(&self.snipe_by_id[idx].account_id, &ctx.predecessor_account_id) {
            return Err(SnipeError::NotSnipeOwner);
        }
        if self.snipe_by_id[idx].status != SnipeStatus::Waiting {
            return Err(SnipeError::NotWaiting);
        }
        let deposit = self.snipe_by_id[idx].deposit;
        let refund = match self.internal_transfer_near(
            ctx,
            ctx.predecessor_account_id.clone(),
            deposit,
        ) {
            Ok(t) => t,
            Err(e) => { return Err(e) },
        };
        let ghost pre = *old(self);
        self.snipe_by_id[idx].status = SnipeStatus::Deleted;
        proof {
            lemma_status_update_wf(pre, *self, snipe_id, SnipeStatus::Deleted);
        }
        let event = events::NearEvent::delete_snipe(
            events::LogDeleteSnipe {
                snipe_id,
                account_id: ctx.predecessor_account_id.clone(),
            },
        );
        Ok(SnipeDeleted { refund, event })
    }
}

/// The token a dispatch on record `id` targets: the record's preset token
/// id when it has one, else the one supplied with the call.
pub open spec fn dispatch_target_token(pre: Contract, id: SnipeId, token_id: Option<TokenId>) -> TokenId {
    if pre.spec_snipe(id).token_id is Some {
        pre.spec_snipe(id).token_id->0
    } else {
        token_id->0
    }
}

/// When a dispatch succeeds: the caller is the designated operator, the
/// record exists and is `Waiting`, a token id is resolvable, the price is
/// covered by the deposit, and the marketplace has a purchase call.
pub open spec fn dispatch_allowed(
    pre: Contract,
    ctx: Context,
    marketplace: AccountId,
    price: u128,
    id: SnipeId,
    token_id: Option<TokenId>,
) -> bool {
    &&& ctx.predecessor_account_id@ == pre.owner_id@
    &&& pre.spec_has_snipe(id)
    &&& pre.spec_snipe(id).status == SnipeStatus::Waiting
    &&& pre.spec_snipe(id).token_id is Some || token_id is Some
    &&& price <= pre.spec_snipe(id).deposit
    &&& (spec_marketplace_of(marketplace@) matches Some(m) && (m == NftMarketplace::Paras || m
        == NftMarketplace::Mintbase))
}

/// The error a refused dispatch reports, guards checked in order.
pub open spec fn dispatch_error(
    pre: Contract,
    ctx: Context,
    marketplace: AccountId,
    price: u128,
    id: SnipeId,
    token_id: Option<TokenId>,
) -> SnipeError {
    if ctx.predecessor_account_id@ != pre.owner_id@ {
        SnipeError::OwnerOnly
    } else if !pre.spec_has_snipe(id) {
        SnipeError::SnipeNotFound
    } else if pre.spec_snipe(id).status != SnipeStatus::Waiting {
        SnipeError::NotWaiting
    } else if pre.spec_snipe(id).token_id is None && token_id is None {
        SnipeError::TokenIdRequired
    } else if price > pre.spec_snipe(id).deposit {
        SnipeError::PriceExceedsDeposit
    } else if spec_marketplace_of(marketplace@) is None {
        SnipeError::MarketplaceNotFound
    } else {
        SnipeError::MarketplaceNotSupported
    }
}

/// The whole effect of a successful dispatch: the record locked in
/// `Sniping` before any call leaves, the variant-shaped purchase call with
/// the price attached as value, and the chained resolution callback
/// carrying the continuation payload back to this contract.
pub open spec fn dispatched(
    pre: Contract,
    post: Contract,
    ctx: Context,
    marketplace: AccountId,
    price: u128,
    id: SnipeId,
    token_id: Option<TokenId>,
    out: PurchaseDispatch,
) -> bool {
    let s = pre.spec_snipe(id);
    let target = dispatch_target_token(pre, id, token_id);
    &&& post.owner_id == pre.owner_id
    &&& post.snipe_by_id@ == pre.snipe_by_id@.update(id - 1, with_status(s, SnipeStatus::Sniping))
    &&& post.snipes_by_account_id@ == pre.snipes_by_account_id@
    &&& out.callback == (ResolveCallback {
        receiver_id: ctx.current_account_id,
        marketplace_contract_id: marketplace,
        snipe_id: id,
        price: price,
        token_id: target,
        gas: GAS_FOR_RESOLVE_BUY,
    })
    &&& match spec_marketplace_of(marketplace@) {
        Some(NftMarketplace::Paras) => out.call == (MarketplaceCall::ParasBuy {
            marketplace_contract_id: marketplace,
            nft_contract_id: s.contract_id,
            token_id: target,
            ft_token_id: None,
            price: Some(price),
            attached_deposit: price,
            gas: GAS_FOR_BUY_TOKEN,
        }),
        Some(NftMarketplace::Mintbase) => out.call == (MarketplaceCall::MintbaseBuy {
            marketplace_contract_id: marketplace,
            nft_contract_id: s.contract_id,
            token_id: target,
            attached_deposit: price,
            gas: GAS_FOR_BUY_TOKEN,
        }),
        _ => false,
    }
}

impl Contract {
    /// Fails unless the caller is the designated operator.
    fn assert_owner(&self, ctx: &Context) -> (r: Result<(), SnipeError>)
        ensures
            r is Ok <==> ctx.predecessor_account_id@ == self.owner_id@,
            r matches Err(e) ==> e == SnipeError::OwnerOnly,
    {
        if account_eq(&ctx.predecessor_account_id, &self.owner_id) {
            Ok(())
        } else {
            Err(SnipeError::OwnerOnly)
        }
    }

    /// Fails unless the attached deposit clears the opening threshold.
    fn assert_more_than_one_yocto(&self, ctx: &Context) -> (r: Result<(), SnipeError>)
        ensures
            r is Ok <==> ctx.attached_deposit > 1,
            r matches Err(e) ==> e == SnipeError::DepositTooLow,
    {
        if ctx.attached_deposit > 1 {
            Ok(())
        } else {
            Err(SnipeError::DepositTooLow)
        }
    }

    /// Shapes the Paras purchase call: target contract and token, no
    /// alternate currency, the price both as an argument and as the
    /// attached value, with the resolution callback chained behind it.
    fn internal_buy_from_paras(
        &self,
        ctx: &Context,
        marketplace_contract_id: AccountId,
        price: u128,
        snipe: &Snipe,
        token_id: TokenId,
    ) -> (out: PurchaseDispatch)
        ensures
            out.call == (MarketplaceCall::ParasBuy {
                marketplace_contract_id: marketplace_contract_id,
                nft_contract_id: snipe.contract_id,
                token_id: token_id,
                ft_token_id: None,
                price: Some(price),
                attached_deposit: price,
                gas: GAS_FOR_BUY_TOKEN,
            }),
            out.callback == (ResolveCallback {
                receiver_id: ctx.current_account_id,
                marketplace_contract_id: marketplace_contract_id,
                snipe_id: snipe.snipe_id,
                price: price,
                token_id: token_id,
                gas: GAS_FOR_RESOLVE_BUY,
            }),
    {
        let nft_contract_id = snipe.contract_id.clone();
        let callback = ResolveCallback {
            receiver_id: ctx.current_account_id.clone(),
            marketplace_contract_id: marketplace_contract_id.clone(),
            snipe_id: snipe.snipe_id,
            price,
            token_id: token_id.clone(),
            gas: GAS_FOR_RESOLVE_BUY,
        };
        let call = MarketplaceCall::ParasBuy {
            marketplace_contract_id,
            nft_contract_id,
            token_id,
            ft_token_id: None,
            price: Some(price),
            attached_deposit: price,
            gas: GAS_FOR_BUY_TOKEN,
        };
        PurchaseDispatch { call, callback }
    }

    /// Shapes the Mintbase purchase call: target contract and token only,
    /// the price implied by the attached value, with the resolution
    /// callback chained behind it.
    fn internal_buy_from_mintbase(
        &self,
        ctx: &Context,
        marketplace_contract_id: AccountId,
        price: u128,
        snipe: &Snipe,
        token_id: TokenId,
    ) -> (out: PurchaseDispatch)
        ensures
            out.call == (MarketplaceCall::MintbaseBuy {
                marketplace_contract_id: marketplace_contract_id,
                nft_contract_id: snipe.contract_id,
                token_id: token_id,
                attached_deposit: price,
                gas: GAS_FOR_BUY_TOKEN,
            }),
            out.callback == (ResolveCallback {
                receiver_id: ctx.current_account_id,
                marketplace_contract_id: marketplace_contract_id,
                snipe_id: snipe.snipe_id,
                price: price,
                token_id: token_id,
                gas: GAS_FOR_RESOLVE_BUY,
            }),
    {
        let nft_contract_id = snipe.contract_id.clone();
        let callback = ResolveCallback {
            receiver_id: ctx.current_account_id.clone(),
            marketplace_contract_id: marketplace_contract_id.clone(),
            snipe_id: snipe.snipe_id,
            price,
            token_id: token_id.clone(),
            gas: GAS_FOR_RESOLVE_BUY,
        };
        let call = MarketplaceCall::MintbaseBuy {
            marketplace_contract_id,
            nft_contract_id,
            token_id,
            attached_deposit: price,
            gas: GAS_FOR_BUY_TOKEN,
        };
        PurchaseDispatch { call, callback }
    }

    /// Dispatches the purchase of a `Waiting` record on a registered
    /// marketplace. Operator only. Every guard is checked before anything
    /// mutates; the record is locked in `Sniping` before the outbound call
    /// leaves, so no other operation can observe `Waiting` while the
    /// purchase is in flight. A refused guard leaves everything untouched
    /// and issues no call.
    pub fn buy_token(
        &mut self,
        ctx: &Context,
        marketplace_contract_id: AccountId,
        price: u128,
        snipe_id: SnipeId,
        token_id: Option<TokenId>,
    ) -> (r: Result<PurchaseDispatch, SnipeError>)
        requires
            old(self).wf(),
        ensures
            final(self).wf(),
            r is Ok <==> dispatch_allowed(
                *old(self),
                *ctx,
                marketplace_contract_id,
                price,
                snipe_id,
                token_id,
            ),
            r matches Ok(out) ==> dispatched(
                *old(self),
                *final(self),
                *ctx,
                marketplace_contract_id,
                price,
                snipe_id,
                token_id,
                out,
            ),
            r matches Err(e) ==> *final(self) == *old(self) && e == dispatch_error(
                *old(self),
                *ctx,
                marketplace_contract_id,
                price,
                snipe_id,
                token_id,
            ),
    {
        match self.assert_owner(ctx) {
            Ok(()) => {},
            Err(e) => { return Err(e) },
        }
        if !(1 <= snipe_id && snipe_id <= self.snipe_by_id.len() as u64) {
            return Err(SnipeError::SnipeNotFound);
        }
        let idx = (snipe_id - 1) as usize;
        if self.snipe_by_id[idx].status != SnipeStatus::Waiting {
            return Err(SnipeError::NotWaiting);
        }
        let target_token_id: TokenId = match &self.snipe_by_id[idx].token_id {
            Some(t) => t.clone(),
            None => match token_id {
                Some(t) => t,
                None => { return Err(SnipeError::TokenIdRequired) },
            },
        };
        if price > self.snipe_by_id[idx].deposit {
            return Err(SnipeError::PriceExceedsDeposit);
        }
        let nft_marketplace = match self.get_nft_marketplace_by_contract(&marketplace_contract_id) {
            Some(m) => m,
            None => { return Err(SnipeError::MarketplaceNotFound) },
        };
        let ghost pre = *old(self);
        let record = copy_snipe(&self.snipe_by_id[idx]);
        match nft_marketplace {
            NftMarketplace::Paras => {
                self.snipe_by_id[idx].status = SnipeStatus::Sniping;
                proof {
                    lemma_status_update_wf(pre, *self, snipe_id, SnipeStatus::Sniping);
                }
                Ok(
                    self.internal_buy_from_paras(
                        ctx,
                        marketplace_contract_id,
                        price,
                        &record,
                        target_token_id,
                    ),
                )
            },
            NftMarketplace::Mintbase => {
                self.snipe_by_id[idx].status = SnipeStatus::Sniping;
                proof {
                    lemma_status_update_wf(pre, *self, snipe_id, SnipeStatus::Sniping);
                }
                Ok(
                    self.internal_buy_from_mintbase(
                        ctx,
                        marketplace_contract_id,
                        price,
                        &record,
                        target_token_id,
                    ),
                )
            },
            NftMarketplace::Fewfar => Err(SnipeError::MarketplaceNotSupported),
        }
    }
}

/// What a resolution settles to: on success the refund to schedule (absent
/// when the price consumed the whole deposit), the forwarding of the token
/// to the depositor, and the success event; on failure only the failure
/// event — no refund, no forwarding, the deposit stays locked.
#[derive(Debug)]
pub enum ResolveOutcome {
    Success { refund: Option<Transfer>, nft_transfer: NftTransferCall, event: events::NearEvent },
    Failure { event: events::NearEvent },
}

/// When a resolution runs: only this contract itself may invoke it, the
/// record exists and is `Sniping`, and on a successful outcome the balance
/// covers whatever refund is owed.
pub open spec fn resolve_allowed(
    pre: Contract,
    ctx: Context,
    id: SnipeId,
    price: u128,
    promise_success: bool,
) -> bool {
    &&& ctx.predecessor_account_id@ == ctx.current_account_id@
    &&& pre.spec_has_snipe(id)
    &&& pre.spec_snipe(id).status == SnipeStatus::Sniping
    &&& (promise_success && pre.spec_snipe(id).deposit > price ==> ctx.account_balance
        >= pre.spec_snipe(id).deposit - price)
}

/// The error a refused resolution reports, guards checked in order.
pub open spec fn resolve_error(pre: Contract, ctx: Context, id: SnipeId) -> SnipeError {
    if ctx.predecessor_account_id@ != ctx.current_account_id@ {
        SnipeError::SelfCallOnly
    } else if !pre.spec_has_snipe(id) {
        SnipeError::SnipeNotFound
    } else if pre.spec_snipe(id).status != SnipeStatus::Sniping {
        SnipeError::NotSniping
    } else {
        SnipeError::NotEnoughBalance
    }
}

/// The whole effect of resolving a failed purchase: the record committed
/// to `Failed` with no transfer of any kind, and the failure event carrying
/// the attempted marketplace, price and token.
pub open spec fn resolved_failure(
    pre: Contract,
    post: Contract,
    marketplace: AccountId,
    id: SnipeId,
    price: u128,
    token_id: TokenId,
    out: ResolveOutcome,
) -> bool {
    let s = pre.spec_snipe(id);
    &&& post.owner_id == pre.owner_id
    &&& post.snipe_by_id@ == pre.snipe_by_id@.update(id - 1, with_status(s, SnipeStatus::Failed))
    &&& post.snipes_by_account_id@ == pre.snipes_by_account_id@
    &&& out matches ResolveOutcome::Failure { event } && event.is_v1(
        events::SnipeNearEventKind::BuyToken(
            events::LogBuyToken {
                marketplace_contract_id: marketplace,
                price: price,
                snipe_id: id,
                token_id: token_id,
                status: SnipeStatus::Failed,
                account_id: s.account_id,
            },
        ),
    )
}

/// The whole effect of resolving a successful purchase: the record set to
/// `Success`, a refund of exactly `deposit - price` scheduled to the owner
/// when that is positive and no transfer at all when it is zero, the token
/// forwarded to the owner with the one-unit authorization attached, and
/// the success event.
pub open spec fn resolved_success(
    pre: Contract,
    post: Contract,
    marketplace: AccountId,
    id: SnipeId,
    price: u128,
    token_id: TokenId,
    out: ResolveOutcome,
) -> bool {
    let s = pre.spec_snipe(id);
    &&& post.owner_id == pre.owner_id
    &&& post.snipe_by_id@ == pre.snipe_by_id@.update(id - 1, with_status(s, SnipeStatus::Success))
    &&& post.snipes_by_account_id@ == pre.snipes_by_account_id@
    &&& out matches ResolveOutcome::Success { refund, nft_transfer, event } && {
        &&& refund == if s.deposit > price {
            Some(Transfer { receiver_id: s.account_id, amount: (s.deposit - price) as u128 })
        } else {
            None::<Transfer>
        }
        &&& nft_transfer == (NftTransferCall {
            nft_contract_id: s.contract_id,
            receiver_id: s.account_id,
            token_id: token_id,
            approval_id: None,
            memo: None,
            attached_deposit: 1,
            gas: GAS_FOR_NFT_TRANSFER,
        })
        &&& event.is_v1(
            events::SnipeNearEventKind::BuyToken(
                events::LogBuyToken {
                    marketplace_contract_id: marketplace,
                    price: price,
                    snipe_id: id,
                    token_id: token_id,
                    status: SnipeStatus::Success,
                    account_id: s.account_id,
                },
            ),
        )
    }
}

impl Contract {
    /// Settles the outcome of a dispatched purchase. Callable only as this
    /// contract's own chained continuation; the host supplies the outcome
    /// flag. On failure the `Failed` status and its event are committed
    /// before the host aborts the rest of the invocation; on success the
    /// unspent escrow is refunded and the token forwarded.
    ///
    /// The continuation payload always carries the price the dispatch was
    /// issued with, which the dispatch-time guard bounded by the deposit;
    /// the precondition records that bound.
    pub fn resolve_buy(
        &mut self,
        ctx: &Context,
        marketplace_contract_id: AccountId,
        snipe_id: SnipeId,
        price: u128,
        token_id: TokenId,
        promise_success: bool,
    ) -> (r: Result<ResolveOutcome, SnipeError>)
        requires
            old(self).wf(),
            old(self).spec_has_snipe(snipe_id) && old(self).spec_snipe(snipe_id).status
                == SnipeStatus::Sniping ==> price <= old(self).spec_snipe(snipe_id).deposit,
        ensures
            final(self).wf(),
            r is Ok <==> resolve_allowed(*old(self), *ctx, snipe_id, price, promise_success),
            r matches Err(e) ==> *final(self) == *old(self) && e == resolve_error(
                *old(self),
                *ctx,
                snipe_id,
            ),
            r matches Ok(out) ==> !promise_success ==> resolved_failure(
                *old(self),
                *final(self),
                marketplace_contract_id,
                snipe_id,
                price,
                token_id,
                out,
            ),
            r matches Ok(out) ==> promise_success ==> resolved_success(
                *old(self),
                *final(self),
                marketplace_contract_id,
                snipe_id,
                price,
                token_id,
                out,
            ),
    {
        if !account_eq(&ctx.predecessor_account_id, &ctx.current_account_id) {
            return Err(SnipeError::SelfCallOnly);
        }
        if !(1 <= snipe_id && snipe_id <= self.snipe_by_id.len() as u64) {
            return Err(SnipeError::SnipeNotFound);
        }
        let idx = (snipe_id - 1) as usize;
        if self.snipe_by_id[idx].status != SnipeStatus::Sniping {
            return Err(SnipeError::NotSniping);
        }
        let ghost pre = *old(self);
        let owner = self.snipe_by_id[idx].account_id.clone();

        if !promise_success {
            self.snipe_by_id[idx].status = SnipeStatus::Failed;
            proof {
                lemma_status_update_wf(pre, *self, snipe_id, SnipeStatus::Failed);
            }
            let event = events::NearEvent::buy_token(
                events::LogBuyToken {
                    marketplace_contract_id,
                    price,
                    snipe_id,
                    token_id,
                    status: SnipeStatus::Failed,
                    account_id: owner,
                },
            );
            return Ok(ResolveOutcome::Failure { event });
        }

        let deposit = self.snipe_by_id[idx].deposit;
        let refund_deposit = deposit - price;
        let refund: Option<Transfer> = if refund_deposit > 0 {
            match self.internal_transfer_near(ctx, owner.clone(), refund_deposit) {
                Ok(t) => Some(t),
                Err(e) => { return Err(e) },
            }
        } else {
            None
        };

        self.snipe_by_id[idx].status = SnipeStatus::Success;
        proof {
            lemma_status_update_wf(pre, *self, snipe_id, SnipeStatus::Success);
        }
        let nft_contract_id = self.snipe_by_id[idx].contract_id.clone();
        let nft_transfer = NftTransferCall {
            nft_contract_id,
            receiver_id: owner.clone(),
            token_id: token_id.clone(),
            approval_id: None,
            memo: None,
            attached_deposit: 1,
            gas: GAS_FOR_NFT_TRANSFER,
        };
        let event = events::NearEvent::buy_token(
            events::LogBuyToken {
                marketplace_contract_id,
                price,
                snipe_id,
                token_id,
                status: SnipeStatus::Success,
                account_id: owner,
            },
        );
        Ok(ResolveOutcome::Success { refund, nft_transfer, event })
    }
}

/// How many records a listing returns: what remains of the owner's ids
/// after the offset, capped by the limit when one is given.
pub open spec fn spec_list_len(ids_len: int, start: int, limit: Option<u64>) -> int {
    let avail = if start <= ids_len {
        ids_len - start
    } else {
        0
    };
    match limit {
        Some(l) => if l < avail {
            l as int
        } else {
            avail
        },
        None => avail,
    }
}

/// The whole content of a listing: the owner's records, in index order,
/// from the given offset, at most the given limit of them.
pub open spec fn listed(
    pre: Contract,
    account: Seq<char>,
    from_index: Option<u64>,
    limit: Option<u64>,
    out: Seq<Snipe>,
) -> bool {
    let ids = pre.spec_owner_ids(account);
    let start = match from_index {
        Some(v) => v as int,
        None => 0,
    };
    &&& out.len() == spec_list_len(ids.len() as int, start, limit)
    &&& forall|k: int| 0 <= k < out.len() ==> out[k] == pre.spec_snipe(ids[start + k])
}

impl Contract {
    /// Lists an owner's records, in index order, paginated by an optional
    /// offset and limit. An owner with no index entry at all fails with
    /// `AccountNotFound`: since every open indexes its owner, an unknown
    /// owner and one that never opened anything are indistinguishable, by
    /// design.
    pub fn snipes_by_account_id(
        &self,
        account_id: &AccountId,
        from_index: Option<u64>,
        limit: Option<u64>,
    ) -> (r: Result<Vec<Snipe>, SnipeError>)
        requires
            self.wf(),
        ensures
            r is Ok <==> self.spec_has_owner(account_id@),
            r matches Ok(out) ==> listed(*self, account_id@, from_index, limit, out@),
            r matches Err(e) ==> e == SnipeError::AccountNotFound,
    {
        let n = self.snipes_by_account_id.len();
        let mut j: usize = 0;
        let mut found: Option<usize> = None;
        while j < n
            invariant
                n == self.snipes_by_account_id.len(),
                j <= n,
                found matches Some(f) ==> f < n && self.snipes_by_account_id@[f as int].account_id@
                    == account_id@,
                found is None ==> forall|k: int|
                    0 <= k < j ==> (#[trigger] self.snipes_by_account_id@[k]).account_id@
                        != account_id@,
            decreases n - j,
        {
            if found.is_none() && account_eq(&self.snipes_by_account_id[j].account_id, account_id) {
                found = Some(j);
            }
            j += 1;
        }
        let f = match found {
            Some(f) => f,
            None => { return Err(SnipeError::AccountNotFound) },
        };
        proof {
            assert(self.spec_has_owner(account_id@));
            let je = self.spec_owner_entry(account_id@);
            if je != f as int {
                if je < f as int {
                    assert(self.snipes_by_account_id@[je].account_id@
                        != self.snipes_by_account_id@[f as int].account_id@);
                } else {
                    assert(self.snipes_by_account_id@[f as int].account_id@
                        != self.snipes_by_account_id@[je].account_id@);
                }
                assert(false);
            }
        }

        let ids_len = self.snipes_by_account_id[f].snipe_ids.len();
        let start_u64: u64 = match from_index {
            Some(v) => v,
            None => 0,
        };
        let mut result: Vec<Snipe> = Vec::new();
        if start_u64 >= ids_len as u64 {
            return Ok(result);
        }
        let start = start_u64 as usize;
        let avail = ids_len - start;
        let take: usize = match limit {
            Some(l) => if l < avail as u64 {
                l as usize
            } else {
                avail
            },
            None => avail,
        };
        let mut k: usize = 0;
        while k < take
            invariant
                self.wf(),
                f < self.snipes_by_account_id@.len(),
                self.snipes_by_account_id@[f as int].account_id@ == account_id@,
                start + take <= self.snipes_by_account_id@[f as int].snipe_ids@.len(),
                start + take <= usize::MAX,
                k <= take,
                result@.len() == k,
                forall|m: int|
                    0 <= m < k ==> #[trigger] result@[m] == self.spec_snipe(
                        self.snipes_by_account_id@[f as int].snipe_ids@[start + m],
                    ),
            decreases take - k,
        {
            let id = self.snipes_by_account_id[f].snipe_ids[start + k];
            let total: usize = self.snipe_by_id.len();
            proof {
                assert(self.spec_has_snipe(
                    self.snipes_by_account_id@[f as int].snipe_ids@[(start + k) as int],
                ));
                assert(self.snipe_by_id@.len() == total);
            }
            let idx = (id - 1) as usize;
            result.push(copy_snipe(&self.snipe_by_id[idx]));
            k += 1;
        }
        Ok(result)
    }
}

} // verus!
