//! The pool state and the decision steps of the two-phase swap flow.
//!
//! Every operation here is one synchronous decision step of an
//! asynchronous flow. A step never performs a remote call itself: it
//! returns a description of the calls to issue, and the host runtime that
//! owns the [`Contract`] issues them, collects their outcomes in a
//! [`ParallelBatch`], and hands the complete batch to the matching
//! aggregation callback. The pool state is read by every step and written
//! only by the metadata-initialization callback.
//!
//! The balances a swap prices itself on are the ones queried at step one
//! of that swap; nothing here guards against a second swap settling
//! between the query and the outbound transfer, so those balances can be
//! stale. That gap is deliberate: closing it would serialize swaps, which
//! changes observable behaviour.

use crate::batch::{CallOutcome, ParallelBatch};
use crate::errors::PoolError;
use crate::pricing::{compute_swap_output, pricing_defined, swap_output};
use vstd::prelude::*;

verus! {

/// Descriptive metadata of one asset, cached purely for external
/// introspection; no swap logic reads it.
#[derive(Clone, Debug)]
pub struct MetadataRecord {
    pub symbol: String,
    pub name: String,
    pub decimals: u32,
}

/// Both cached metadata records, as `metadata_tokens` reports them.
pub struct MetadataTokens {
    pub metadata_token_a: MetadataRecord,
    pub metadata_token_b: MetadataRecord,
}

/// Two parallel metadata fetches to issue, in issue order, with
/// `cb_initialization_metadata` as the aggregation callback once both
/// settle.
pub struct MetadataQueryPlan {
    pub first_target: String,
    pub second_target: String,
}

/// Two parallel balance queries to issue, in issue order, asking each
/// ledger for `holder`'s balance, with `cb_transfer_token` as the
/// aggregation callback once both settle.
pub struct BalanceQueryPlan {
    pub first_ledger: String,
    pub second_ledger: String,
    pub holder: String,
}

/// The call-local context of one in-flight swap, carried from the inbound
/// notification into the aggregation callback. It is never written into
/// the pool state, so concurrent swaps share no mutable context.
pub struct PendingSwap {
    pub counterparty: String,
    pub token_received: String,
    pub amount_received: u128,
}

/// What the inbound-transfer notification decides.
pub enum TransferAction {
    /// Accept the deposit with this refund and do nothing else; the path
    /// the owner uses to seed or rebalance the pool without pricing.
    Accept { refund: u128 },
    /// Issue the balance queries and suspend; the refund is decided
    /// asynchronously by the aggregation callback.
    Swap { queries: BalanceQueryPlan, pending: PendingSwap },
}

/// The outbound leg of a swap: a plain transfer, with no message attached,
/// so the receiving ledger does not notify this pool back, and with the
/// minimal non-zero ancillary deposit the transfer primitive demands.
pub struct OutboundTransfer {
    pub ledger: String,
    pub receiver: String,
    pub amount: u128,
    pub attached_deposit: u128,
    pub memo: Option<String>,
}

/// The ancillary deposit attached to every outbound transfer.
pub const TRANSFER_DEPOSIT: u128 = 1;

/// The refund the pool reports for every accepted deposit: deposits are
/// accepted in full under the current policy, on the owner path and on the
/// swap path alike. The notification surface supports a partial refund;
/// none is ever issued.
pub const FULL_ACCEPTANCE_REFUND: u128 = 0;

/// The persistent pool state: the owner, the two ledger identities, and
/// the cached metadata of each asset. Created once, mutated only by the
/// metadata-initialization callback, immutable afterwards.
pub struct Contract {
    pub contract_owner: String,
    pub account_asset_a: String,
    pub account_asset_b: String,
    pub metadata_token_a: Option<MetadataRecord>,
    pub metadata_token_b: Option<MetadataRecord>,
}

/// The swap-completion decision on plain values: given the two configured
/// ledgers, the token that came in, the deposit, and both queried
/// balances, which ledger pays out and how much — or the error. The
/// received asset is found by explicit equality against each configured
/// ledger in turn, with an error when neither matches.
pub open spec fn spec_complete_swap(
    asset_a: Seq<char>,
    asset_b: Seq<char>,
    token_received: Seq<char>,
    amount_received: int,
    balance_a: int,
    balance_b: int,
) -> Result<(Seq<char>, int), PoolError> {
    if token_received == asset_a {
        if pricing_defined(balance_a, balance_b, amount_received) {
            Ok((asset_b, swap_output(balance_a, balance_b, amount_received)))
        } else {
            Err(PoolError::Arithmetic)
        }
    } else if token_received == asset_b {
        if pricing_defined(balance_b, balance_a, amount_received) {
            Ok((asset_a, swap_output(balance_b, balance_a, amount_received)))
        } else {
            Err(PoolError::Arithmetic)
        }
    } else {
        Err(PoolError::UnknownAsset)
    }
}

/// Symmetry of the completion step: a pool with the two ledger roles
/// exchanged, handed the same deposit and the same balances under the
/// exchanged indexing, decides exactly the same outbound transfer or
/// error.
pub proof fn lemma_swap_symmetry(
    asset_a: Seq<char>,
    asset_b: Seq<char>,
    token_received: Seq<char>,
    amount_received: int,
    balance_a: int,
    balance_b: int,
)
    requires
        asset_a != asset_b,
    ensures
        spec_complete_swap(
            asset_b,
            asset_a,
            token_received,
            amount_received,
            balance_b,
            balance_a,
        ) == spec_complete_swap(
            asset_a,
            asset_b,
            token_received,
            amount_received,
            balance_a,
            balance_b,
        ),
{
}

impl Contract {
    /// Both metadata records are cached; true permanently once the
    /// initialization callback succeeded.
    pub open spec fn initialized(&self) -> bool {
        self.metadata_token_a is Some && self.metadata_token_b is Some
    }

    /// The state invariant: metadata is cached for both assets or for
    /// neither, never for one alone.
    pub open spec fn well_formed(&self) -> bool {
        self.metadata_token_a is Some <==> self.metadata_token_b is Some
    }

    /// Whether an inbound notification from `caller` is trusted: only the
    /// two configured ledgers are.
    pub open spec fn authorized_caller(&self, caller: Seq<char>) -> bool {
        caller == self.account_asset_a@ || caller == self.account_asset_b@
    }

    /// Creates the pool around the given owner and ledger identities, with
    /// no metadata cached yet, and plans the two parallel metadata fetches
    /// — one per ledger, in issue order A then B. The caller must not read
    /// metadata before the aggregation callback has run.
    pub fn new(contract_owner: String, account_asset_a: String, account_asset_b: String) -> (r: (
        Contract,
        MetadataQueryPlan,
    ))
        ensures
            r.0.contract_owner == contract_owner,
            r.0.account_asset_a == account_asset_a,
            r.0.account_asset_b == account_asset_b,
            r.0.metadata_token_a is None,
            r.0.metadata_token_b is None,
            r.0.well_formed(),
            r.1.first_target@ == account_asset_a@,
            r.1.second_target@ == account_asset_b@,
    {
        let plan = MetadataQueryPlan {
            first_target: account_asset_a.clone(),
            second_target: account_asset_b.clone(),
        };
        let state = Contract {
            contract_owner,
            account_asset_a,
            account_asset_b,
            metadata_token_a: None,
            metadata_token_b: None,
        };
        (state, plan)
    }

    /// The aggregation callback of construction: runs once, exactly when
    /// both metadata fetches have settled. Caches both records when both
    /// calls succeeded; when either failed or was undecodable it leaves
    /// the pool untouched — permanently uninitialized, never half
    /// initialized — and reports the construction failure.
    pub fn cb_initialization_metadata(&mut self, results: ParallelBatch<MetadataRecord>) -> (r:
        Result<(), PoolError>)
        requires
            old(self).metadata_token_a is None,
            old(self).metadata_token_b is None,
            results.complete(),
        ensures
            r is Ok <==> (results.outcome(0) is Success && results.outcome(1) is Success),
            r is Err ==> r->Err_0 == PoolError::ConstructionFailed && *final(self) == *old(self),
            r is Ok ==> final(self).metadata_token_a == Some(results.outcome(0)->0)
                && final(self).metadata_token_b == Some(results.outcome(1)->0),
            final(self).contract_owner == old(self).contract_owner,
            final(self).account_asset_a == old(self).account_asset_a,
            final(self).account_asset_b == old(self).account_asset_b,
            final(self).well_formed(),
    {
        let (first, second) = results.into_results();
        let record_a = match first {
            CallOutcome::Success(record) => record,
            CallOutcome::Failed => {
                return Err(PoolError::ConstructionFailed);
            },
        };
        let record_b = match second {
            CallOutcome::Success(record) => record,
            CallOutcome::Failed => {
                return Err(PoolError::ConstructionFailed);
            },
        };
        self.metadata_token_a = Some(record_a);
        self.metadata_token_b = Some(record_b);
        Ok(())
    }

    /// The inbound-transfer notification. `caller` is the identity that
    /// invoked the notification and `pool_account` the pool's own account,
    /// both read from the host environment. Rejects any caller but the two
    /// configured ledgers. A deposit from the owner is accepted with a
    /// zero refund and prices nothing. Any other deposit starts a swap:
    /// the returned plan queries the pool's balance on ledger A and then
    /// on ledger B, in that issue order, and carries the swap context into
    /// the aggregation callback.
    pub fn ft_on_transfer(
        &self,
        sender_id: String,
        amount: u128,
        _msg: String,
        caller: String,
        pool_account: String,
    ) -> (r: Result<TransferAction, PoolError>)
        ensures
            r is Err <==> !self.authorized_caller(caller@),
            r is Err ==> r->Err_0 == PoolError::Unauthorized,
            r is Ok && sender_id@ == self.contract_owner@ ==> r->Ok_0 == (TransferAction::Accept {
                refund: FULL_ACCEPTANCE_REFUND,
            }),
            r is Ok && sender_id@ != self.contract_owner@ ==> ({
                &&& r->Ok_0 matches TransferAction::Swap { queries, pending }
                &&& queries.first_ledger@ == self.account_asset_a@
                &&& queries.second_ledger@ == self.account_asset_b@
                &&& queries.holder@ == pool_account@
                &&& pending.counterparty@ == sender_id@
                &&& pending.token_received@ == caller@
                &&& pending.amount_received == amount
            }),
    {
        if !(caller == self.account_asset_a || caller == self.account_asset_b) {
            return Err(PoolError::Unauthorized);
        }
        if sender_id == self.contract_owner {
            return Ok(TransferAction::Accept { refund: FULL_ACCEPTANCE_REFUND });
        }
        Ok(
            TransferAction::Swap {
                queries: BalanceQueryPlan {
                    first_ledger: self.account_asset_a.clone(),
                    second_ledger: self.account_asset_b.clone(),
                    holder: pool_account,
                },
                pending: PendingSwap {
                    counterparty: sender_id,
                    token_received: caller,
                    amount_received: amount,
                },
            },
        )
    }

    /// The aggregation callback of a swap. Both balance queries must have
    /// settled and decoded; a missing or failed result aborts the swap —
    /// too late to undo the inbound deposit, which settled on the ledger
    /// before this step, so the abort only withholds the outbound leg.
    /// Otherwise the received asset is found by explicit equality against
    /// each configured ledger, the swap is priced on the queried balances,
    /// and the outbound transfer of the other asset to the counterparty is
    /// decided.
    pub fn cb_transfer_token(
        &self,
        counterparty: String,
        token_received: String,
        amount_received: u128,
        results: ParallelBatch<u128>,
    ) -> (r: Result<OutboundTransfer, PoolError>)
        ensures
            !(results.complete() && results.outcome(0) is Success && results.outcome(1) is Success)
                ==> r is Err && r->Err_0 == PoolError::MalformedResult,
            (results.complete() && results.outcome(0) is Success && results.outcome(1) is Success)
                ==> ({
                let decision = spec_complete_swap(
                    self.account_asset_a@,
                    self.account_asset_b@,
                    token_received@,
                    amount_received as int,
                    results.outcome(0)->0 as int,
                    results.outcome(1)->0 as int,
                );
                &&& (r is Ok <==> decision is Ok)
                &&& r is Err ==> r->Err_0 == decision->Err_0
                &&& r is Ok ==> ({
                    let transfer = r->Ok_0;
                    &&& transfer.ledger@ == decision->Ok_0.0
                    &&& transfer.amount == decision->Ok_0.1
                    &&& transfer.receiver@ == counterparty@
                    &&& transfer.attached_deposit == TRANSFER_DEPOSIT
                    &&& transfer.memo is None
                })
            }),
    {
        if !results.is_complete() {
            return Err(PoolError::MalformedResult);
        }
        let (first, second) = results.into_results();
        let balance_a = match first {
            CallOutcome::Success(balance) => balance,
            CallOutcome::Failed => {
                return Err(PoolError::MalformedResult);
            },
        };
        let balance_b = match second {
            CallOutcome::Success(balance) => balance,
            CallOutcome::Failed => {
                return Err(PoolError::MalformedResult);
            },
        };
        if token_received == self.account_asset_a {
            match compute_swap_output(balance_a, balance_b, amount_received) {
                Ok(to_send) => Ok(
                    OutboundTransfer {
                        ledger: self.account_asset_b.clone(),
                        receiver: counterparty,
                        amount: to_send,
                        attached_deposit: TRANSFER_DEPOSIT,
                        memo: None,
                    },
                ),
                Err(e) => Err(e),
            }
        } else if token_received == self.account_asset_b {
            match compute_swap_output(balance_b, balance_a, amount_received) {
                Ok(to_send) => Ok(
                    OutboundTransfer {
                        ledger: self.account_asset_a.clone(),
                        receiver: counterparty,
                        amount: to_send,
                        attached_deposit: TRANSFER_DEPOSIT,
                        memo: None,
                    },
                ),
                Err(e) => Err(e),
            }
        } else {
            Err(PoolError::UnknownAsset)
        }
    }

    /// The read-only metadata query. The pool must be initialized; the
    /// host rejects the call otherwise, since an uninitialized pool has
    /// nothing to report and never will.
    pub fn metadata_tokens(self) -> (r: MetadataTokens)
        requires
            self.initialized(),
        ensures
            r.metadata_token_a == self.metadata_token_a.unwrap(),
            r.metadata_token_b == self.metadata_token_b.unwrap(),
    {
        let record_a = match self.metadata_token_a {
            Some(record) => record,
            None => vstd::pervasive::unreached(),
        };
        let record_b = match self.metadata_token_b {
            Some(record) => record,
            None => vstd::pervasive::unreached(),
        };
        MetadataTokens { metadata_token_a: record_a, metadata_token_b: record_b }
    }
}

} // verus!
