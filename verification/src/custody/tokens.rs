//! Taking tokens into custody and sending them to the accounts of their users.

use vstd::prelude::*;
use crate::context::{Context, PromiseOutcome};
use crate::custody::events::{AddTokenLog, EventLog, EventLogVariant, SendTokenLog};
use crate::custody::{Contract, State};
use crate::error::Error;
use crate::host::{is_lower_alphanumeric, is_separator, is_valid_account_id, valid_account_id};
use crate::string_set::{lemma_removed_from, removed_from, StringSet};

verus! {

/// The gas handed to the remote transfer.
pub const GAS_FOR_NFT_TRANSFER: u64 = 15_000_000_000_000;

/// The gas handed to the resolution of a transfer.
pub const GAS_FOR_RESOLVE_TRANSFER: u64 = 15_000_000_000_000;

/// A remote transfer to carry out: ask the token contract to hand the token
/// to the receiver, and report back how it went together with `owner_id`,
/// the token and `resolve_memo`.
#[derive(Debug, Clone, PartialEq, Eq)]
pub struct TransferRequest {
    pub token_account_id: String,
    pub receiver_id: String,
    pub token_id: String,
    pub approval_id: Option<u64>,
    pub transfer_memo: Option<String>,
    pub deposit: u128,
    pub transfer_gas: u64,
    pub resolve_gas: u64,
    pub owner_id: String,
    pub resolve_memo: Option<String>,
}

/// How the ledger writes a token: the account of its contract, a colon, its id.
pub open spec fn token_info(token_account_id: Seq<char>, token_id: Seq<char>) -> Seq<char> {
    token_account_id + seq![':'] + token_id
}

/// The tokens held for `owner_id`; none for a user that the ledger does not know.
pub open spec fn held_for(s: State, owner_id: Seq<char>) -> Seq<Seq<char>> {
    if s.tokens_per_owner.contains_key(owner_id) {
        s.tokens_per_owner[owner_id]
    } else {
        Seq::empty()
    }
}

/// Why a token cannot be taken into custody, if it cannot.
pub open spec fn add_token_refusal(
    s: State,
    caller: Seq<char>,
    owner_id: Seq<char>,
    token_account_id: Seq<char>,
    token_id: Seq<char>,
) -> Option<Error> {
    if caller != s.owner_id {
        Some(Error::CallerNotOwner)
    } else if !valid_account_id(token_account_id) {
        Some(Error::InvalidAccountId)
    } else if held_for(s, owner_id).contains(token_info(token_account_id, token_id)) {
        Some(Error::TokenInfoExists)
    } else {
        None
    }
}

/// Why a token is not sent to its user, if it is not.
pub open spec fn send_token_refusal(
    s: State,
    signer: Seq<char>,
    owner_id: Seq<char>,
    token_account_id: Seq<char>,
    token_id: Seq<char>,
) -> Option<Error> {
    if !s.user_to_account.contains_key(owner_id) {
        Some(Error::NoLinkedAccount)
    } else if s.user_to_account[owner_id] != signer {
        Some(Error::CallerNotLinkedAccount)
    } else if !held_for(s, owner_id).contains(token_info(token_account_id, token_id)) {
        Some(Error::TokenNotHeld)
    } else {
        None
    }
}

/// The ledger after a token was taken into custody for a user.
pub open spec fn with_held(s: State, owner_id: Seq<char>, info: Seq<char>) -> State {
    State { tokens_per_owner: s.tokens_per_owner.insert(owner_id, held_for(s, owner_id).push(info)), ..s }
}

/// The ledger after a token held for a user was released.
pub open spec fn without_held(s: State, owner_id: Seq<char>, info: Seq<char>) -> State {
    State {
        tokens_per_owner: s.tokens_per_owner.insert(
            owner_id,
            removed_from(s.tokens_per_owner[owner_id], info),
        ),
        ..s
    }
}

/// Why a finished transfer does not release the token, if it does not.
pub open spec fn resolve_transfer_refusal(
    s: State,
    ctx: Context,
    outcome: PromiseOutcome,
    owner_id: Seq<char>,
    token_account_id: Seq<char>,
    token_id: Seq<char>,
) -> Option<Error> {
    if ctx.predecessor_account_id@ != ctx.current_account_id@ {
        Some(Error::NotCallback)
    } else if outcome == PromiseOutcome::Failed {
        Some(Error::TransferFailed)
    } else if !held_for(s, owner_id).contains(token_info(token_account_id, token_id)) {
        Some(Error::TokenNotHeld)
    } else {
        None
    }
}

/// Writes a token as the ledger stores it.
pub fn token_info_string(token_account_id: &String, token_id: &String) -> (info: String)
    ensures
        info@ == token_info(token_account_id@, token_id@),
{
    proof {
        reveal_strlit(":");
    }
    let info = token_account_id.clone().concat(":").concat(token_id.as_str());
    assert(info@ =~= token_info(token_account_id@, token_id@));
    info
}

impl Contract {
    /// Takes a token into custody for `owner_id`. Only the owner of the
    /// ledger may do so, the contract of the token must be named by a valid
    /// account id, and a token is taken only once for a user.
    pub fn add_new_token_for_owner(
        &mut self,
        ctx: &Context,
        owner_id: String,
        token_account_id: String,
        token_id: String,
        memo: Option<String>,
    ) -> (r: Result<EventLog, Error>)
        requires
            old(self).wf(),
        ensures
            final(self).wf(),
            match r {
                Err(e) => add_token_refusal(
                    old(self)@,
                    ctx.predecessor_account_id@,
                    owner_id@,
                    token_account_id@,
                    token_id@,
                ) == Some(e) && *final(self) == *old(self),
                Ok(log) => {
                    &&& add_token_refusal(
                        old(self)@,
                        ctx.predecessor_account_id@,
                        owner_id@,
                        token_account_id@,
                        token_id@,
                    ) is None
                    &&& final(self)@ == with_held(
                        old(self)@,
                        owner_id@,
                        token_info(token_account_id@, token_id@),
                    )
                    &&& log.is_add_token(owner_id@, token_account_id@, token_id@, memo)
                },
            },
    {
        match self.assert_owner(ctx) {
            Err(e) => {
                return Err(e);
            },
            Ok(_) => {},
        }
        if !is_valid_account_id(token_account_id.as_str()) {
            return Err(Error::InvalidAccountId);
        }
        let info = token_info_string(&token_account_id, &token_id);
        match self.tokens_per_owner.get(&owner_id) {
            Some(tokens) => {
                if tokens.contains(&info) {
                    return Err(Error::TokenInfoExists);
                }
            },
            None => {},
        }
        let mut tokens = match self.tokens_per_owner.remove(&owner_id) {
            Some(tokens) => tokens,
            None => StringSet::new(),
        };
        let _ = tokens.insert(info);
        let _ = self.tokens_per_owner.insert(owner_id.clone(), tokens);
        assert(self@.tokens_per_owner =~= old(self)@.tokens_per_owner.insert(
            owner_id@,
            held_for(old(self)@, owner_id@).push(token_info(token_account_id@, token_id@)),
        ));
        let mut data: Vec<AddTokenLog> = Vec::new();
        data.push(AddTokenLog { owner_id, token_account_id, token_id, memo });
        Ok(EventLog::new(EventLogVariant::AddToken(data)))
    }

    /// Prepares the transfer of a token to the account that its user has
    /// linked. The call must be signed by that account, and the ledger must
    /// hold the token for the user. Nothing changes yet: the token leaves
    /// the ledger when the transfer is resolved.
    pub fn send_token_to_owner(
        &self,
        ctx: &Context,
        owner_id: String,
        token_account_id: String,
        token_id: String,
        transfer_memo: Option<String>,
        resolve_memo: Option<String>,
    ) -> (r: Result<TransferRequest, Error>)
        requires
            self.wf(),
        ensures
            match r {
                Err(e) => send_token_refusal(
                    self@,
                    ctx.signer_account_id@,
                    owner_id@,
                    token_account_id@,
                    token_id@,
                ) == Some(e),
                Ok(request) => {
                    &&& send_token_refusal(
                        self@,
                        ctx.signer_account_id@,
                        owner_id@,
                        token_account_id@,
                        token_id@,
                    ) is None
                    &&& request.token_account_id == token_account_id
                    &&& request.receiver_id@ == ctx.signer_account_id@
                    &&& request.token_id == token_id
                    &&& request.approval_id is None
                    &&& request.transfer_memo == transfer_memo
                    &&& request.deposit == 1
                    &&& request.transfer_gas == GAS_FOR_NFT_TRANSFER
                    &&& request.resolve_gas == GAS_FOR_RESOLVE_TRANSFER
                    &&& request.owner_id == owner_id
                    &&& request.resolve_memo == resolve_memo
                },
            },
    {
        match self.user_to_account.get(&owner_id) {
            None => {
                return Err(Error::NoLinkedAccount);
            },
            Some(account_id) => {
                if !(*account_id == ctx.signer_account_id) {
                    return Err(Error::CallerNotLinkedAccount);
                }
            },
        }
        let info = token_info_string(&token_account_id, &token_id);
        match self.tokens_per_owner.get(&owner_id) {
            None => {
                return Err(Error::TokenNotHeld);
            },
            Some(tokens) => {
                if !tokens.contains(&info) {
                    return Err(Error::TokenNotHeld);
                }
            },
        }
        Ok(
            TransferRequest {
                token_account_id,
                receiver_id: ctx.signer_account_id.clone(),
                token_id,
                approval_id: None,
                transfer_memo,
                deposit: 1,
                transfer_gas: GAS_FOR_NFT_TRANSFER,
                resolve_gas: GAS_FOR_RESOLVE_TRANSFER,
                owner_id,
                resolve_memo,
            },
        )
    }

    /// Ends a transfer. Only the ledger itself may call this, when the
    /// transfer it asked for has ended. A failed transfer leaves the ledger
    /// as it was. A successful one releases the token: the last token held
    /// for the user takes its place in the order.
    pub fn resolve_transfer(
        &mut self,
        ctx: &Context,
        outcome: PromiseOutcome,
        owner_id: String,
        token_account_id: String,
        token_id: String,
        memo: Option<String>,
    ) -> (r: Result<EventLog, Error>)
        requires
            old(self).wf(),
        ensures
            final(self).wf(),
            match r {
                Err(e) => resolve_transfer_refusal(
                    old(self)@,
                    *ctx,
                    outcome,
                    owner_id@,
                    token_account_id@,
                    token_id@,
                ) == Some(e) && *final(self) == *old(self),
                Ok(log) => {
                    &&& resolve_transfer_refusal(
                        old(self)@,
                        *ctx,
                        outcome,
                        owner_id@,
                        token_account_id@,
                        token_id@,
                    ) is None
                    &&& final(self)@ == without_held(
                        old(self)@,
                        owner_id@,
                        token_info(token_account_id@, token_id@),
                    )
                    &&& !held_for(final(self)@, owner_id@).contains(
                        token_info(token_account_id@, token_id@),
                    )
                    &&& log.is_send_token(owner_id@, token_account_id@, token_id@, memo)
                },
            },
    {
        if !(ctx.predecessor_account_id == ctx.current_account_id) {
            return Err(Error::NotCallback);
        }
        match outcome {
            PromiseOutcome::Failed => {
                return Err(Error::TransferFailed);
            },
            PromiseOutcome::Successful => {},
        }
        let info = token_info_string(&token_account_id, &token_id);
        match self.tokens_per_owner.get(&owner_id) {
            None => {
                return Err(Error::TokenNotHeld);
            },
            Some(tokens) => {
                if !tokens.contains(&info) {
                    return Err(Error::TokenNotHeld);
                }
            },
        }
        let mut tokens = self.tokens_per_owner.remove(&owner_id).unwrap();
        let _ = tokens.remove(&info);
        let _ = self.tokens_per_owner.insert(owner_id.clone(), tokens);
        assert(self@.tokens_per_owner =~= old(self)@.tokens_per_owner.insert(
            owner_id@,
            removed_from(
                old(self)@.tokens_per_owner[owner_id@],
                token_info(token_account_id@, token_id@),
            ),
        ));
        let mut data: Vec<SendTokenLog> = Vec::new();
        data.push(SendTokenLog { owner_id, token_account_id, token_id, memo });
        Ok(EventLog::new(EventLogVariant::SendToken(data)))
    }
}

/// An account id holds no colon, so the colon that the ledger writes between
/// the account and the token id is the first one.
pub proof fn lemma_account_id_has_no_colon(account_id: Seq<char>)
    requires
        valid_account_id(account_id),
    ensures
        !account_id.contains(':'),
{
    if account_id.contains(':') {
        let i = account_id.index_of(':');
        assert(is_lower_alphanumeric(account_id[i]) || is_separator(account_id[i]));
    }
}

/// The way the ledger writes a token names one token: two tokens that are
/// written alike have the same contract and the same id, as long as the
/// accounts of the contracts hold no colon.
pub proof fn law_token_info_names_one_token(
    first_account: Seq<char>,
    first_id: Seq<char>,
    second_account: Seq<char>,
    second_id: Seq<char>,
)
    requires
        !first_account.contains(':'),
        !second_account.contains(':'),
        token_info(first_account, first_id) == token_info(second_account, second_id),
    ensures
        first_account == second_account,
        first_id == second_id,
{
    let x = token_info(first_account, first_id);
    let y = token_info(second_account, second_id);
    let n = first_account.len() as int;
    let m = second_account.len() as int;
    assert(x[n] == ':');
    assert(y[m] == ':');
    if n < m {
        assert(y[n] == second_account[n]);
        assert(second_account.contains(second_account[n]));
    }
    if m < n {
        assert(x[m] == first_account[m]);
        assert(first_account.contains(first_account[m]));
    }
    assert(first_account =~= x.subrange(0, n));
    assert(second_account =~= y.subrange(0, m));
    assert(first_id =~= x.subrange(n + 1, x.len() as int));
    assert(second_id =~= y.subrange(m + 1, y.len() as int));
}

/// A token is taken into custody once for a user: after it was taken,
/// taking it again is refused as a duplicate, while any other token of a
/// valid contract is refused or taken exactly as it was before.
pub proof fn law_token_is_held_once(
    s: State,
    caller: Seq<char>,
    owner_id: Seq<char>,
    token_account_id: Seq<char>,
    token_id: Seq<char>,
    other_account_id: Seq<char>,
    other_id: Seq<char>,
)
    requires
        add_token_refusal(s, caller, owner_id, token_account_id, token_id) is None,
        other_account_id != token_account_id || other_id != token_id,
    ensures
        add_token_refusal(
            with_held(s, owner_id, token_info(token_account_id, token_id)),
            caller,
            owner_id,
            token_account_id,
            token_id,
        ) == Some(Error::TokenInfoExists),
        add_token_refusal(
            with_held(s, owner_id, token_info(token_account_id, token_id)),
            caller,
            owner_id,
            other_account_id,
            other_id,
        ) == add_token_refusal(s, caller, owner_id, other_account_id, other_id),
{
    let info = token_info(token_account_id, token_id);
    let other = token_info(other_account_id, other_id);
    let before = held_for(s, owner_id);
    let held = before.push(info);
    assert(held[held.len() - 1] == info);
    if valid_account_id(other_account_id) {
        lemma_account_id_has_no_colon(token_account_id);
        lemma_account_id_has_no_colon(other_account_id);
        if other == info {
            law_token_info_names_one_token(token_account_id, token_id, other_account_id, other_id);
        }
        if before.contains(other) {
            assert(held[before.index_of(other)] == other);
        }
        if held.contains(other) {
            assert(before[held.index_of(other)] == other);
        }
    }
}

/// A token leaves custody only by a transfer that succeeded. A transfer that
/// failed is refused, so that the ledger stays as it was. After one that
/// succeeded the user no longer holds the token, still holds every other
/// one, and the transfer cannot be resolved a second time.
pub proof fn law_transfer_releases_the_token(
    s: State,
    ctx: Context,
    outcome: PromiseOutcome,
    owner_id: Seq<char>,
    token_account_id: Seq<char>,
    token_id: Seq<char>,
)
    requires
        held_for(s, owner_id).no_duplicates(),
    ensures
        outcome == PromiseOutcome::Failed ==> resolve_transfer_refusal(
            s,
            ctx,
            outcome,
            owner_id,
            token_account_id,
            token_id,
        ) is Some,
        resolve_transfer_refusal(s, ctx, outcome, owner_id, token_account_id, token_id) is None ==> {
            let info = token_info(token_account_id, token_id);
            let t = without_held(s, owner_id, info);
            &&& !held_for(t, owner_id).contains(info)
            &&& forall|other: Seq<char>|
                other != info ==> held_for(t, owner_id).contains(other) == held_for(
                    s,
                    owner_id,
                ).contains(other)
            &&& resolve_transfer_refusal(t, ctx, outcome, owner_id, token_account_id, token_id)
                == Some(Error::TokenNotHeld)
        },
{
    lemma_removed_from(held_for(s, owner_id), token_info(token_account_id, token_id));
}

/// Nobody but the owner takes a token into custody.
pub proof fn law_only_the_owner_adds_tokens(
    s: State,
    caller: Seq<char>,
    owner_id: Seq<char>,
    token_account_id: Seq<char>,
    token_id: Seq<char>,
)
    requires
        caller != s.owner_id,
    ensures
        add_token_refusal(s, caller, owner_id, token_account_id, token_id) == Some(
            Error::CallerNotOwner,
        ),
{
}

} // verus!
