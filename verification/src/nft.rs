//! Ownership of tokens: who holds each token, who may move it, and the one
//! operation that moves it.

use vstd::prelude::*;
use crate::error::Error;
use crate::str_map::{sets_view, sets_wf, StrMap};
use crate::string_set::{
    inserted_into,
    lemma_inserted_into,
    lemma_removed_from,
    removed_from,
    views_of,
    StringSet,
};

verus! {

/// A token: its owner, the accounts approved to move it, and its royalty table.
#[derive(Debug, Clone)]
pub struct Token {
    pub owner_id: String,
    /// Each approved account with the id of its approval.
    pub approved_account_ids: StrMap<u64>,
    /// The id that the next approval will get.
    pub next_approval_id: u64,
    /// Each payee with its share, in hundredths of a percent.
    pub royalty: StrMap<u32>,
}

impl Token {
    pub open spec fn wf(&self) -> bool {
        self.approved_account_ids.wf() && self.royalty.wf()
    }
}

/// The record of one transfer.
#[derive(Debug, Clone, PartialEq, Eq)]
pub struct NftTransferLog {
    /// The approved account that moved the token, if it was not the owner.
    pub authorized_id: Option<String>,
    pub old_owner_id: String,
    pub new_owner_id: String,
    pub token_ids: Vec<String>,
    pub memo: Option<String>,
}

/// The tokens and the index of what each account owns.
#[derive(Debug, Clone)]
pub struct Contract {
    /// Each account that owns something, with the ids of its tokens.
    pub tokens_per_owner: StrMap<StringSet>,
    pub tokens_by_id: StrMap<Token>,
}

/// Accepts a call only if it carries a deposit of at least one yoctoNEAR.
pub fn assert_at_least_one_yocto(attached_deposit: u128) -> (r: Result<(), Error>)
    ensures
        r == (if attached_deposit >= 1 {
            Ok::<(), Error>(())
        } else {
            Err::<(), Error>(Error::NoDeposit)
        }),
{
    if attached_deposit >= 1 {
        Ok(())
    } else {
        Err(Error::NoDeposit)
    }
}

/// The part of `amount_to_pay` that a payee with `royalty_percentage`
/// hundredths of a percent receives, rounded down.
pub open spec fn payout_share(royalty_percentage: u32, amount_to_pay: u128) -> int {
    (royalty_percentage as int * amount_to_pay as int) / 10_000
}

/// The payout for one payee. The product must fit in 128 bits.
pub fn royalty_to_payout(royalty_percentage: u32, amount_to_pay: u128) -> (payout: u128)
    requires
        royalty_percentage as int * amount_to_pay as int <= u128::MAX as int,
    ensures
        payout as int == payout_share(royalty_percentage, amount_to_pay),
{
    let product: u128 = royalty_percentage as u128 * amount_to_pay;
    product / 10_000u128
}

/// The payout for one payee, or `None` where the product does not fit in 128 bits.
pub fn checked_royalty_to_payout(royalty_percentage: u32, amount_to_pay: u128) -> (payout: Option<
    u128,
>)
    ensures
        match payout {
            Some(p) => royalty_percentage as int * amount_to_pay as int <= u128::MAX as int
                && p as int == payout_share(royalty_percentage, amount_to_pay),
            None => royalty_percentage as int * amount_to_pay as int > u128::MAX as int,
        },
{
    match (royalty_percentage as u128).checked_mul(amount_to_pay) {
        Some(_) => Some(royalty_to_payout(royalty_percentage, amount_to_pay)),
        None => None,
    }
}

/// The owner index `idx` after `owner` gave up `token_id`: an owner left with
/// nothing leaves the index.
pub open spec fn without_token(
    idx: Map<Seq<char>, Seq<Seq<char>>>,
    owner: Seq<char>,
    token_id: Seq<char>,
) -> Map<Seq<char>, Seq<Seq<char>>> {
    let rest = removed_from(idx[owner], token_id);
    if rest.len() == 0 {
        idx.remove(owner)
    } else {
        idx.insert(owner, rest)
    }
}

/// The owner index `idx` after `owner` received `token_id`.
pub open spec fn with_token(
    idx: Map<Seq<char>, Seq<Seq<char>>>,
    owner: Seq<char>,
    token_id: Seq<char>,
) -> Map<Seq<char>, Seq<Seq<char>>> {
    let held = if idx.contains_key(owner) {
        idx[owner]
    } else {
        Seq::empty()
    };
    idx.insert(owner, inserted_into(held, token_id))
}

/// The index and the tokens say the same: every token is in the index of its
/// owner, and whatever the index holds for an account is a token that the
/// account owns. `owners` gives the owner of each token.
pub open spec fn index_agrees(
    idx: Map<Seq<char>, Seq<Seq<char>>>,
    owners: Map<Seq<char>, Seq<char>>,
) -> bool {
    &&& forall|t: Seq<char>| #[trigger]
        owners.contains_key(t) ==> idx.contains_key(owners[t]) && idx[owners[t]].contains(t)
    &&& forall|a: Seq<char>, t: Seq<char>|
        idx.contains_key(a) && #[trigger] idx[a].contains(t) ==> owners.contains_key(t)
            && owners[t] == a
}

/// A transfer keeps the index and the tokens in agreement: where every token
/// was in the index of its owner and nowhere else, the same holds after
/// `token_id` went from its owner to `receiver_id`. So a token has one owner
/// at all times.
pub proof fn law_transfer_keeps_one_owner(
    idx: Map<Seq<char>, Seq<Seq<char>>>,
    owners: Map<Seq<char>, Seq<char>>,
    receiver_id: Seq<char>,
    token_id: Seq<char>,
)
    requires
        index_agrees(idx, owners),
        forall|a: Seq<char>| idx.contains_key(a) ==> (#[trigger] idx[a]).no_duplicates(),
        owners.contains_key(token_id),
        owners[token_id] != receiver_id,
    ensures
        index_agrees(
            with_token(without_token(idx, owners[token_id], token_id), receiver_id, token_id),
            owners.insert(token_id, receiver_id),
        ),
{
    let owner = owners[token_id];
    let mid = without_token(idx, owner, token_id);
    let held = if mid.contains_key(receiver_id) {
        mid[receiver_id]
    } else {
        Seq::empty()
    };
    let post = with_token(mid, receiver_id, token_id);
    let owners2 = owners.insert(token_id, receiver_id);
    assert(idx.contains_key(owner) && idx[owner].contains(token_id));
    lemma_removed_from(idx[owner], token_id);
    if idx.contains_key(receiver_id) {
        assert(mid.contains_key(receiver_id) && mid[receiver_id] == idx[receiver_id]);
        lemma_inserted_into(held, token_id);
    } else {
        assert(held =~= Seq::<Seq<char>>::empty());
        assert(held.push(token_id)[0] == token_id);
    }
    assert(post[receiver_id].contains(token_id));
    assert forall|t: Seq<char>| #[trigger] owners2.contains_key(t) implies post.contains_key(
        owners2[t],
    ) && post[owners2[t]].contains(t) by {
        if t != token_id {
            assert(owners.contains_key(t));
            let o = owners[t];
            assert(idx[o].contains(t));
            if o == owner {
                assert(removed_from(idx[owner], token_id).contains(t));
                assert(removed_from(idx[owner], token_id).len() > 0);
            } else if o == receiver_id {
            }
        }
    }
    assert forall|a: Seq<char>, t: Seq<char>|
        post.contains_key(a) && #[trigger] post[a].contains(t) implies owners2.contains_key(t)
        && owners2[t] == a by {
        if a == receiver_id {
            if t != token_id {
                if idx.contains_key(receiver_id) {
                    assert(idx[receiver_id].contains(t));
                } else {
                    assert(held.push(token_id).contains(t));
                    let i = held.push(token_id).index_of(t);
                    assert(i == 0);
                }
            }
        } else if a == owner {
            assert(removed_from(idx[owner], token_id).contains(t));
            assert(idx[owner].contains(t));
        } else {
            assert(idx[a].contains(t));
        }
    }
}

impl Contract {
    /// The owner of each token.
    pub open spec fn owners(&self) -> Map<Seq<char>, Seq<char>> {
        Map::new(
            |t: Seq<char>| self.tokens_by_id@.contains_key(t),
            |t: Seq<char>| self.tokens_by_id@[t].owner_id@,
        )
    }

    /// Every token is in the index of its owner and nowhere else.
    pub open spec fn indexed(&self) -> bool {
        index_agrees(self.index(), self.owners())
    }

    pub open spec fn wf(&self) -> bool {
        &&& self.tokens_per_owner.wf()
        &&& self.tokens_by_id.wf()
        &&& sets_wf(self.tokens_per_owner@)
        &&& forall|k: Seq<char>|
            self.tokens_by_id@.contains_key(k) ==> (#[trigger] self.tokens_by_id@[k]).wf()
    }

    /// Each owner with the ids of its tokens.
    pub open spec fn index(&self) -> Map<Seq<char>, Seq<Seq<char>>> {
        sets_view(self.tokens_per_owner@)
    }

    /// Why a transfer is refused, if it is.
    pub open spec fn transfer_refusal(
        &self,
        sender_id: Seq<char>,
        receiver_id: Seq<char>,
        token_id: Seq<char>,
        approval_id: Option<u64>,
    ) -> Option<Error> {
        if !self.tokens_by_id@.contains_key(token_id) {
            Some(Error::TokenNotFound)
        } else {
            let token = self.tokens_by_id@[token_id];
            let approvals = token.approved_account_ids@;
            if sender_id != token.owner_id@ && !approvals.contains_key(sender_id) {
                Some(Error::Unauthorized)
            } else if approval_id is Some && !approvals.contains_key(sender_id) {
                Some(Error::SenderNotApproved)
            } else if approval_id is Some && approvals[sender_id] != approval_id->0 {
                Some(Error::ApprovalIdMismatch)
            } else if token.owner_id@ == receiver_id {
                Some(Error::ReceiverIsOwner)
            } else if sender_id == receiver_id {
                Some(Error::ReceiverIsSender)
            } else if !self.index().contains_key(token.owner_id@) {
                Some(Error::OwnerIndexMissing)
            } else {
                None
            }
        }
    }

    pub fn new() -> (c: Self)
        ensures
            c.wf(),
            c.tokens_by_id@ == Map::<Seq<char>, Token>::empty(),
            c.index() == Map::<Seq<char>, Seq<Seq<char>>>::empty(),
    {
        let c = Contract { tokens_per_owner: StrMap::new(), tokens_by_id: StrMap::new() };
        assert(c.index() =~= Map::<Seq<char>, Seq<Seq<char>>>::empty());
        c
    }

    /// Adds `token_id` to the tokens of `account_id`.
    pub fn internal_add_token_to_owner(&mut self, account_id: &String, token_id: &String)
        requires
            old(self).wf(),
        ensures
            final(self).wf(),
            final(self).tokens_by_id == old(self).tokens_by_id,
            final(self).index() == with_token(old(self).index(), account_id@, token_id@),
            final(self).index().contains_key(account_id@),
            final(self).index()[account_id@].contains(token_id@),
    {
        let mut tokens_set = match self.tokens_per_owner.remove(account_id) {
            Some(set) => set,
            None => StringSet::new(),
        };
        let _ = tokens_set.insert(token_id.clone());
        let _ = self.tokens_per_owner.insert(account_id.clone(), tokens_set);
        assert(self.index() =~= with_token(old(self).index(), account_id@, token_id@));
    }

    /// Takes `token_id` from the tokens of `account_id`. An account that has
    /// no entry in the index is refused.
    pub fn internal_remove_token_from_owner(&mut self, account_id: &String, token_id: &String) -> (r:
        Result<(), Error>)
        requires
            old(self).wf(),
        ensures
            final(self).wf(),
            final(self).tokens_by_id == old(self).tokens_by_id,
            !(final(self).index().contains_key(account_id@) && final(self).index()[account_id@].contains(
                token_id@,
            )),
            match r {
                Ok(_) => old(self).index().contains_key(account_id@) && final(self).index()
                    == without_token(old(self).index(), account_id@, token_id@),
                Err(e) => e == Error::OwnerIndexMissing && !old(self).index().contains_key(
                    account_id@,
                ) && *final(self) == *old(self),
            },
    {
        match self.tokens_per_owner.remove(account_id) {
            None => Err(Error::OwnerIndexMissing),
            Some(set) => {
                let mut tokens_set = set;
                let _ = tokens_set.remove(token_id);
                if !tokens_set.is_empty() {
                    let _ = self.tokens_per_owner.insert(account_id.clone(), tokens_set);
                }
                assert(self.index() =~= without_token(old(self).index(), account_id@, token_id@));
                Ok(())
            },
        }
    }

    /// Moves `token_id` from its owner to `receiver_id` on behalf of
    /// `sender_id`, and clears its approvals. Returns the token as it was
    /// before, and the record of the transfer.
    pub fn internal_transfer(
        &mut self,
        sender_id: &String,
        receiver_id: &String,
        token_id: &String,
        approval_id: Option<u64>,
        memo: Option<String>,
    ) -> (r: Result<(Token, NftTransferLog), Error>)
        requires
            old(self).wf(),
        ensures
            final(self).wf(),
            match r {
                Err(e) => old(self).transfer_refusal(
                    sender_id@,
                    receiver_id@,
                    token_id@,
                    approval_id,
                ) == Some(e) && *final(self) == *old(self),
                Ok((previous, log)) => {
                    let owner = previous.owner_id@;
                    let token = final(self).tokens_by_id@[token_id@];
                    &&& old(self).transfer_refusal(sender_id@, receiver_id@, token_id@, approval_id)
                        is None
                    &&& previous == old(self).tokens_by_id@[token_id@]
                    &&& final(self).tokens_by_id@.dom() == old(self).tokens_by_id@.dom()
                    &&& forall|k: Seq<char>|
                        k != token_id@ && old(self).tokens_by_id@.contains_key(k)
                            ==> final(self).tokens_by_id@[k] == old(self).tokens_by_id@[k]
                    &&& token.owner_id@ == receiver_id@
                    &&& token.approved_account_ids@ == Map::<Seq<char>, u64>::empty()
                    &&& token.next_approval_id == previous.next_approval_id
                    &&& token.royalty@ == previous.royalty@
                    &&& final(self).index() == with_token(
                        without_token(old(self).index(), owner, token_id@),
                        receiver_id@,
                        token_id@,
                    )
                    &&& !(final(self).index().contains_key(owner) && final(self).index()[owner].contains(
                        token_id@,
                    ))
                    &&& final(self).index().contains_key(receiver_id@)
                    &&& final(self).index()[receiver_id@].contains(token_id@)
                    &&& final(self).owners() == old(self).owners().insert(token_id@, receiver_id@)
                    &&& old(self).indexed() ==> final(self).indexed()
                    &&& log.old_owner_id@ == owner
                    &&& log.new_owner_id@ == receiver_id@
                    &&& views_of(log.token_ids@) == seq![token_id@]
                    &&& log.memo == memo
                    &&& match log.authorized_id {
                        Some(a) => sender_id@ != owner && a@ == sender_id@,
                        None => sender_id@ == owner,
                    }
                },
            },
    {
        let (owner_id, next_approval_id, royalty) = match self.tokens_by_id.get(token_id) {
            None => {
                return Err(Error::TokenNotFound);
            },
            Some(token) => {
                let approval = token.approved_account_ids.get(sender_id);
                if *sender_id != token.owner_id && approval.is_none() {
                    return Err(Error::Unauthorized);
                }
                if let Some(enforced_approval_id) = approval_id {
                    match approval {
                        None => {
                            return Err(Error::SenderNotApproved);
                        },
                        Some(actual_approval_id) => {
                            if *actual_approval_id != enforced_approval_id {
                                return Err(Error::ApprovalIdMismatch);
                            }
                        },
                    }
                }
                if token.owner_id == *receiver_id {
                    return Err(Error::ReceiverIsOwner);
                }
                if *sender_id == *receiver_id {
                    return Err(Error::ReceiverIsSender);
                }
                if !self.tokens_per_owner.contains_key(&token.owner_id) {
                    return Err(Error::OwnerIndexMissing);
                }
                (token.owner_id.clone(), token.next_approval_id, token.royalty.duplicate())
            },
        };
        let _ = self.internal_remove_token_from_owner(&owner_id, token_id);
        self.internal_add_token_to_owner(receiver_id, token_id);
        let new_token = Token {
            owner_id: receiver_id.clone(),
            approved_account_ids: StrMap::new(),
            next_approval_id,
            royalty,
        };
        let previous = self.tokens_by_id.insert(token_id.clone(), new_token).unwrap();
        proof {
            assert(self.owners() =~= old(self).owners().insert(token_id@, receiver_id@));
            if old(self).indexed() {
                law_transfer_keeps_one_owner(
                    old(self).index(),
                    old(self).owners(),
                    receiver_id@,
                    token_id@,
                );
            }
        }
        let authorized_id = if *sender_id != owner_id {
            Some(sender_id.clone())
        } else {
            None
        };
        let mut token_ids: Vec<String> = Vec::new();
        token_ids.push(token_id.clone());
        assert(views_of(token_ids@) =~= seq![token_id@]);
        let log = NftTransferLog {
            authorized_id,
            old_owner_id: owner_id,
            new_owner_id: receiver_id.clone(),
            token_ids,
            memo,
        };
        Ok((previous, log))
    }
}

} // verus!
