//! The bytecode versions, and the request to deploy one of them.

use vstd::prelude::*;
use crate::context::Context;
use crate::decimal::{decimal, decimal_string, lemma_decimal_injective};
use crate::error::Error;
use crate::factory::{Contract, State};
use crate::host::{is_valid_account_id, storage_byte_cost, storage_price_per_byte, valid_account_id};

verus! {

/// The metadata that a new token contract is initialised with.
#[derive(Debug, Clone, PartialEq, Eq)]
pub struct TokenMetadata {
    pub spec: String,
    pub name: String,
    pub symbol: String,
    pub icon: Option<String>,
    pub base_uri: Option<String>,
    pub reference: Option<String>,
    pub reference_hash: Option<Vec<u8>>,
}

/// The arguments of the initialiser of a new token contract.
#[derive(Debug, Clone, PartialEq, Eq)]
pub struct TokenInitArgs {
    pub owner_id: String,
    pub metadata: TokenMetadata,
}

/// A deployment to carry out: create the account, hand it the deposit,
/// deploy the code, call the initialiser, and report back how it went
/// together with the last four fields.
#[derive(Debug, Clone, PartialEq, Eq)]
pub struct DeployRequest {
    pub new_token_account_id: String,
    pub deposit: u128,
    pub code: Vec<u8>,
    pub init_args: TokenInitArgs,
    pub init_gas: u64,
    pub municipality_id: String,
    pub project_id: String,
    pub memo: Option<String>,
}

/// The gas handed to the initialiser of a new token contract.
pub const INIT_GAS: u64 = 1_000_000_000_000;

/// What it costs to store `len` bytes of code.
pub open spec fn deployment_cost(len: nat) -> int {
    len * storage_price_per_byte()
}

/// The account of a token contract named `name` under the account `parent`.
pub open spec fn subaccount_id(name: Seq<char>, parent: Seq<char>) -> Seq<char> {
    name + seq!['.'] + parent
}

/// The name of the standard that tokens of `token_version` follow.
pub open spec fn metadata_spec(token_version: Seq<char>) -> Seq<char> {
    seq!['n', 'f', 't', '-'] + token_version
}

/// Why a token version cannot be added, if it cannot.
pub open spec fn add_token_version_refusal(s: State, caller: Seq<char>, code: Seq<u8>) -> Option<Error> {
    let id = decimal(s.token_versions.len());
    if caller != s.owner_id {
        Some(Error::CallerNotOwner)
    } else if code.len() == 0 {
        Some(Error::NoCode)
    } else if s.token_versions.contains(id) || s.token_version_to_code.contains_key(id) {
        Some(Error::TokenVersionExists)
    } else {
        None
    }
}

/// The factory after `code` was stored as the next token version.
pub open spec fn with_token_version(s: State, code: Seq<u8>) -> State {
    let id = decimal(s.token_versions.len());
    State {
        token_versions: s.token_versions.push(id),
        token_version_to_code: s.token_version_to_code.insert(id, code),
        ..s
    }
}

/// Why a deployment is not started, if it is not.
pub open spec fn deploy_refusal(
    s: State,
    ctx: Context,
    municipality_id: Seq<char>,
    token_version: Seq<char>,
    token_account_name: Seq<char>,
) -> Option<Error> {
    if ctx.predecessor_account_id@ != s.owner_id {
        Some(Error::CallerNotOwner)
    } else if !s.municipality_to_projects.contains_key(municipality_id) {
        Some(Error::MunicipalityNotFound)
    } else if s.municipality_to_projects[municipality_id].len() == 0 {
        Some(Error::ProjectNotFound)
    } else if !s.token_version_to_code.contains_key(token_version) {
        Some(Error::TokenVersionNotFound)
    } else if ctx.attached_deposit < deployment_cost(s.token_version_to_code[token_version].len()) {
        Some(
            Error::InsufficientDeposit {
                required: deployment_cost(s.token_version_to_code[token_version].len()) as u128,
            },
        )
    } else if !valid_account_id(subaccount_id(token_account_name, ctx.current_account_id@)) {
        Some(Error::InvalidSubaccount)
    } else {
        None
    }
}

/// A copy of `bytes`.
pub fn copy_bytes(bytes: &Vec<u8>) -> (out: Vec<u8>)
    ensures
        out@ == bytes@,
{
    let mut out: Vec<u8> = Vec::new();
    let mut i: usize = 0;
    while i < bytes.len()
        invariant
            i <= bytes.len(),
            out@ == bytes@.subrange(0, i as int),
        decreases bytes.len() - i,
    {
        out.push(bytes[i]);
        assert(out@ =~= bytes@.subrange(0, i + 1));
        i += 1;
    }
    assert(out@ =~= bytes@);
    out
}

/// What it costs to store `len` bytes of code.
pub fn storage_cost(len: usize) -> (cost: u128)
    ensures
        cost == deployment_cost(len as nat),
{
    let price = storage_byte_cost();
    assert(len as int * price as int <= u128::MAX as int) by (nonlinear_arith)
        requires
            0 <= len as int <= 0xffff_ffff_ffff_ffff,
            price as int == 10_000_000_000_000_000_000,
    ;
    len as u128 * price
}

impl Contract {
    /// Stores `code` as the next token version. The versions are numbered
    /// from zero, and the id of a version is its number in decimal. Only the
    /// owner may add one, and the code must not be empty.
    pub fn add_token_version(&mut self, ctx: &Context, code: Vec<u8>) -> (r: Result<(), Error>)
        requires
            old(self).wf(),
        ensures
            final(self).wf(),
            match r {
                Err(e) => add_token_version_refusal(old(self)@, ctx.predecessor_account_id@, code@)
                    == Some(e) && *final(self) == *old(self),
                Ok(_) => {
                    &&& add_token_version_refusal(old(self)@, ctx.predecessor_account_id@, code@)
                        is None
                    &&& final(self)@ == with_token_version(old(self)@, code@)
                },
            },
    {
        match self.assert_owner(ctx) {
            Err(e) => {
                return Err(e);
            },
            Ok(_) => {},
        }
        if code.len() == 0 {
            return Err(Error::NoCode);
        }
        let count: usize = self.token_versions.len();
        let token_version = decimal_string(count as u128);
        if self.token_versions.contains(&token_version) || self.token_version_to_code.contains_key(
            &token_version,
        ) {
            return Err(Error::TokenVersionExists);
        }
        let _ = self.token_versions.insert(token_version.clone());
        let _ = self.token_version_to_code.insert(token_version, code);
        assert(self@.token_version_to_code =~= old(self)@.token_version_to_code.insert(
            decimal(old(self)@.token_versions.len()),
            code@,
        ));
        Ok(())
    }

    /// Prepares the deployment of a token contract for a project. Nothing is
    /// registered yet: that happens when the deployment is resolved.
    ///
    /// Only the owner may ask. The municipality must have at least one
    /// project, the version must exist, the deposit must cover the storage of
    /// the code, and the name must give a valid account under the factory's.
    pub fn add_new_token_for_project(
        &self,
        ctx: &Context,
        municipality_id: String,
        project_id: String,
        token_version: String,
        token_account_name: String,
        token_name: String,
        token_symbol: String,
        token_icon: Option<String>,
        token_base_uri: Option<String>,
        token_reference: Option<String>,
        token_reference_hash: Option<Vec<u8>>,
        memo: Option<String>,
    ) -> (r: Result<DeployRequest, Error>)
        requires
            self.wf(),
        ensures
            match r {
                Err(e) => deploy_refusal(
                    self@,
                    *ctx,
                    municipality_id@,
                    token_version@,
                    token_account_name@,
                ) == Some(e),
                Ok(request) => {
                    &&& deploy_refusal(
                        self@,
                        *ctx,
                        municipality_id@,
                        token_version@,
                        token_account_name@,
                    ) is None
                    &&& request.new_token_account_id@ == subaccount_id(
                        token_account_name@,
                        ctx.current_account_id@,
                    )
                    &&& request.deposit == ctx.attached_deposit
                    &&& request.code@ == self@.token_version_to_code[token_version@]
                    &&& request.init_args.owner_id@ == ctx.signer_account_id@
                    &&& request.init_args.metadata.spec@ == metadata_spec(token_version@)
                    &&& request.init_args.metadata.name == token_name
                    &&& request.init_args.metadata.symbol == token_symbol
                    &&& request.init_args.metadata.icon == token_icon
                    &&& request.init_args.metadata.base_uri == token_base_uri
                    &&& request.init_args.metadata.reference == token_reference
                    &&& request.init_args.metadata.reference_hash == token_reference_hash
                    &&& request.init_gas == INIT_GAS
                    &&& request.municipality_id == municipality_id
                    &&& request.project_id == project_id
                    &&& request.memo == memo
                },
            },
    {
        match self.assert_owner(ctx) {
            Err(e) => {
                return Err(e);
            },
            Ok(_) => {},
        }
        match self.municipality_to_projects.get(&municipality_id) {
            None => {
                return Err(Error::MunicipalityNotFound);
            },
            Some(projects) => {
                if projects.is_empty() {
                    return Err(Error::ProjectNotFound);
                }
            },
        }
        let code = match self.token_version_to_code.get(&token_version) {
            None => {
                return Err(Error::TokenVersionNotFound);
            },
            Some(code) => code,
        };
        let min_needed = storage_cost(code.len());
        if ctx.attached_deposit < min_needed {
            return Err(Error::InsufficientDeposit { required: min_needed });
        }
        proof {
            reveal_strlit(".");
            reveal_strlit("nft-");
        }
        let new_token_account_id = token_account_name.concat(".").concat(
            ctx.current_account_id.as_str(),
        );
        assert(new_token_account_id@ =~= subaccount_id(
            token_account_name@,
            ctx.current_account_id@,
        ));
        if !is_valid_account_id(new_token_account_id.as_str()) {
            return Err(Error::InvalidSubaccount);
        }
        let spec = String::from_str("nft-").concat(token_version.as_str());
        assert(spec@ =~= metadata_spec(token_version@));
        Ok(
            DeployRequest {
                new_token_account_id,
                deposit: ctx.attached_deposit,
                code: copy_bytes(code),
                init_args: TokenInitArgs {
                    owner_id: ctx.signer_account_id.clone(),
                    metadata: TokenMetadata {
                        spec,
                        name: token_name,
                        symbol: token_symbol,
                        icon: token_icon,
                        base_uri: token_base_uri,
                        reference: token_reference,
                        reference_hash: token_reference_hash,
                    },
                },
                init_gas: INIT_GAS,
                municipality_id,
                project_id,
                memo,
            },
        )
    }
}

/// The token versions are numbered from zero in the order in which they were
/// stored, and each has its code.
pub open spec fn versions_in_sequence(s: State) -> bool {
    &&& forall|i: int|
        0 <= i < s.token_versions.len() ==> #[trigger] s.token_versions[i] == decimal(i as nat)
    &&& forall|k: Seq<char>| s.token_version_to_code.contains_key(k) == s.token_versions.contains(k)
}

/// While the versions are numbered in sequence, the owner can always store
/// one more version with code in it: the next id is never taken, and the
/// versions stay numbered in sequence.
pub proof fn law_versions_stay_in_sequence(s: State, caller: Seq<char>, code: Seq<u8>)
    requires
        versions_in_sequence(s),
        caller == s.owner_id,
        code.len() > 0,
    ensures
        add_token_version_refusal(s, caller, code) is None,
        versions_in_sequence(with_token_version(s, code)),
        with_token_version(s, code).token_versions.no_duplicates(),
{
    let n = s.token_versions.len();
    let id = decimal(n);
    if s.token_versions.contains(id) {
        let i = s.token_versions.index_of(id);
        lemma_decimal_injective(i as nat, n);
    }
    let t = with_token_version(s, code);
    assert(t.token_versions[n as int] == id);
    assert forall|k: Seq<char>| t.token_version_to_code.contains_key(k) == t.token_versions.contains(
        k,
    ) by {
        if s.token_versions.contains(k) {
            assert(t.token_versions[s.token_versions.index_of(k)] == k);
        }
        if t.token_versions.contains(k) && k != id {
            assert(s.token_versions[t.token_versions.index_of(k)] == k);
        }
    }
    assert forall|i: int, j: int|
        0 <= i < t.token_versions.len() && 0 <= j < t.token_versions.len() && i != j implies t.token_versions[i]
        != t.token_versions[j] by {
        if t.token_versions[i] == t.token_versions[j] {
            lemma_decimal_injective(i as nat, j as nat);
        }
    }
}

/// Nobody but the owner stores a token version or starts a deployment.
pub proof fn law_only_the_owner_deploys(
    s: State,
    ctx: Context,
    code: Seq<u8>,
    municipality_id: Seq<char>,
    token_version: Seq<char>,
    token_account_name: Seq<char>,
)
    requires
        ctx.predecessor_account_id@ != s.owner_id,
    ensures
        add_token_version_refusal(s, ctx.predecessor_account_id@, code) == Some(
            Error::CallerNotOwner,
        ),
        deploy_refusal(s, ctx, municipality_id, token_version, token_account_name) == Some(
            Error::CallerNotOwner,
        ),
{
}

} // verus!
