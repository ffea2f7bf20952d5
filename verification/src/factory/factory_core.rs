//! Adding municipalities and projects, and deploying token contracts.

use vstd::prelude::*;
use crate::context::{Context, PromiseOutcome};
use crate::error::Error;
use crate::factory::events::{
    AddMunicipalityLog,
    AddProjectLog,
    AddProjectTokenLog,
    EventLog,
    EventLogVariant,
};
use crate::factory::{Contract, State};
use crate::string_set::StringSet;

verus! {

/// Why a municipality cannot be added, if it cannot.
pub open spec fn add_municipality_refusal(s: State, caller: Seq<char>, municipality_id: Seq<char>) -> Option<
    Error,
> {
    if caller != s.owner_id {
        Some(Error::CallerNotOwner)
    } else if s.municipalities.contains(municipality_id)
        || s.municipality_to_projects.contains_key(municipality_id) {
        Some(Error::MunicipalityExists)
    } else {
        None
    }
}

/// Why a project cannot be added, if it cannot.
pub open spec fn add_project_refusal(
    s: State,
    caller: Seq<char>,
    municipality_id: Seq<char>,
    project_id: Seq<char>,
) -> Option<Error> {
    if caller != s.owner_id {
        Some(Error::CallerNotOwner)
    } else if !s.municipality_to_projects.contains_key(municipality_id) {
        Some(Error::MunicipalityNotFound)
    } else if s.municipality_to_projects[municipality_id].contains(project_id)
        || s.project_to_tokens.contains_key(project_id) {
        Some(Error::ProjectExists)
    } else {
        None
    }
}

/// The factory after a municipality was added.
pub open spec fn with_municipality(s: State, municipality_id: Seq<char>) -> State {
    State {
        municipalities: s.municipalities.push(municipality_id),
        municipality_to_projects: s.municipality_to_projects.insert(municipality_id, Seq::empty()),
        ..s
    }
}

/// The factory after a project was added to a municipality.
pub open spec fn with_project(s: State, municipality_id: Seq<char>, project_id: Seq<char>) -> State {
    State {
        municipality_to_projects: s.municipality_to_projects.insert(
            municipality_id,
            s.municipality_to_projects[municipality_id].push(project_id),
        ),
        project_to_tokens: s.project_to_tokens.insert(project_id, Seq::empty()),
        ..s
    }
}

/// The factory after a token contract was registered for a project.
pub open spec fn with_project_token(s: State, project_id: Seq<char>, new_token_account_id: Seq<char>) -> State {
    State {
        project_to_tokens: s.project_to_tokens.insert(
            project_id,
            s.project_to_tokens[project_id].push(new_token_account_id),
        ),
        ..s
    }
}

/// Why a finished deployment is not registered, if it is not.
pub open spec fn resolve_deploy_refusal(
    s: State,
    ctx: Context,
    outcome: PromiseOutcome,
    project_id: Seq<char>,
    new_token_account_id: Seq<char>,
) -> Option<Error> {
    if ctx.predecessor_account_id@ != ctx.current_account_id@ {
        Some(Error::NotCallback)
    } else if outcome == PromiseOutcome::Failed {
        Some(Error::DeployFailed)
    } else if !s.project_to_tokens.contains_key(project_id) {
        Some(Error::ProjectNotFound)
    } else if s.project_to_tokens[project_id].contains(new_token_account_id) {
        Some(Error::TokenExists)
    } else {
        None
    }
}

impl Contract {
    /// Registers a municipality with no projects. Only the owner may do so,
    /// and only once for each id.
    pub fn add_new_municipality(&mut self, ctx: &Context, municipality_id: String, memo: Option<String>) -> (r:
        Result<EventLog, Error>)
        requires
            old(self).wf(),
        ensures
            final(self).wf(),
            match r {
                Err(e) => add_municipality_refusal(
                    old(self)@,
                    ctx.predecessor_account_id@,
                    municipality_id@,
                ) == Some(e) && *final(self) == *old(self),
                Ok(log) => {
                    &&& add_municipality_refusal(
                        old(self)@,
                        ctx.predecessor_account_id@,
                        municipality_id@,
                    ) is None
                    &&& final(self)@ == with_municipality(old(self)@, municipality_id@)
                    &&& log.is_add_municipality(municipality_id@, memo)
                },
            },
    {
        match self.assert_owner(ctx) {
            Err(e) => {
                return Err(e);
            },
            Ok(_) => {},
        }
        if self.municipalities.contains(&municipality_id)
            || self.municipality_to_projects.contains_key(&municipality_id) {
            return Err(Error::MunicipalityExists);
        }
        let _ = self.municipalities.insert(municipality_id.clone());
        let _ = self.municipality_to_projects.insert(municipality_id.clone(), StringSet::new());
        assert(self@.municipality_to_projects =~= old(self)@.municipality_to_projects.insert(
            municipality_id@,
            Seq::empty(),
        ));
        let mut data: Vec<AddMunicipalityLog> = Vec::new();
        data.push(AddMunicipalityLog { municipality_id, memo });
        Ok(EventLog::new(EventLogVariant::AddMunicipality(data)))
    }

    /// Registers a project under a municipality, with no token contracts.
    /// Only the owner may do so; the municipality must exist and the project
    /// must be new, both to the municipality and to the registry.
    pub fn add_new_project(
        &mut self,
        ctx: &Context,
        municipality_id: String,
        project_id: String,
        memo: Option<String>,
    ) -> (r: Result<EventLog, Error>)
        requires
            old(self).wf(),
        ensures
            final(self).wf(),
            match r {
                Err(e) => add_project_refusal(
                    old(self)@,
                    ctx.predecessor_account_id@,
                    municipality_id@,
                    project_id@,
                ) == Some(e) && *final(self) == *old(self),
                Ok(log) => {
                    &&& add_project_refusal(
                        old(self)@,
                        ctx.predecessor_account_id@,
                        municipality_id@,
                        project_id@,
                    ) is None
                    &&& final(self)@ == with_project(old(self)@, municipality_id@, project_id@)
                    &&& log.is_add_project(municipality_id@, project_id@, memo)
                },
            },
    {
        match self.assert_owner(ctx) {
            Err(e) => {
                return Err(e);
            },
            Ok(_) => {},
        }
        match self.municipality_to_projects.get(&municipality_id) {
            None => {
                return Err(Error::MunicipalityNotFound);
            },
            Some(projects) => {
                if projects.contains(&project_id) || self.project_to_tokens.contains_key(&project_id) {
                    return Err(Error::ProjectExists);
                }
            },
        }
        let mut projects = self.municipality_to_projects.remove(&municipality_id).unwrap();
        let _ = projects.insert(project_id.clone());
        let _ = self.municipality_to_projects.insert(municipality_id.clone(), projects);
        let _ = self.project_to_tokens.insert(project_id.clone(), StringSet::new());
        assert(self@.municipality_to_projects =~= old(self)@.municipality_to_projects.insert(
            municipality_id@,
            old(self)@.municipality_to_projects[municipality_id@].push(project_id@),
        ));
        assert(self@.project_to_tokens =~= old(self)@.project_to_tokens.insert(
            project_id@,
            Seq::empty(),
        ));
        let mut data: Vec<AddProjectLog> = Vec::new();
        data.push(AddProjectLog { municipality_id, project_id, memo });
        Ok(EventLog::new(EventLogVariant::AddProject(data)))
    }

    /// Ends a deployment. Only the factory itself may call this, when the
    /// deployment it asked for has ended. A failed deployment changes
    /// nothing. A successful one adds the new account to the tokens of the
    /// project, once.
    pub fn resolve_deploy(
        &mut self,
        ctx: &Context,
        outcome: PromiseOutcome,
        municipality_id: String,
        project_id: String,
        new_token_account_id: String,
        memo: Option<String>,
    ) -> (r: Result<EventLog, Error>)
        requires
            old(self).wf(),
        ensures
            final(self).wf(),
            match r {
                Err(e) => resolve_deploy_refusal(
                    old(self)@,
                    *ctx,
                    outcome,
                    project_id@,
                    new_token_account_id@,
                ) == Some(e) && *final(self) == *old(self),
                Ok(log) => {
                    &&& resolve_deploy_refusal(
                        old(self)@,
                        *ctx,
                        outcome,
                        project_id@,
                        new_token_account_id@,
                    ) is None
                    &&& final(self)@ == with_project_token(
                        old(self)@,
                        project_id@,
                        new_token_account_id@,
                    )
                    &&& final(self)@.project_to_tokens[project_id@].no_duplicates()
                    &&& final(self)@.project_to_tokens[project_id@].contains(new_token_account_id@)
                    &&& log.is_add_project_token(
                        municipality_id@,
                        project_id@,
                        new_token_account_id@,
                        memo,
                    )
                },
            },
    {
        if !(ctx.predecessor_account_id == ctx.current_account_id) {
            return Err(Error::NotCallback);
        }
        match outcome {
            PromiseOutcome::Failed => {
                return Err(Error::DeployFailed);
            },
            PromiseOutcome::Successful => {},
        }
        match self.project_to_tokens.get(&project_id) {
            None => {
                return Err(Error::ProjectNotFound);
            },
            Some(tokens) => {
                if tokens.contains(&new_token_account_id) {
                    return Err(Error::TokenExists);
                }
            },
        }
        let mut tokens = self.project_to_tokens.remove(&project_id).unwrap();
        let _ = tokens.insert(new_token_account_id.clone());
        let _ = self.project_to_tokens.insert(project_id.clone(), tokens);
        assert(self@.project_to_tokens =~= old(self)@.project_to_tokens.insert(
            project_id@,
            old(self)@.project_to_tokens[project_id@].push(new_token_account_id@),
        ));
        let mut data: Vec<AddProjectTokenLog> = Vec::new();
        data.push(
            AddProjectTokenLog { municipality_id, project_id, token_id: new_token_account_id, memo },
        );
        Ok(EventLog::new(EventLogVariant::AddProjectToken(data)))
    }
}

/// A municipality is added once: after it was added, adding it again is
/// refused as a duplicate.
pub proof fn law_municipality_is_added_once(s: State, caller: Seq<char>, municipality_id: Seq<char>)
    requires
        add_municipality_refusal(s, caller, municipality_id) is None,
    ensures
        add_municipality_refusal(with_municipality(s, municipality_id), caller, municipality_id)
            == Some(Error::MunicipalityExists),
{
    let t = with_municipality(s, municipality_id);
    assert(t.municipalities[s.municipalities.len() as int] == municipality_id);
}

/// A project is added once: after it was added, adding it again is refused
/// as a duplicate, under its own municipality and under every other one.
pub proof fn law_project_is_added_once(
    s: State,
    caller: Seq<char>,
    municipality_id: Seq<char>,
    project_id: Seq<char>,
    other_municipality_id: Seq<char>,
)
    requires
        add_project_refusal(s, caller, municipality_id, project_id) is None,
        s.municipality_to_projects.contains_key(other_municipality_id),
    ensures
        add_project_refusal(
            with_project(s, municipality_id, project_id),
            caller,
            municipality_id,
            project_id,
        ) == Some(Error::ProjectExists),
        add_project_refusal(
            with_project(s, municipality_id, project_id),
            caller,
            other_municipality_id,
            project_id,
        ) == Some(Error::ProjectExists),
{
}

/// A deployment is all or nothing. One that failed is refused, so that the
/// factory stays as it was. One that is registered leaves the new account
/// among the tokens of the project exactly once, changes no other project,
/// and cannot be registered again.
pub proof fn law_deployment_is_atomic(
    s: State,
    ctx: Context,
    outcome: PromiseOutcome,
    project_id: Seq<char>,
    new_token_account_id: Seq<char>,
)
    requires
        s.project_to_tokens.contains_key(project_id) ==> s.project_to_tokens[project_id].no_duplicates(),
    ensures
        outcome == PromiseOutcome::Failed ==> resolve_deploy_refusal(
            s,
            ctx,
            outcome,
            project_id,
            new_token_account_id,
        ) is Some,
        resolve_deploy_refusal(s, ctx, outcome, project_id, new_token_account_id) is None ==> {
            let t = with_project_token(s, project_id, new_token_account_id);
            let tokens = t.project_to_tokens[project_id];
            &&& tokens.no_duplicates()
            &&& tokens.contains(new_token_account_id)
            &&& tokens.len() == s.project_to_tokens[project_id].len() + 1
            &&& forall|p: Seq<char>|
                p != project_id && s.project_to_tokens.contains_key(p)
                    ==> t.project_to_tokens[p] == s.project_to_tokens[p]
            &&& resolve_deploy_refusal(t, ctx, outcome, project_id, new_token_account_id) == Some(
                Error::TokenExists,
            )
        },
{
    if resolve_deploy_refusal(s, ctx, outcome, project_id, new_token_account_id) is None {
        let old_tokens = s.project_to_tokens[project_id];
        let tokens = old_tokens.push(new_token_account_id);
        assert(tokens[old_tokens.len() as int] == new_token_account_id);
    }
}

/// The registry hangs together: the municipalities are listed once each and
/// are the ones that have a set of projects; a project is listed once, under
/// one municipality, and has a set of tokens.
pub open spec fn coherent(s: State) -> bool {
    &&& s.municipalities.no_duplicates()
    &&& forall|m: Seq<char>|
        s.municipalities.contains(m) == s.municipality_to_projects.contains_key(m)
    &&& forall|m: Seq<char>|
        s.municipality_to_projects.contains_key(m) ==> (
        #[trigger] s.municipality_to_projects[m]).no_duplicates()
    &&& forall|m: Seq<char>, p: Seq<char>|
        s.municipality_to_projects.contains_key(m)
            && #[trigger] s.municipality_to_projects[m].contains(p)
            ==> s.project_to_tokens.contains_key(p)
    &&& forall|m: Seq<char>, n: Seq<char>, p: Seq<char>|
        s.municipality_to_projects.contains_key(m) && s.municipality_to_projects.contains_key(n)
            && #[trigger] s.municipality_to_projects[m].contains(p)
            && #[trigger] s.municipality_to_projects[n].contains(p) ==> m == n
}

/// A registry that hangs together keeps doing so, whatever is added to it.
pub proof fn law_registry_stays_coherent(
    s: State,
    ctx: Context,
    outcome: PromiseOutcome,
    municipality_id: Seq<char>,
    project_id: Seq<char>,
    new_token_account_id: Seq<char>,
)
    requires
        coherent(s),
    ensures
        add_municipality_refusal(s, ctx.predecessor_account_id@, municipality_id) is None
            ==> coherent(with_municipality(s, municipality_id)),
        add_project_refusal(s, ctx.predecessor_account_id@, municipality_id, project_id) is None
            ==> coherent(with_project(s, municipality_id, project_id)),
        resolve_deploy_refusal(s, ctx, outcome, project_id, new_token_account_id) is None
            ==> coherent(with_project_token(s, project_id, new_token_account_id)),
{
    if add_municipality_refusal(s, ctx.predecessor_account_id@, municipality_id) is None {
        let t = with_municipality(s, municipality_id);
        assert(t.municipalities[s.municipalities.len() as int] == municipality_id);
        assert forall|m: Seq<char>|
            t.municipalities.contains(m) == t.municipality_to_projects.contains_key(m) by {
            if s.municipalities.contains(m) {
                assert(t.municipalities[s.municipalities.index_of(m)] == m);
            }
            if t.municipalities.contains(m) && m != municipality_id {
                assert(s.municipalities[t.municipalities.index_of(m)] == m);
            }
        }
        assert(coherent(t));
    }
    if add_project_refusal(s, ctx.predecessor_account_id@, municipality_id, project_id) is None {
        let t = with_project(s, municipality_id, project_id);
        let before = s.municipality_to_projects[municipality_id];
        let after = before.push(project_id);
        assert(after[before.len() as int] == project_id);
        assert forall|p: Seq<char>| after.contains(p) == (before.contains(p) || p == project_id) by {
            if before.contains(p) {
                assert(after[before.index_of(p)] == p);
            }
            if after.contains(p) && p != project_id {
                assert(before[after.index_of(p)] == p);
            }
        }
        assert(coherent(t));
    }
    if resolve_deploy_refusal(s, ctx, outcome, project_id, new_token_account_id) is None {
        assert(coherent(with_project_token(s, project_id, new_token_account_id)));
    }
}

/// Nobody but the owner changes the registry of the factory: a call to add
/// a municipality or a project from any other account is refused.
pub proof fn law_only_the_owner_adds(
    s: State,
    caller: Seq<char>,
    municipality_id: Seq<char>,
    project_id: Seq<char>,
)
    requires
        caller != s.owner_id,
    ensures
        add_municipality_refusal(s, caller, municipality_id) == Some(Error::CallerNotOwner),
        add_project_refusal(s, caller, municipality_id, project_id) == Some(Error::CallerNotOwner),
{
}

} // verus!
