//! The session service's handlers: account and session lookups, invitation
//! creation, and session creation with privilege-tier derivation.
//!
//! Each handler is the decision part of a request: the caller parses the
//! request, makes the store or identity-provider call, hands the outcome here
//! and sends back exactly the reply it gets.

use vstd::prelude::*;

use crate::net::{
    create_reply, lookup_reply, reply_create, reply_lookup, reply_view, err, ErrCode, NetOk,
    Reply, StoreError,
};

verus! {

/// A durable account.
#[derive(Clone, Debug, PartialEq, Eq)]
pub struct Account {
    pub id: u64,
    pub email: String,
    pub name: String,
}

/// The three independent capability tiers of a session.
#[derive(Clone, Copy, Debug, PartialEq, Eq, Structural)]
pub struct Privileges {
    pub is_admin: bool,
    pub is_builder: bool,
    pub is_build_worker: bool,
}

/// A session: a token bound to an account and a snapshot of its tiers.
#[derive(Clone, Debug, PartialEq, Eq)]
pub struct Session {
    pub id: u64,
    pub account_id: u64,
    pub email: String,
    pub name: String,
    pub token: String,
    pub privileges: Privileges,
}

/// A request to create a session for an external identity.
#[derive(Clone, Debug, PartialEq, Eq)]
pub struct SessionCreate {
    pub token: String,
    pub extern_id: u64,
    pub email: String,
    pub name: String,
}

/// A team membership as reported by the identity provider. Id `0` is the
/// provider's marker for "no team".
#[derive(Clone, Debug, PartialEq, Eq)]
pub struct Team {
    pub id: u64,
    pub name: String,
}

/// The tier configuration, fixed at startup.
#[derive(Clone, Debug, PartialEq, Eq)]
pub struct TierConfig {
    pub admin_teams: Vec<u64>,
    pub builder_teams: Vec<u64>,
    pub build_worker_teams: Vec<u64>,
    /// Grants every tier without asking the identity provider; for
    /// functional testing only.
    pub test_mode: bool,
}

pub open spec fn no_zero(ids: Seq<u64>) -> bool {
    !ids.contains(0)
}

/// A usable configuration names no team `0` in any tier.
pub open spec fn config_valid(cfg: TierConfig) -> bool {
    no_zero(cfg.admin_teams@) && no_zero(cfg.builder_teams@) && no_zero(cfg.build_worker_teams@)
}

/// Whether one membership is eligible for a tier with the given team ids.
pub open spec fn team_grants(t: Team, tier: Seq<u64>) -> bool {
    t.id != 0 && tier.contains(t.id)
}

/// Whether some membership grants the tier.
pub open spec fn any_grants(teams: Seq<Team>, tier: Seq<u64>) -> bool {
    exists|i: int| 0 <= i < teams.len() && #[trigger] team_grants(teams[i], tier)
}

/// The tiers granted by a list of memberships: a logical OR over all of them.
pub open spec fn privileges_of(teams: Seq<Team>, cfg: TierConfig) -> Privileges {
    Privileges {
        is_admin: any_grants(teams, cfg.admin_teams@),
        is_builder: any_grants(teams, cfg.builder_teams@),
        is_build_worker: any_grants(teams, cfg.build_worker_teams@),
    }
}

pub open spec fn all_privileges() -> Privileges {
    Privileges { is_admin: true, is_builder: true, is_build_worker: true }
}

fn contains_id(ids: &Vec<u64>, id: u64) -> (r: bool)
    ensures
        r == ids@.contains(id),
{
    let mut i: usize = 0;
    while i < ids.len()
        invariant
            i <= ids@.len(),
            forall|j: int| 0 <= j < i ==> ids@[j] != id,
        decreases ids@.len() - i,
    {
        if ids[i] == id {
            assert(ids@[i as int] == id);
            return true;
        }
        i = i + 1;
    }
    false
}

fn has_zero(ids: &Vec<u64>) -> (r: bool)
    ensures
        r == !no_zero(ids@),
{
    contains_id(ids, 0)
}

impl TierConfig {
    /// Whether no tier lists team `0`.
    pub fn is_valid(&self) -> (r: bool)
        ensures
            r == config_valid(*self),
    {
        !has_zero(&self.admin_teams) && !has_zero(&self.builder_teams) && !has_zero(
            &self.build_worker_teams,
        )
    }
}

/// Derives the tiers of a session from the caller's memberships.
pub fn derive_privileges(teams: &Vec<Team>, cfg: &TierConfig) -> (r: Privileges)
    ensures
        r == privileges_of(teams@, *cfg),
{
    let mut p = Privileges { is_admin: false, is_builder: false, is_build_worker: false };
    let mut i: usize = 0;
    while i < teams.len()
        invariant
            i <= teams@.len(),
            p == privileges_of(teams@.subrange(0, i as int), *cfg),
        decreases teams@.len() - i,
    {
        let id = teams[i].id;
        let ghost before = teams@.subrange(0, i as int);
        let ghost after = teams@.subrange(0, i + 1);
        if id != 0 && contains_id(&cfg.admin_teams, id) {
            p.is_admin = true;
        }
        if id != 0 && contains_id(&cfg.builder_teams, id) {
            p.is_builder = true;
        }
        if id != 0 && contains_id(&cfg.build_worker_teams, id) {
            p.is_build_worker = true;
        }
        proof {
            lemma_grants_push(before, teams@[i as int], cfg.admin_teams@);
            lemma_grants_push(before, teams@[i as int], cfg.builder_teams@);
            lemma_grants_push(before, teams@[i as int], cfg.build_worker_teams@);
            assert(after =~= before.push(teams@[i as int]));
        }
        i = i + 1;
    }
    assert(teams@.subrange(0, teams@.len() as int) =~= teams@);
    p
}

proof fn lemma_grants_push(teams: Seq<Team>, t: Team, tier: Seq<u64>)
    ensures
        any_grants(teams.push(t), tier) == (any_grants(teams, tier) || team_grants(t, tier)),
{
    let s = teams.push(t);
    if any_grants(teams, tier) {
        let i = choose|i: int| 0 <= i < teams.len() && #[trigger] team_grants(teams[i], tier);
        assert(s[i] == teams[i]);
    }
    if team_grants(t, tier) {
        assert(s[teams.len() as int] == t);
    }
    if any_grants(s, tier) {
        let i = choose|i: int| 0 <= i < s.len() && #[trigger] team_grants(s[i], tier);
        if i < teams.len() {
            assert(s[i] == teams[i]);
        }
    }
}

/// Grants accumulate: the tiers from two lists of memberships together are
/// the OR of the tiers from each list.
pub proof fn privileges_accumulate(a: Seq<Team>, b: Seq<Team>, cfg: TierConfig)
    ensures
        privileges_of(a + b, cfg) == (Privileges {
            is_admin: privileges_of(a, cfg).is_admin || privileges_of(b, cfg).is_admin,
            is_builder: privileges_of(a, cfg).is_builder || privileges_of(b, cfg).is_builder,
            is_build_worker: privileges_of(a, cfg).is_build_worker
                || privileges_of(b, cfg).is_build_worker,
        }),
{
    lemma_grants_concat(a, b, cfg.admin_teams@);
    lemma_grants_concat(a, b, cfg.builder_teams@);
    lemma_grants_concat(a, b, cfg.build_worker_teams@);
}

proof fn lemma_grants_concat(a: Seq<Team>, b: Seq<Team>, tier: Seq<u64>)
    ensures
        any_grants(a + b, tier) == (any_grants(a, tier) || any_grants(b, tier)),
{
    let s = a + b;
    if any_grants(a, tier) {
        let i = choose|i: int| 0 <= i < a.len() && #[trigger] team_grants(a[i], tier);
        assert(s[i] == a[i]);
    }
    if any_grants(b, tier) {
        let i = choose|i: int| 0 <= i < b.len() && #[trigger] team_grants(b[i], tier);
        assert(s[a.len() + i] == b[i]);
    }
    if any_grants(s, tier) {
        let i = choose|i: int| 0 <= i < s.len() && #[trigger] team_grants(s[i], tier);
        if i < a.len() {
            assert(s[i] == a[i]);
        } else {
            assert(s[i] == b[i - a.len()]);
        }
    }
}

/// A membership with id `0` grants no tier, even where a tier lists `0`.
pub proof fn zero_team_grants_nothing(teams: Seq<Team>, t: Team, cfg: TierConfig)
    requires
        t.id == 0,
    ensures
        privileges_of(teams.push(t), cfg) == privileges_of(teams, cfg),
{
    lemma_grants_push(teams, t, cfg.admin_teams@);
    lemma_grants_push(teams, t, cfg.builder_teams@);
    lemma_grants_push(teams, t, cfg.build_worker_teams@);
}


/// What happened since the session-create request arrived.
#[derive(Debug, PartialEq, Eq)]
pub enum SessionCreateEvent {
    /// The request was parsed.
    Received,
    /// The identity provider answered with the caller's memberships.
    TeamsFetched(Result<Vec<Team>, StoreError>),
    /// The store answered the find-or-create-account-and-session call.
    Stored(Result<Session, StoreError>),
}

/// What the service does next for a session-create request.
#[derive(Debug, PartialEq, Eq)]
pub enum SessionCreateAction {
    /// Ask the identity provider for the caller's memberships, once.
    FetchTeams,
    /// Find or create the account for the external identity and create a
    /// session carrying these tiers, in one store call.
    FindOrCreate(Privileges),
    /// Send this reply; the request is done.
    Reply(Reply<Session>),
}

/// The next action of a session-create request.
pub open spec fn session_create_step(cfg: TierConfig, event: SessionCreateEvent) -> SessionCreateAction {
    match event {
        SessionCreateEvent::Received => if cfg.test_mode {
            SessionCreateAction::FindOrCreate(all_privileges())
        } else {
            SessionCreateAction::FetchTeams
        },
        SessionCreateEvent::TeamsFetched(Ok(teams)) => SessionCreateAction::FindOrCreate(
            privileges_of(teams@, cfg),
        ),
        _ => SessionCreateAction::FetchTeams,
    }
}

/// The reply a session-create request ends with, for the events that end it.
pub open spec fn session_create_reply(event: SessionCreateEvent) -> Result<Session, (ErrCode, Seq<char>)> {
    match event {
        SessionCreateEvent::Stored(outcome) => create_reply(outcome, "ss:session-create:1"@),
        _ => Err((ErrCode::DataStore, "ss:session-create:0"@)),
    }
}

/// Whether the event ends the request with a reply.
pub open spec fn session_create_ends(event: SessionCreateEvent) -> bool {
    match event {
        SessionCreateEvent::TeamsFetched(Err(_)) => true,
        SessionCreateEvent::Stored(_) => true,
        _ => false,
    }
}

/// Decides the next step of a session-create request.
///
/// In test mode every tier is granted and the identity provider is never
/// asked. Otherwise the memberships are fetched once; a failure there ends
/// the request with `DataStore`, and no session is created. The tiers are an
/// OR over all memberships, with id `0` never eligible. A failed store call
/// ends with `DataStore`; a stored session is the reply.
pub fn session_create(cfg: &TierConfig, event: SessionCreateEvent) -> (r: SessionCreateAction)
    ensures
        session_create_ends(event) ==> r is Reply && reply_view(r->Reply_0) == session_create_reply(
            event,
        ),
        !session_create_ends(event) ==> r == session_create_step(*cfg, event),
{
    match event {
        SessionCreateEvent::Received => {
            if cfg.test_mode {
                SessionCreateAction::FindOrCreate(
                    Privileges { is_admin: true, is_builder: true, is_build_worker: true },
                )
            } else {
                SessionCreateAction::FetchTeams
            }
        },
        SessionCreateEvent::TeamsFetched(Ok(teams)) => {
            SessionCreateAction::FindOrCreate(derive_privileges(&teams, cfg))
        },
        SessionCreateEvent::TeamsFetched(Err(_)) => {
            SessionCreateAction::Reply(Err(err(ErrCode::DataStore, "ss:session-create:0")))
        },
        SessionCreateEvent::Stored(outcome) => {
            SessionCreateAction::Reply(reply_create(outcome, "ss:session-create:1"))
        },
    }
}

/// In test mode a received request goes straight to the store with every
/// tier granted: the identity provider is not asked.
pub proof fn test_mode_grants_all(cfg: TierConfig)
    requires
        cfg.test_mode,
    ensures
        session_create_step(cfg, SessionCreateEvent::Received) == SessionCreateAction::FindOrCreate(
            all_privileges(),
        ),
        session_create_step(cfg, SessionCreateEvent::Received) != SessionCreateAction::FetchTeams,
{
}

/// A lookup of an account by id.
#[derive(Clone, Copy, Debug, PartialEq, Eq, Structural)]
pub struct AccountGetId {
    pub id: u64,
}

/// A lookup of an account by name.
#[derive(Clone, Debug, PartialEq, Eq)]
pub struct AccountGet {
    pub name: String,
}

/// A lookup of a session by token.
#[derive(Clone, Debug, PartialEq, Eq)]
pub struct SessionGet {
    pub token: String,
}

/// A request to record an invitation on the invitee's account.
#[derive(Clone, Debug, PartialEq, Eq)]
pub struct AccountOriginInvitationCreate {
    pub origin_invitation_id: u64,
    pub account_id: u64,
    pub account_name: String,
    pub origin_id: u64,
    pub origin_name: String,
    pub owner_id: u64,
}

/// Reply to an account lookup by id.
pub fn account_get_id(outcome: Result<Option<Account>, StoreError>) -> (r: Reply<Account>)
    ensures
        reply_view(r) == lookup_reply(
            outcome,
            ErrCode::EntityNotFound,
            "ss:account-get-id:0"@,
            "ss:account-get-id:1"@,
        ),
{
    reply_lookup(outcome, ErrCode::EntityNotFound, "ss:account-get-id:0", "ss:account-get-id:1")
}

/// Reply to an account lookup by name.
pub fn account_get(outcome: Result<Option<Account>, StoreError>) -> (r: Reply<Account>)
    ensures
        reply_view(r) == lookup_reply(
            outcome,
            ErrCode::EntityNotFound,
            "ss:account-get:0"@,
            "ss:account-get:1"@,
        ),
{
    reply_lookup(outcome, ErrCode::EntityNotFound, "ss:account-get:0", "ss:account-get:1")
}

/// Reply to a session lookup: an unknown token means the session expired.
pub fn session_get(outcome: Result<Option<Session>, StoreError>) -> (r: Reply<Session>)
    ensures
        reply_view(r) == lookup_reply(
            outcome,
            ErrCode::SessionExpired,
            "ss:auth:4"@,
            "ss:auth:5"@,
        ),
{
    reply_lookup(outcome, ErrCode::SessionExpired, "ss:auth:4", "ss:auth:5")
}

/// Reply to an invitation create.
pub fn account_origin_invitation_create(outcome: Result<(), StoreError>) -> (r: Reply<NetOk>)
    ensures
        reply_view(r) == create_reply(
            match outcome {
                Ok(_) => Ok::<NetOk, StoreError>(NetOk),
                Err(e) => Err(e),
            },
            "ss:account_origin_invitation_create:1"@,
        ),
{
    let done = match outcome {
        Ok(_) => Ok(NetOk),
        Err(e) => Err(e),
    };
    reply_create(done, "ss:account_origin_invitation_create:1")
}

} // verus!
