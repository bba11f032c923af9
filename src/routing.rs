//! Domain messages of the origin service and the shard each is routed to.
//!
//! Create requests route by the owner account; lookups of existing entities
//! by origin id, or by name where no id is known yet; a nested create by the
//! parent entity it names.

use vstd::prelude::*;

use crate::entities::{OriginInvitation, OriginProject, OriginPublicKey};
use crate::ident::OriginPackageIdent;
use crate::shard::InstaId;

verus! {

/// A lookup of an origin by name.
#[derive(Clone, Debug, PartialEq, Eq)]
pub struct OriginGet {
    pub name: String,
}

impl OriginGet {
    pub fn route_key(&self) -> (r: Option<String>)
        ensures
            r is Some && r->Some_0@ == self.name@,
    {
        Some(self.name.clone())
    }
}

/// A request to create an origin; its creator becomes the owner.
#[derive(Clone, Debug, PartialEq, Eq)]
pub struct OriginCreate {
    pub name: String,
    pub owner_id: u64,
    pub owner_name: String,
}

impl OriginCreate {
    pub fn route_key(&self) -> (r: Option<InstaId>)
        ensures
            r == Some(InstaId(self.owner_id)),
    {
        Some(InstaId(self.owner_id))
    }
}

/// A check that an invitation is valid for an account.
#[derive(Clone, Copy, Debug, PartialEq, Eq, Structural)]
pub struct OriginInvitationValidateRequest {
    pub account_id: u64,
    pub invite_id: u64,
}

impl OriginInvitationValidateRequest {
    pub fn route_key(&self) -> (r: Option<InstaId>)
        ensures
            r == Some(InstaId(self.invite_id)),
    {
        Some(InstaId(self.invite_id))
    }
}

/// A request to remove a member from an origin.
#[derive(Clone, Copy, Debug, PartialEq, Eq, Structural)]
pub struct OriginMemberRemove {
    pub origin_id: u64,
    pub account_id: u64,
}

impl OriginMemberRemove {
    pub fn route_key(&self) -> (r: Option<InstaId>)
        ensures
            r == Some(InstaId(self.origin_id)),
    {
        Some(InstaId(self.origin_id))
    }
}

/// A request for the members of an origin.
#[derive(Clone, Copy, Debug, PartialEq, Eq, Structural)]
pub struct OriginMemberListRequest {
    pub origin_id: u64,
}

impl OriginMemberListRequest {
    pub fn route_key(&self) -> (r: Option<InstaId>)
        ensures
            r == Some(InstaId(self.origin_id)),
    {
        Some(InstaId(self.origin_id))
    }
}

/// A request to store a secret key revision.
#[derive(Clone, Debug, PartialEq, Eq)]
pub struct OriginSecretKeyCreate {
    pub name: String,
    pub revision: String,
    pub origin_id: u64,
    pub owner_id: u64,
    pub body: Vec<u8>,
}

impl OriginSecretKeyCreate {
    pub fn route_key(&self) -> (r: Option<InstaId>)
        ensures
            r == Some(InstaId(self.owner_id)),
    {
        Some(InstaId(self.owner_id))
    }
}

/// A lookup of an origin's latest secret key.
#[derive(Clone, Debug, PartialEq, Eq)]
pub struct OriginSecretKeyGet {
    pub owner_id: u64,
    pub origin: String,
}

impl OriginSecretKeyGet {
    pub fn route_key(&self) -> (r: Option<InstaId>)
        ensures
            r == Some(InstaId(self.owner_id)),
    {
        Some(InstaId(self.owner_id))
    }
}

/// A request to store a public key revision.
#[derive(Clone, Debug, PartialEq, Eq)]
pub struct OriginPublicKeyCreate {
    pub name: String,
    pub revision: String,
    pub origin_id: u64,
    pub owner_id: u64,
    pub body: Vec<u8>,
}

impl OriginPublicKeyCreate {
    pub fn route_key(&self) -> (r: Option<InstaId>)
        ensures
            r == Some(InstaId(self.owner_id)),
    {
        Some(InstaId(self.owner_id))
    }
}

/// A lookup of one revision of an origin's public key.
#[derive(Clone, Debug, PartialEq, Eq)]
pub struct OriginPublicKeyGet {
    pub owner_id: u64,
    pub origin: String,
    pub revision: String,
}

impl OriginPublicKeyGet {
    pub fn route_key(&self) -> (r: Option<InstaId>)
        ensures
            r == Some(InstaId(self.owner_id)),
    {
        Some(InstaId(self.owner_id))
    }
}

/// A lookup of an origin's latest public key.
#[derive(Clone, Debug, PartialEq, Eq)]
pub struct OriginPublicKeyLatestGet {
    pub owner_id: u64,
    pub origin: String,
}

impl OriginPublicKeyLatestGet {
    pub fn route_key(&self) -> (r: Option<InstaId>)
        ensures
            r == Some(InstaId(self.owner_id)),
    {
        Some(InstaId(self.owner_id))
    }
}

/// A request for the public keys of an origin.
#[derive(Clone, Copy, Debug, PartialEq, Eq, Structural)]
pub struct OriginPublicKeyListRequest {
    pub origin_id: u64,
}

impl OriginPublicKeyListRequest {
    pub fn route_key(&self) -> (r: Option<InstaId>)
        ensures
            r == Some(InstaId(self.origin_id)),
    {
        Some(InstaId(self.origin_id))
    }
}

/// The public keys of an origin.
#[derive(Clone, Debug, PartialEq, Eq)]
pub struct OriginPublicKeyListResponse {
    pub origin_id: u64,
    pub keys: Vec<OriginPublicKey>,
}

impl OriginPublicKeyListResponse {
    pub fn route_key(&self) -> (r: Option<InstaId>)
        ensures
            r == Some(InstaId(self.origin_id)),
    {
        Some(InstaId(self.origin_id))
    }
}

/// A request to invite an account to an origin.
#[derive(Clone, Debug, PartialEq, Eq)]
pub struct OriginInvitationCreate {
    pub account_id: u64,
    pub account_name: String,
    pub origin_id: u64,
    pub origin_name: String,
    pub owner_id: u64,
}

impl OriginInvitationCreate {
    pub fn route_key(&self) -> (r: Option<u64>)
        ensures
            r == Some(self.owner_id),
    {
        Some(self.owner_id)
    }
}

/// A request for the invitations of an account.
#[derive(Clone, Copy, Debug, PartialEq, Eq, Structural)]
pub struct AccountInvitationListRequest {
    pub account_id: u64,
}

impl AccountInvitationListRequest {
    pub fn route_key(&self) -> (r: Option<u64>)
        ensures
            r == Some(self.account_id),
    {
        Some(self.account_id)
    }
}

/// The invitations of an account.
#[derive(Clone, Debug, PartialEq, Eq)]
pub struct AccountInvitationListResponse {
    pub account_id: u64,
    pub invitations: Vec<OriginInvitation>,
}

impl AccountInvitationListResponse {
    pub fn route_key(&self) -> (r: Option<u64>)
        ensures
            r == Some(self.account_id),
    {
        Some(self.account_id)
    }
}

/// A request for the invitations of an origin.
#[derive(Clone, Copy, Debug, PartialEq, Eq, Structural)]
pub struct OriginInvitationListRequest {
    pub origin_id: u64,
}

impl OriginInvitationListRequest {
    pub fn route_key(&self) -> (r: Option<u64>)
        ensures
            r == Some(self.origin_id),
    {
        Some(self.origin_id)
    }
}

/// The invitations of an origin.
#[derive(Clone, Debug, PartialEq, Eq)]
pub struct OriginInvitationListResponse {
    pub origin_id: u64,
    pub invitations: Vec<OriginInvitation>,
}

impl OriginInvitationListResponse {
    pub fn route_key(&self) -> (r: Option<u64>)
        ensures
            r == Some(self.origin_id),
    {
        Some(self.origin_id)
    }
}

/// A request to accept or ignore an invitation. It routes by the
/// invitation id, not by the origin the invitation is for.
#[derive(Clone, Debug, PartialEq, Eq)]
pub struct OriginInvitationAcceptRequest {
    pub account_id: u64,
    pub invite_id: u64,
    pub origin_name: String,
    pub ignore: bool,
}

impl OriginInvitationAcceptRequest {
    pub fn route_key(&self) -> (r: Option<u64>)
        ensures
            r == Some(self.invite_id),
    {
        Some(self.invite_id)
    }
}

/// A request for the origins an account belongs to.
#[derive(Clone, Copy, Debug, PartialEq, Eq, Structural)]
pub struct AccountOriginListRequest {
    pub account_id: u64,
}

impl AccountOriginListRequest {
    pub fn route_key(&self) -> (r: Option<u64>)
        ensures
            r == Some(self.account_id),
    {
        Some(self.account_id)
    }
}

/// A check that an account may act on an origin.
#[derive(Clone, Debug, PartialEq, Eq)]
pub struct CheckOriginAccessRequest {
    pub account_id: u64,
    pub origin_name: String,
}

impl CheckOriginAccessRequest {
    pub fn route_key(&self) -> (r: Option<u64>)
        ensures
            r == Some(self.account_id),
    {
        Some(self.account_id)
    }
}

/// A lookup of a project by its `origin/project` name.
#[derive(Clone, Debug, PartialEq, Eq)]
pub struct OriginProjectGet {
    pub name: String,
}

impl OriginProjectGet {
    pub fn route_key(&self) -> (r: Option<String>)
        ensures
            r is Some && r->Some_0@ == self.name@,
    {
        Some(self.name.clone())
    }
}

/// A request to create a project; routes by the project's origin.
#[derive(Clone, Debug, PartialEq, Eq)]
pub struct OriginProjectCreate {
    pub project: OriginProject,
}

impl OriginProjectCreate {
    pub fn route_key(&self) -> (r: Option<InstaId>)
        ensures
            r == Some(InstaId(self.project.origin_id)),
    {
        Some(InstaId(self.project.origin_id))
    }
}

/// A request to update a project; routes by the project's origin name.
#[derive(Clone, Debug, PartialEq, Eq)]
pub struct OriginProjectUpdate {
    pub requestor_id: u64,
    pub project: OriginProject,
}

impl OriginProjectUpdate {
    pub fn route_key(&self) -> (r: Option<String>)
        ensures
            r is Some && r->Some_0@ == self.project.origin_name@,
    {
        Some(self.project.origin_name.clone())
    }
}

/// A request to delete a project by its `origin/project` name.
#[derive(Clone, Debug, PartialEq, Eq)]
pub struct OriginProjectDelete {
    pub name: String,
    pub requestor_id: u64,
}

impl OriginProjectDelete {
    pub fn route_key(&self) -> (r: Option<String>)
        ensures
            r is Some && r->Some_0@ == self.name@,
    {
        Some(self.name.clone())
    }
}

/// A lookup of a package.
#[derive(Clone, Debug, PartialEq, Eq)]
pub struct OriginPackageGet {
    pub owner_id: u64,
    pub ident: OriginPackageIdent,
}

impl OriginPackageGet {
    pub fn route_key(&self) -> (r: Option<InstaId>)
        ensures
            r == Some(InstaId(self.owner_id)),
    {
        Some(InstaId(self.owner_id))
    }
}

/// A request to record a package.
#[derive(Clone, Debug, PartialEq, Eq)]
pub struct OriginPackageCreate {
    pub origin_id: u64,
    pub owner_id: u64,
    pub ident: OriginPackageIdent,
    pub checksum: String,
}

impl OriginPackageCreate {
    pub fn route_key(&self) -> (r: Option<InstaId>)
        ensures
            r == Some(InstaId(self.owner_id)),
    {
        Some(InstaId(self.owner_id))
    }
}

/// A request for the distinct packages of an origin, by origin name.
#[derive(Clone, Debug, PartialEq, Eq)]
pub struct OriginPackageUniqueListRequest {
    pub origin: String,
    pub start: u64,
    pub stop: u64,
}

impl OriginPackageUniqueListRequest {
    pub fn route_key(&self) -> (r: Option<String>)
        ensures
            r is Some && r->Some_0@ == self.origin@,
    {
        Some(self.origin.clone())
    }
}


/// The value a message is routed by.
#[derive(Clone, Debug, PartialEq, Eq)]
pub enum RouteKey {
    /// A raw account, origin or invitation id.
    Id(u64),
    /// A shard identifier.
    Shard(InstaId),
    /// A human-chosen name, used before a numeric id is known.
    Name(String),
}

/// A route key as plain values.
pub enum RouteKeyView {
    Id(u64),
    Shard(u64),
    Name(Seq<char>),
}

impl View for RouteKey {
    type V = RouteKeyView;

    open spec fn view(&self) -> RouteKeyView {
        match self {
            RouteKey::Id(n) => RouteKeyView::Id(*n),
            RouteKey::Shard(s) => RouteKeyView::Shard(s.0),
            RouteKey::Name(s) => RouteKeyView::Name(s@),
        }
    }
}

pub open spec fn route_view(r: Option<RouteKey>) -> Option<RouteKeyView> {
    match r {
        Some(k) => Some(k@),
        None => None,
    }
}

fn shard_key(k: Option<InstaId>) -> (r: Option<RouteKey>)
    ensures
        route_view(r) == match k {
            Some(s) => Some(RouteKeyView::Shard(s.0)),
            None => None,
        },
{
    match k {
        Some(s) => Some(RouteKey::Shard(s)),
        None => None,
    }
}

fn id_key(k: Option<u64>) -> (r: Option<RouteKey>)
    ensures
        route_view(r) == match k {
            Some(n) => Some(RouteKeyView::Id(n)),
            None => None,
        },
{
    match k {
        Some(n) => Some(RouteKey::Id(n)),
        None => None,
    }
}

fn name_key(k: Option<String>) -> (r: Option<RouteKey>)
    ensures
        route_view(r) == match k {
            Some(s) => Some(RouteKeyView::Name(s@)),
            None => None,
        },
{
    match k {
        Some(s) => Some(RouteKey::Name(s)),
        None => None,
    }
}

/// Every message kind that is delivered to a shard.
#[derive(Clone, Debug, PartialEq, Eq)]
pub enum Message {
    OriginGet(OriginGet),
    OriginCreate(OriginCreate),
    OriginInvitationValidateRequest(OriginInvitationValidateRequest),
    OriginMemberRemove(OriginMemberRemove),
    OriginMemberListRequest(OriginMemberListRequest),
    OriginSecretKeyCreate(OriginSecretKeyCreate),
    OriginSecretKeyGet(OriginSecretKeyGet),
    OriginPublicKeyCreate(OriginPublicKeyCreate),
    OriginPublicKeyGet(OriginPublicKeyGet),
    OriginPublicKeyLatestGet(OriginPublicKeyLatestGet),
    OriginPublicKeyListRequest(OriginPublicKeyListRequest),
    OriginPublicKeyListResponse(OriginPublicKeyListResponse),
    OriginInvitationCreate(OriginInvitationCreate),
    AccountInvitationListRequest(AccountInvitationListRequest),
    AccountInvitationListResponse(AccountInvitationListResponse),
    OriginInvitationListRequest(OriginInvitationListRequest),
    OriginInvitationListResponse(OriginInvitationListResponse),
    OriginInvitationAcceptRequest(OriginInvitationAcceptRequest),
    AccountOriginListRequest(AccountOriginListRequest),
    CheckOriginAccessRequest(CheckOriginAccessRequest),
    OriginProjectGet(OriginProjectGet),
    OriginProjectCreate(OriginProjectCreate),
    OriginProjectUpdate(OriginProjectUpdate),
    OriginProjectDelete(OriginProjectDelete),
    OriginPackageGet(OriginPackageGet),
    OriginPackageCreate(OriginPackageCreate),
    OriginPackageUniqueListRequest(OriginPackageUniqueListRequest),
}

impl Message {
    /// The key a message is routed by; a function of the message alone.
    pub open spec fn spec_route(&self) -> Option<RouteKeyView> {
        match self {
            Message::OriginGet(m) => Some(RouteKeyView::Name(m.name@)),
            Message::OriginCreate(m) => Some(RouteKeyView::Shard(m.owner_id)),
            Message::OriginInvitationValidateRequest(m) => Some(RouteKeyView::Shard(m.invite_id)),
            Message::OriginMemberRemove(m) => Some(RouteKeyView::Shard(m.origin_id)),
            Message::OriginMemberListRequest(m) => Some(RouteKeyView::Shard(m.origin_id)),
            Message::OriginSecretKeyCreate(m) => Some(RouteKeyView::Shard(m.owner_id)),
            Message::OriginSecretKeyGet(m) => Some(RouteKeyView::Shard(m.owner_id)),
            Message::OriginPublicKeyCreate(m) => Some(RouteKeyView::Shard(m.owner_id)),
            Message::OriginPublicKeyGet(m) => Some(RouteKeyView::Shard(m.owner_id)),
            Message::OriginPublicKeyLatestGet(m) => Some(RouteKeyView::Shard(m.owner_id)),
            Message::OriginPublicKeyListRequest(m) => Some(RouteKeyView::Shard(m.origin_id)),
            Message::OriginPublicKeyListResponse(m) => Some(RouteKeyView::Shard(m.origin_id)),
            Message::OriginInvitationCreate(m) => Some(RouteKeyView::Id(m.owner_id)),
            Message::AccountInvitationListRequest(m) => Some(RouteKeyView::Id(m.account_id)),
            Message::AccountInvitationListResponse(m) => Some(RouteKeyView::Id(m.account_id)),
            Message::OriginInvitationListRequest(m) => Some(RouteKeyView::Id(m.origin_id)),
            Message::OriginInvitationListResponse(m) => Some(RouteKeyView::Id(m.origin_id)),
            Message::OriginInvitationAcceptRequest(m) => Some(RouteKeyView::Id(m.invite_id)),
            Message::AccountOriginListRequest(m) => Some(RouteKeyView::Id(m.account_id)),
            Message::CheckOriginAccessRequest(m) => Some(RouteKeyView::Id(m.account_id)),
            Message::OriginProjectGet(m) => Some(RouteKeyView::Name(m.name@)),
            Message::OriginProjectCreate(m) => Some(RouteKeyView::Shard(m.project.origin_id)),
            Message::OriginProjectUpdate(m) => Some(RouteKeyView::Name(m.project.origin_name@)),
            Message::OriginProjectDelete(m) => Some(RouteKeyView::Name(m.name@)),
            Message::OriginPackageGet(m) => Some(RouteKeyView::Shard(m.owner_id)),
            Message::OriginPackageCreate(m) => Some(RouteKeyView::Shard(m.owner_id)),
            Message::OriginPackageUniqueListRequest(m) => Some(RouteKeyView::Name(m.origin@)),
        }
    }

    pub fn route_key(&self) -> (r: Option<RouteKey>)
        ensures
            route_view(r) == self.spec_route(),
    {
        match self {
            Message::OriginGet(m) => name_key(m.route_key()),
            Message::OriginCreate(m) => shard_key(m.route_key()),
            Message::OriginInvitationValidateRequest(m) => shard_key(m.route_key()),
            Message::OriginMemberRemove(m) => shard_key(m.route_key()),
            Message::OriginMemberListRequest(m) => shard_key(m.route_key()),
            Message::OriginSecretKeyCreate(m) => shard_key(m.route_key()),
            Message::OriginSecretKeyGet(m) => shard_key(m.route_key()),
            Message::OriginPublicKeyCreate(m) => shard_key(m.route_key()),
            Message::OriginPublicKeyGet(m) => shard_key(m.route_key()),
            Message::OriginPublicKeyLatestGet(m) => shard_key(m.route_key()),
            Message::OriginPublicKeyListRequest(m) => shard_key(m.route_key()),
            Message::OriginPublicKeyListResponse(m) => shard_key(m.route_key()),
            Message::OriginInvitationCreate(m) => id_key(m.route_key()),
            Message::AccountInvitationListRequest(m) => id_key(m.route_key()),
            Message::AccountInvitationListResponse(m) => id_key(m.route_key()),
            Message::OriginInvitationListRequest(m) => id_key(m.route_key()),
            Message::OriginInvitationListResponse(m) => id_key(m.route_key()),
            Message::OriginInvitationAcceptRequest(m) => id_key(m.route_key()),
            Message::AccountOriginListRequest(m) => id_key(m.route_key()),
            Message::CheckOriginAccessRequest(m) => id_key(m.route_key()),
            Message::OriginProjectGet(m) => name_key(m.route_key()),
            Message::OriginProjectCreate(m) => shard_key(m.route_key()),
            Message::OriginProjectUpdate(m) => name_key(m.route_key()),
            Message::OriginProjectDelete(m) => name_key(m.route_key()),
            Message::OriginPackageGet(m) => shard_key(m.route_key()),
            Message::OriginPackageCreate(m) => shard_key(m.route_key()),
            Message::OriginPackageUniqueListRequest(m) => name_key(m.route_key()),
        }
    }
}

/// Routing is deterministic: two keys computed for the same message are equal.
pub proof fn route_key_deterministic(m: Message, r1: Option<RouteKey>, r2: Option<RouteKey>)
    requires
        route_view(r1) == m.spec_route(),
        route_view(r2) == m.spec_route(),
    ensures
        route_view(r1) == route_view(r2),
{
}

/// The members of an origin.
#[derive(Clone, Debug, PartialEq, Eq)]
pub struct OriginMemberListResponse {
    pub origin_id: u64,
    pub members: Vec<String>,
}

/// The origins an account belongs to.
#[derive(Clone, Debug, PartialEq, Eq)]
pub struct AccountOriginListResponse {
    pub account_id: u64,
    pub origins: Vec<String>,
}

} // verus!
