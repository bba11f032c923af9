//! Origin-service entities, their primary keys and their wire projections.

use vstd::prelude::*;

use crate::net::{lookup_reply, reply_lookup, reply_view, ErrCode, Reply, StoreError};
use crate::projection::{fields_view, push_bytes, push_text, push_uint, Field, FieldView};

verus! {

/// An entity that receives a process-assigned primary key once, at creation.
pub trait Persistable: Sized {
    /// The primary key held by the entity.
    spec fn key_of(&self) -> u64;

    /// The entity with its primary key replaced and every other field kept.
    spec fn with_key(&self, key: u64) -> Self;

    fn primary_key(&self) -> (r: u64)
        ensures
            r == self.key_of(),
    ;

    fn set_primary_key(&mut self, value: u64)
        ensures
            *final(self) == old(self).with_key(value),
    ;

    proof fn lemma_key_round_trip(&self, key: u64)
        ensures
            self.with_key(key).key_of() == key,
    ;
}

/// Setting a primary key and reading it back gives the key that was set.
pub proof fn primary_key_round_trip<T: Persistable>(e: T, key: u64)
    ensures
        e.with_key(key).key_of() == key,
{
    e.lemma_key_round_trip(key);
}

/// A named namespace of packages, owned by the account that created it.
#[derive(Clone, Debug, PartialEq, Eq)]
pub struct Origin {
    pub id: u64,
    pub name: String,
    pub owner_id: u64,
    pub private_key_name: String,
}

/// A secret key of an origin, at one revision.
#[derive(Clone, Debug, PartialEq, Eq)]
pub struct OriginSecretKey {
    pub id: u64,
    pub origin_id: u64,
    pub name: String,
    pub revision: String,
    pub body: Vec<u8>,
    pub owner_id: u64,
}

/// A public key of an origin, at one revision.
#[derive(Clone, Debug, PartialEq, Eq)]
pub struct OriginPublicKey {
    pub id: u64,
    pub origin_id: u64,
    pub name: String,
    pub revision: String,
    pub body: Vec<u8>,
    pub owner_id: u64,
}

/// An invitation of an account to an origin.
#[derive(Clone, Debug, PartialEq, Eq)]
pub struct OriginInvitation {
    pub id: u64,
    pub account_id: u64,
    pub account_name: String,
    pub origin_id: u64,
    pub origin_name: String,
    pub owner_id: u64,
}

/// A buildable project of an origin.
#[derive(Clone, Debug, PartialEq, Eq)]
pub struct OriginProject {
    pub id: u64,
    pub origin_id: u64,
    pub origin_name: String,
    pub package_name: String,
    pub name: String,
    pub plan_path: String,
    pub owner_id: u64,
    pub vcs_type: String,
    pub vcs_data: String,
}

impl Persistable for Origin {
    open spec fn key_of(&self) -> u64 {
        self.id
    }

    open spec fn with_key(&self, key: u64) -> Origin {
        Origin { id: key, ..*self }
    }

    fn primary_key(&self) -> (r: u64) {
        self.id
    }

    fn set_primary_key(&mut self, value: u64) {
        self.id = value;
    }

    proof fn lemma_key_round_trip(&self, key: u64) {
    }
}

impl Persistable for OriginSecretKey {
    open spec fn key_of(&self) -> u64 {
        self.id
    }

    open spec fn with_key(&self, key: u64) -> OriginSecretKey {
        OriginSecretKey { id: key, ..*self }
    }

    fn primary_key(&self) -> (r: u64) {
        self.id
    }

    fn set_primary_key(&mut self, value: u64) {
        self.id = value;
    }

    proof fn lemma_key_round_trip(&self, key: u64) {
    }
}

impl Persistable for OriginPublicKey {
    open spec fn key_of(&self) -> u64 {
        self.id
    }

    open spec fn with_key(&self, key: u64) -> OriginPublicKey {
        OriginPublicKey { id: key, ..*self }
    }

    fn primary_key(&self) -> (r: u64) {
        self.id
    }

    fn set_primary_key(&mut self, value: u64) {
        self.id = value;
    }

    proof fn lemma_key_round_trip(&self, key: u64) {
    }
}

impl Persistable for OriginInvitation {
    open spec fn key_of(&self) -> u64 {
        self.id
    }

    open spec fn with_key(&self, key: u64) -> OriginInvitation {
        OriginInvitation { id: key, ..*self }
    }

    fn primary_key(&self) -> (r: u64) {
        self.id
    }

    fn set_primary_key(&mut self, value: u64) {
        self.id = value;
    }

    proof fn lemma_key_round_trip(&self, key: u64) {
    }
}


impl Origin {
    /// The API projection: id, name, owner_id, private_key_name.
    pub open spec fn spec_fields(&self) -> Seq<(Seq<char>, FieldView)> {
        seq![
            ("id"@, FieldView::Uint(self.id)),
            ("name"@, FieldView::Text(self.name@)),
            ("owner_id"@, FieldView::Uint(self.owner_id)),
            ("private_key_name"@, FieldView::Text(self.private_key_name@)),
        ]
    }

    pub fn fields(&self) -> (r: Vec<Field>)
        ensures
            fields_view(r@) == self.spec_fields(),
    {
        let mut r: Vec<Field> = Vec::new();
        assert(fields_view(r@) =~= seq![]);
        push_uint(&mut r, "id", self.id);
        push_text(&mut r, "name", &self.name);
        push_uint(&mut r, "owner_id", self.owner_id);
        push_text(&mut r, "private_key_name", &self.private_key_name);
        assert(fields_view(r@) =~= self.spec_fields());
        r
    }
}

/// The API projection shared by secret and public keys.
pub open spec fn key_fields(
    id: u64,
    origin_id: u64,
    name: Seq<char>,
    revision: Seq<char>,
    body: Seq<u8>,
    owner_id: u64,
) -> Seq<(Seq<char>, FieldView)> {
    seq![
        ("id"@, FieldView::Uint(id)),
        ("origin_id"@, FieldView::Uint(origin_id)),
        ("name"@, FieldView::Text(name)),
        ("revision"@, FieldView::Text(revision)),
        ("body"@, FieldView::Bytes(body)),
        ("owner_id"@, FieldView::Uint(owner_id)),
    ]
}

fn key_fields_exec(
    id: u64,
    origin_id: u64,
    name: &String,
    revision: &String,
    body: &Vec<u8>,
    owner_id: u64,
) -> (r: Vec<Field>)
    ensures
        fields_view(r@) == key_fields(id, origin_id, name@, revision@, body@, owner_id),
{
    let mut r: Vec<Field> = Vec::new();
    assert(fields_view(r@) =~= seq![]);
    push_uint(&mut r, "id", id);
    push_uint(&mut r, "origin_id", origin_id);
    push_text(&mut r, "name", name);
    push_text(&mut r, "revision", revision);
    push_bytes(&mut r, "body", body);
    push_uint(&mut r, "owner_id", owner_id);
    assert(fields_view(r@) =~= key_fields(id, origin_id, name@, revision@, body@, owner_id));
    r
}

impl OriginSecretKey {
    /// The API projection: id, origin_id, name, revision, body, owner_id.
    pub fn fields(&self) -> (r: Vec<Field>)
        ensures
            fields_view(r@) == key_fields(
                self.id,
                self.origin_id,
                self.name@,
                self.revision@,
                self.body@,
                self.owner_id,
            ),
    {
        key_fields_exec(
            self.id,
            self.origin_id,
            &self.name,
            &self.revision,
            &self.body,
            self.owner_id,
        )
    }
}

impl OriginPublicKey {
    /// The API projection: id, origin_id, name, revision, body, owner_id.
    pub fn fields(&self) -> (r: Vec<Field>)
        ensures
            fields_view(r@) == key_fields(
                self.id,
                self.origin_id,
                self.name@,
                self.revision@,
                self.body@,
                self.owner_id,
            ),
    {
        key_fields_exec(
            self.id,
            self.origin_id,
            &self.name,
            &self.revision,
            &self.body,
            self.owner_id,
        )
    }
}

impl OriginInvitation {
    /// The API projection: id, account_id, account_name, origin_id,
    /// origin_name, owner_id.
    pub open spec fn spec_fields(&self) -> Seq<(Seq<char>, FieldView)> {
        seq![
            ("id"@, FieldView::Uint(self.id)),
            ("account_id"@, FieldView::Uint(self.account_id)),
            ("account_name"@, FieldView::Text(self.account_name@)),
            ("origin_id"@, FieldView::Uint(self.origin_id)),
            ("origin_name"@, FieldView::Text(self.origin_name@)),
            ("owner_id"@, FieldView::Uint(self.owner_id)),
        ]
    }

    pub fn fields(&self) -> (r: Vec<Field>)
        ensures
            fields_view(r@) == self.spec_fields(),
    {
        let mut r: Vec<Field> = Vec::new();
        assert(fields_view(r@) =~= seq![]);
        push_uint(&mut r, "id", self.id);
        push_uint(&mut r, "account_id", self.account_id);
        push_text(&mut r, "account_name", &self.account_name);
        push_uint(&mut r, "origin_id", self.origin_id);
        push_text(&mut r, "origin_name", &self.origin_name);
        push_uint(&mut r, "owner_id", self.owner_id);
        assert(fields_view(r@) =~= self.spec_fields());
        r
    }
}

impl OriginProject {
    /// The API projection: id, origin_id, origin_name, package_name, name,
    /// plan_path, owner_id, vcs_type, vcs_data.
    pub open spec fn spec_fields(&self) -> Seq<(Seq<char>, FieldView)> {
        seq![
            ("id"@, FieldView::Uint(self.id)),
            ("origin_id"@, FieldView::Uint(self.origin_id)),
            ("origin_name"@, FieldView::Text(self.origin_name@)),
            ("package_name"@, FieldView::Text(self.package_name@)),
            ("name"@, FieldView::Text(self.name@)),
            ("plan_path"@, FieldView::Text(self.plan_path@)),
            ("owner_id"@, FieldView::Uint(self.owner_id)),
            ("vcs_type"@, FieldView::Text(self.vcs_type@)),
            ("vcs_data"@, FieldView::Text(self.vcs_data@)),
        ]
    }

    pub fn fields(&self) -> (r: Vec<Field>)
        ensures
            fields_view(r@) == self.spec_fields(),
    {
        let mut r: Vec<Field> = Vec::new();
        assert(fields_view(r@) =~= seq![]);
        push_uint(&mut r, "id", self.id);
        push_uint(&mut r, "origin_id", self.origin_id);
        push_text(&mut r, "origin_name", &self.origin_name);
        push_text(&mut r, "package_name", &self.package_name);
        push_text(&mut r, "name", &self.name);
        push_text(&mut r, "plan_path", &self.plan_path);
        push_uint(&mut r, "owner_id", self.owner_id);
        push_text(&mut r, "vcs_type", &self.vcs_type);
        push_text(&mut r, "vcs_data", &self.vcs_data);
        assert(fields_view(r@) =~= self.spec_fields());
        r
    }
}


/// Reply to an origin lookup by name.
pub fn origin_get(outcome: Result<Option<Origin>, StoreError>) -> (r: Reply<Origin>)
    ensures
        reply_view(r) == lookup_reply(
            outcome,
            ErrCode::EntityNotFound,
            "os:origin-get:0"@,
            "os:origin-get:1"@,
        ),
{
    reply_lookup(outcome, ErrCode::EntityNotFound, "os:origin-get:0", "os:origin-get:1")
}

} // verus!
