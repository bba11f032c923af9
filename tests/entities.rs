use builder_rpc::{
    origin_get, ErrCode, Field, FieldValue, Origin, OriginInvitation, OriginProject,
    OriginPublicKey, OriginSecretKey, OriginPackageIdent, Persistable, StoreError,
};

fn origin() -> Origin {
    Origin {
        id: 1,
        name: "core".to_string(),
        owner_id: 42,
        private_key_name: "core-20160101".to_string(),
    }
}

fn text(name: &str, v: &str) -> Field {
    Field { name: name.to_string(), value: FieldValue::Text(v.to_string()) }
}

fn uint(name: &str, v: u64) -> Field {
    Field { name: name.to_string(), value: FieldValue::Uint(v) }
}

fn ident(version: &str, release: &str) -> OriginPackageIdent {
    OriginPackageIdent {
        origin: "core".to_string(),
        name: "pkg".to_string(),
        version: version.to_string(),
        release: release.to_string(),
    }
}

#[test]
fn set_then_get_primary_key() {
    let mut o = origin();
    o.set_primary_key(500);
    assert_eq!(o.primary_key(), 500);
    assert_eq!(o.name, "core");
    let mut k = OriginSecretKey {
        id: 0,
        origin_id: 1,
        name: "core".to_string(),
        revision: "2017".to_string(),
        body: vec![1, 2],
        owner_id: 4,
    };
    k.set_primary_key(7);
    assert_eq!(k.primary_key(), 7);
    let mut i = OriginInvitation {
        id: 0,
        account_id: 1,
        account_name: "ann".to_string(),
        origin_id: 2,
        origin_name: "core".to_string(),
        owner_id: 3,
    };
    i.set_primary_key(u64::MAX);
    assert_eq!(i.primary_key(), u64::MAX);
}

#[test]
fn origin_projection() {
    assert_eq!(
        origin().fields(),
        vec![uint("id", 1), text("name", "core"), uint("owner_id", 42), text("private_key_name", "core-20160101")]
    );
}

#[test]
fn key_projection_carries_body() {
    let k = OriginPublicKey {
        id: 8,
        origin_id: 1,
        name: "core".to_string(),
        revision: "2017".to_string(),
        body: vec![9, 8, 7],
        owner_id: 4,
    };
    let f = k.fields();
    assert_eq!(f.len(), 6);
    assert_eq!(f[3], text("revision", "2017"));
    assert_eq!(f[4], Field { name: "body".to_string(), value: FieldValue::Bytes(vec![9, 8, 7]) });
    assert_eq!(f[5], uint("owner_id", 4));
}

#[test]
fn invitation_projection_names_account() {
    let i = OriginInvitation {
        id: 1,
        account_id: 2,
        account_name: "ann".to_string(),
        origin_id: 3,
        origin_name: "core".to_string(),
        owner_id: 4,
    };
    let f = i.fields();
    assert_eq!(f[2], text("account_name", "ann"));
    assert_eq!(f.len(), 6);
}

#[test]
fn project_projection_has_nine_fields() {
    let p = OriginProject {
        id: 3,
        origin_id: 77,
        origin_name: "core".to_string(),
        package_name: "redis".to_string(),
        name: "core/redis".to_string(),
        plan_path: "redis/plan.sh".to_string(),
        owner_id: 9,
        vcs_type: "git".to_string(),
        vcs_data: "url".to_string(),
    };
    let f = p.fields();
    assert_eq!(f.len(), 9);
    assert_eq!(f[0], uint("id", 3));
    assert_eq!(f[8], text("vcs_data", "url"));
}

#[test]
fn display_forms() {
    assert_eq!(ident("", "").to_display_string(), "core/pkg");
    assert_eq!(ident("1.0", "").to_display_string(), "core/pkg/1.0");
    assert_eq!(ident("1.0", "2021").to_display_string(), "core/pkg/1.0/2021");
}

#[test]
fn release_without_version_is_not_shown() {
    let i = ident("", "2021");
    assert!(!i.is_well_formed());
    assert_eq!(i.to_display_string(), "core/pkg");
    assert!(ident("1.0", "2021").is_well_formed());
}

#[test]
fn empty_parts_are_absent() {
    let i = ident("1.0", "");
    assert_eq!(i.origin(), "core");
    assert_eq!(i.name(), "pkg");
    assert_eq!(i.version(), Some("1.0"));
    assert_eq!(i.release(), None);
    let p = i.to_package_ident();
    assert_eq!(p.version, Some("1.0".to_string()));
    assert_eq!(p.release, None);
    assert_eq!(
        i.fields(),
        vec![text("origin", "core"), text("name", "pkg"), text("version", "1.0")]
    );
    assert_eq!(ident("", "").fields().len(), 2);
}

#[test]
fn origin_get_found_and_missing() {
    let store = vec![origin()];
    let found = store.iter().find(|o| o.name == "core").cloned();
    assert_eq!(origin_get(Ok(found)), Ok(origin()));
    let empty: Vec<Origin> = Vec::new();
    let missing = empty.iter().find(|o| o.name == "core").cloned();
    let e = origin_get(Ok(missing)).unwrap_err();
    assert_eq!(e.code, ErrCode::EntityNotFound);
    assert_eq!(e.msg, "os:origin-get:0");
}

#[test]
fn origin_get_store_failure() {
    let e = origin_get(Err(StoreError)).unwrap_err();
    assert_eq!(e.code, ErrCode::DataStore);
    assert_eq!(e.msg, "os:origin-get:1");
}
