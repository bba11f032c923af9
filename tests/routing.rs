use builder_rpc::entities::OriginProject;
use builder_rpc::ident::OriginPackageIdent;
use builder_rpc::routing::{
    OriginCreate, OriginGet, OriginInvitationAcceptRequest, OriginInvitationCreate,
    OriginPackageUniqueListRequest, OriginProjectCreate, OriginProjectUpdate, OriginSecretKeyGet,
};
use builder_rpc::{InstaId, Message, RouteKey};

fn project() -> OriginProject {
    OriginProject {
        id: 3,
        origin_id: 77,
        origin_name: "core".to_string(),
        package_name: "redis".to_string(),
        name: "core/redis".to_string(),
        plan_path: "redis/plan.sh".to_string(),
        owner_id: 9,
        vcs_type: "git".to_string(),
        vcs_data: "https://example.com/redis.git".to_string(),
    }
}

#[test]
fn route_key_twice_is_equal() {
    let m = Message::OriginGet(OriginGet { name: "core".to_string() });
    assert_eq!(m.route_key(), m.route_key());
    let c = Message::OriginCreate(OriginCreate {
        name: "core".to_string(),
        owner_id: 42,
        owner_name: "bob".to_string(),
    });
    assert_eq!(c.route_key(), c.route_key());
}

#[test]
fn create_routes_by_owner() {
    let c = OriginCreate { name: "core".to_string(), owner_id: 42, owner_name: "bob".to_string() };
    assert_eq!(c.route_key(), Some(InstaId(42)));
    let m = Message::OriginCreate(c);
    assert_eq!(m.route_key(), Some(RouteKey::Shard(InstaId(42))));
}

#[test]
fn get_routes_by_name() {
    let g = OriginGet { name: "core".to_string() };
    assert_eq!(g.route_key(), Some("core".to_string()));
    let k = OriginSecretKeyGet { owner_id: 5, origin: "core".to_string() };
    assert_eq!(k.route_key(), Some(InstaId(5)));
}

#[test]
fn nested_create_routes_by_parent() {
    let c = OriginProjectCreate { project: project() };
    assert_eq!(c.route_key(), Some(InstaId(77)));
    let u = OriginProjectUpdate { requestor_id: 1, project: project() };
    assert_eq!(u.route_key(), Some("core".to_string()));
}

#[test]
fn invitation_accept_routes_by_invitation() {
    let a = OriginInvitationAcceptRequest {
        account_id: 1,
        invite_id: 99,
        origin_name: "core".to_string(),
        ignore: false,
    };
    assert_eq!(a.route_key(), Some(99));
    let m = Message::OriginInvitationAcceptRequest(a);
    assert_eq!(m.route_key(), Some(RouteKey::Id(99)));
    let c = OriginInvitationCreate {
        account_id: 1,
        account_name: "ann".to_string(),
        origin_id: 2,
        origin_name: "core".to_string(),
        owner_id: 3,
    };
    assert_eq!(c.route_key(), Some(3));
}

#[test]
fn package_list_routes_by_origin_name() {
    let r = OriginPackageUniqueListRequest { origin: "core".to_string(), start: 0, stop: 10 };
    assert_eq!(
        Message::OriginPackageUniqueListRequest(r).route_key(),
        Some(RouteKey::Name("core".to_string()))
    );
    let _ = OriginPackageIdent {
        origin: "core".to_string(),
        name: "pkg".to_string(),
        version: String::new(),
        release: String::new(),
    };
}

#[test]
fn shard_is_modulo_of_id() {
    let id = InstaId::new(1234);
    assert_eq!(id.id(), 1234);
    assert_eq!(id.shard(128), 1234 % 128);
    assert_eq!(InstaId::new(1234).shard(128), id.shard(128));
    assert_eq!(InstaId::new(5).shard(1), 0);
}
