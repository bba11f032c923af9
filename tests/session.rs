use builder_rpc::clock::{current_time, timestamp_millis};
use builder_rpc::{
    account_get, account_get_id, account_origin_invitation_create, derive_privileges,
    session_create, session_get, Account, ErrCode, NetOk, Privileges, Session,
    SessionCreateAction, SessionCreateEvent, StoreError, Team, TierConfig,
};

fn cfg(test_mode: bool) -> TierConfig {
    TierConfig {
        admin_teams: vec![10],
        builder_teams: vec![20, 21],
        build_worker_teams: vec![30],
        test_mode,
    }
}

fn team(id: u64) -> Team {
    Team { id, name: format!("team-{}", id) }
}

fn session(id: u64) -> Session {
    Session {
        id,
        account_id: 5,
        email: "a@b.c".to_string(),
        name: "ann".to_string(),
        token: "tok".to_string(),
        privileges: Privileges { is_admin: false, is_builder: true, is_build_worker: false },
    }
}

fn account() -> Account {
    Account { id: 5, email: "a@b.c".to_string(), name: "ann".to_string() }
}

#[test]
fn memberships_or_together() {
    let p = derive_privileges(&vec![team(10), team(20)], &cfg(false));
    assert_eq!(p, Privileges { is_admin: true, is_builder: true, is_build_worker: false });
    let none = derive_privileges(&vec![], &cfg(false));
    assert_eq!(none, Privileges { is_admin: false, is_builder: false, is_build_worker: false });
    let all = derive_privileges(&vec![team(30), team(21), team(10), team(99)], &cfg(false));
    assert_eq!(all, Privileges { is_admin: true, is_builder: true, is_build_worker: true });
}

#[test]
fn zero_team_grants_nothing() {
    let c = TierConfig {
        admin_teams: vec![0],
        builder_teams: vec![0],
        build_worker_teams: vec![0],
        test_mode: false,
    };
    assert!(!c.is_valid());
    assert!(cfg(false).is_valid());
    let p = derive_privileges(&vec![team(0)], &c);
    assert_eq!(p, Privileges { is_admin: false, is_builder: false, is_build_worker: false });
}

#[test]
fn test_mode_grants_all_without_fetching() {
    let a = session_create(&cfg(true), SessionCreateEvent::Received);
    assert_eq!(
        a,
        SessionCreateAction::FindOrCreate(Privileges {
            is_admin: true,
            is_builder: true,
            is_build_worker: true
        })
    );
    assert_eq!(session_create(&cfg(false), SessionCreateEvent::Received), SessionCreateAction::FetchTeams);
}

#[test]
fn session_create_flow() {
    let c = cfg(false);
    let a = session_create(&c, SessionCreateEvent::TeamsFetched(Ok(vec![team(20)])));
    assert_eq!(
        a,
        SessionCreateAction::FindOrCreate(Privileges {
            is_admin: false,
            is_builder: true,
            is_build_worker: false
        })
    );
    let done = session_create(&c, SessionCreateEvent::Stored(Ok(session(1))));
    assert_eq!(done, SessionCreateAction::Reply(Ok(session(1))));
}

#[test]
fn stored_sessions_are_replied_unchanged() {
    let c = cfg(false);
    let first = session_create(&c, SessionCreateEvent::Stored(Ok(session(1))));
    let second = session_create(&c, SessionCreateEvent::Stored(Ok(session(2))));
    match (first, second) {
        (SessionCreateAction::Reply(Ok(a)), SessionCreateAction::Reply(Ok(b))) => {
            assert_ne!(a.id, b.id);
            assert_eq!(a.account_id, b.account_id);
        }
        _ => panic!("expected two session replies"),
    }
}

#[test]
fn session_create_failures() {
    let c = cfg(false);
    match session_create(&c, SessionCreateEvent::TeamsFetched(Err(StoreError))) {
        SessionCreateAction::Reply(Err(e)) => {
            assert_eq!(e.code, ErrCode::DataStore);
            assert_eq!(e.msg, "ss:session-create:0");
        }
        other => panic!("unexpected {:?}", other),
    }
    match session_create(&c, SessionCreateEvent::Stored(Err(StoreError))) {
        SessionCreateAction::Reply(Err(e)) => {
            assert_eq!(e.code, ErrCode::DataStore);
            assert_eq!(e.msg, "ss:session-create:1");
        }
        other => panic!("unexpected {:?}", other),
    }
}

#[test]
fn lookups_reply_found_missing_failed() {
    assert_eq!(account_get_id(Ok(Some(account()))), Ok(account()));
    let e = account_get_id(Ok(None)).unwrap_err();
    assert_eq!((e.code, e.msg.as_str()), (ErrCode::EntityNotFound, "ss:account-get-id:0"));
    let e = account_get_id(Err(StoreError)).unwrap_err();
    assert_eq!((e.code, e.msg.as_str()), (ErrCode::DataStore, "ss:account-get-id:1"));
    assert_eq!(account_get(Ok(Some(account()))), Ok(account()));
    let e = account_get(Ok(None)).unwrap_err();
    assert_eq!((e.code, e.msg.as_str()), (ErrCode::EntityNotFound, "ss:account-get:0"));
    let e = account_get(Err(StoreError)).unwrap_err();
    assert_eq!((e.code, e.msg.as_str()), (ErrCode::DataStore, "ss:account-get:1"));
}

#[test]
fn session_get_expired_and_failed() {
    assert_eq!(session_get(Ok(Some(session(3)))), Ok(session(3)));
    let e = session_get(Ok(None)).unwrap_err();
    assert_eq!((e.code, e.msg.as_str()), (ErrCode::SessionExpired, "ss:auth:4"));
    let e = session_get(Err(StoreError)).unwrap_err();
    assert_eq!((e.code, e.msg.as_str()), (ErrCode::DataStore, "ss:auth:5"));
}

#[test]
fn invitation_create_replies() {
    assert_eq!(account_origin_invitation_create(Ok(())), Ok(NetOk));
    let e = account_origin_invitation_create(Err(StoreError)).unwrap_err();
    assert_eq!(
        (e.code, e.msg.as_str()),
        (ErrCode::DataStore, "ss:account_origin_invitation_create:1")
    );
}

#[test]
fn millis_from_clock_reading() {
    assert_eq!(timestamp_millis(1, 500_000_000), Some(1500));
    assert_eq!(timestamp_millis(0, 999_999), Some(0));
    assert_eq!(timestamp_millis(-1, 0), None);
    assert_eq!(timestamp_millis(0, 1_000_000_000), None);
    assert_eq!(timestamp_millis(i64::MAX, 0), None);
    let now = current_time().unwrap();
    assert!(now > 1_500_000_000_000);
}
