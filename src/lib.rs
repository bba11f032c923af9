//! Routing, persistence keys, wire projections and session handling for the
//! package-build service's internal RPC layer.

pub mod clock;
pub mod entities;
pub mod ident;
pub mod net;
pub mod projection;
pub mod routing;
pub mod session;
pub mod shard;

pub use entities::{
    origin_get, Origin, OriginInvitation, OriginProject, OriginPublicKey, OriginSecretKey,
    Persistable,
};
pub use ident::{OriginPackageIdent, PackageIdent};
pub use net::{ErrCode, NetError, NetOk, Reply, StoreError};
pub use projection::{Field, FieldValue};
pub use routing::{Message, RouteKey};
pub use session::{
    account_get, account_get_id, account_origin_invitation_create, derive_privileges,
    session_create, session_get, Account, Privileges, Session, SessionCreateAction,
    SessionCreateEvent, Team, TierConfig,
};
pub use shard::InstaId;
