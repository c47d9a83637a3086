//! The streaming hosts that the server knows, and the apps they offer.

use crate::api_bindings;
use crate::api_bindings::{
    DetailedHost, HostOwner, HostState, PairStatus, PatchHostRequest, UndetailedHost,
};
use crate::error::AppError;
use crate::strings::{decimal, push_decimal};
use vstd::prelude::*;
use vstd::std_specs::convert::FromSpecImpl;

verus! {

/// Names a streaming host.
#[derive(Clone, Copy, Debug, PartialEq, Eq, Hash, Structural)]
pub struct HostId(pub u32);

/// Names an app of a streaming host.
#[derive(Clone, Copy, Debug, PartialEq, Eq, Hash, Structural)]
pub struct AppId(pub u32);

/// An app of a streaming host.
#[derive(Clone, Debug, PartialEq, Eq)]
pub struct App {
    pub id: AppId,
    pub title: String,
    pub is_hdr_supported: bool,
}

impl From<App> for api_bindings::App {
    fn from(value: App) -> (r: Self) {
        api_bindings::App {
            app_id: value.id.0,
            title: value.title,
            is_hdr_supported: value.is_hdr_supported,
        }
    }
}

impl FromSpecImpl<App> for api_bindings::App {
    open spec fn obeys_from_spec() -> bool {
        true
    }

    open spec fn from_spec(value: App) -> Self {
        api_bindings::App {
            app_id: value.id.0,
            title: value.title,
            is_hdr_supported: value.is_hdr_supported,
        }
    }
}

/// The place of the first app with the number `app_id` among the apps of a
/// host.
pub fn find_app(apps: &Vec<App>, app_id: AppId) -> (r: Option<usize>)
    ensures
        match r {
            Some(i) => i < apps@.len() && apps@[i as int].id == app_id && forall|j: int|
                0 <= j < i ==> apps@[j].id != app_id,
            None => forall|j: int| 0 <= j < apps@.len() ==> apps@[j].id != app_id,
        },
{
    let mut i: usize = 0;
    while i < apps.len()
        invariant
            i <= apps@.len(),
            forall|j: int| 0 <= j < i ==> apps@[j].id != app_id,
        decreases apps.len() - i,
    {
        if apps[i].id == app_id {
            return Some(i);
        }
        i += 1;
    }
    None
}

/// Names a user of the server.
#[derive(Clone, Copy, Debug, PartialEq, Eq, Hash, Structural)]
pub struct UserId(pub u32);

/// What a user may do.
#[derive(Clone, Copy, Debug, PartialEq, Eq, Structural)]
pub enum Role {
    User,
    Admin,
}

/// The keys and certificates that pair the server with a streaming host,
/// each PEM encoded.
#[derive(Clone, Debug, PartialEq, Eq)]
pub struct StorageHostPairInfo {
    pub client_private_key: String,
    pub client_certificate: String,
    pub server_certificate: String,
}

/// What the server remembers of a host for the time when it is offline.
#[derive(Clone, Debug, PartialEq, Eq)]
pub struct StorageHostCache {
    pub name: String,
    /// The hardware address of the host as text.
    pub mac: Option<String>,
}

/// A streaming host as the server keeps it.
#[derive(Clone, Debug, PartialEq, Eq)]
pub struct StorageHost {
    pub id: HostId,
    /// The user that the host belongs to; a host of nobody is everybody's.
    pub owner: Option<UserId>,
    pub address: String,
    pub http_port: u16,
    pub pair_info: Option<StorageHostPairInfo>,
    pub cache: StorageHostCache,
}

/// What a streaming host that is online says of itself.
#[derive(Clone, Debug, PartialEq, Eq)]
pub struct HostInfo {
    pub host_name: String,
    pub pair_status: PairStatus,
    /// Whether the host is free or busy, if it says so in a known way.
    pub server_state: Option<HostState>,
    pub https_port: u16,
    pub external_port: u16,
    pub app_version: String,
    pub gfe_version: String,
    pub unique_id: String,
    /// The hardware address of the host as text.
    pub mac: Option<String>,
    pub local_ip: String,
    pub current_game: u32,
    pub max_luma_pixels_hevc: u32,
    pub server_codec_mode_support: u32,
}

/// Whether `user` in the role `role` may use a host of `owner`: everybody
/// may use a host of nobody, the owner its own, and an admin any.
pub open spec fn may_use(owner: Option<UserId>, user: UserId, role: Role) -> bool {
    owner is None || owner == Some(user) || role is Admin
}

/// Lets a user use a host, or refuses.
pub fn can_use(owner: Option<UserId>, user: UserId, role: Role) -> (r: Result<(), AppError>)
    ensures
        r == (if may_use(owner, user, role) {
            Ok::<(), AppError>(())
        } else {
            Err::<(), AppError>(AppError::Forbidden)
        }),
{
    let own = match owner {
        None => true,
        Some(owner) => owner == user,
    };
    let admin = match role {
        Role::Admin => true,
        Role::User => false,
    };
    if own || admin {
        Ok(())
    } else {
        Err(AppError::Forbidden)
    }
}

/// Lets a user delete a host, or refuses: the owner may delete its own, an
/// admin any.
pub fn can_delete(owner: Option<UserId>, user: UserId, role: Role) -> (r: Result<(), AppError>)
    ensures
        r == (if owner == Some(user) || role is Admin {
            Ok::<(), AppError>(())
        } else {
            Err::<(), AppError>(AppError::Forbidden)
        }),
{
    let own = match owner {
        None => false,
        Some(owner) => owner == user,
    };
    let admin = match role {
        Role::Admin => true,
        Role::User => false,
    };
    if own || admin {
        Ok(())
    } else {
        Err(AppError::Forbidden)
    }
}

/// Whose a host is, as its user sees it. The host is the user's own or
/// nobody's.
pub fn owner_info(owner: Option<UserId>, user: UserId) -> (r: HostOwner)
    requires
        owner is None || owner == Some(user),
    ensures
        r == (if owner is None {
            HostOwner::Global
        } else {
            HostOwner::ThisUser
        }),
{
    match owner {
        None => HostOwner::Global,
        Some(_) => HostOwner::ThisUser,
    }
}

/// Whether the server holds what pairs it with the host.
pub open spec fn stored_pair_status(storage: StorageHost) -> PairStatus {
    if storage.pair_info is Some {
        PairStatus::Paired
    } else {
        PairStatus::NotPaired
    }
}

fn pair_status_of(storage: &StorageHost) -> (r: PairStatus)
    ensures
        r == stored_pair_status(*storage),
{
    match &storage.pair_info {
        Some(_) => PairStatus::Paired,
        None => PairStatus::NotPaired,
    }
}

fn clone_text(text: &Option<String>) -> (r: Option<String>)
    ensures
        r == *text,
{
    match text {
        Some(text) => Some(text.clone()),
        None => None,
    }
}

/// A host in short, from what the server keeps of it alone.
pub fn undetailed_host_cached(storage: &StorageHost, user: UserId) -> (r: UndetailedHost)
    requires
        storage.owner is None || storage.owner == Some(user),
    ensures
        r == (UndetailedHost {
            host_id: storage.id.0,
            name: storage.cache.name,
            owner: if storage.owner is None {
                HostOwner::Global
            } else {
                HostOwner::ThisUser
            },
            paired: stored_pair_status(*storage),
            server_state: None,
        }),
{
    UndetailedHost {
        host_id: storage.id.0,
        name: storage.cache.name.clone(),
        owner: owner_info(storage.owner, user),
        paired: pair_status_of(storage),
        server_state: None,
    }
}

/// A host in short: from what it says of itself where it is online (`info`),
/// else from what the server keeps of it.
pub fn undetailed_host(id: HostId, storage: &StorageHost, info: Option<&HostInfo>, user: UserId) -> (r:
    UndetailedHost)
    requires
        storage.owner is None || storage.owner == Some(user),
    ensures
        r == (match info {
            Some(info) => UndetailedHost {
                host_id: id.0,
                name: info.host_name,
                owner: if storage.owner is None {
                    HostOwner::Global
                } else {
                    HostOwner::ThisUser
                },
                paired: info.pair_status,
                server_state: info.server_state,
            },
            None => UndetailedHost {
                host_id: id.0,
                name: storage.cache.name,
                owner: if storage.owner is None {
                    HostOwner::Global
                } else {
                    HostOwner::ThisUser
                },
                paired: stored_pair_status(*storage),
                server_state: None,
            },
        }),
{
    let owner = owner_info(storage.owner, user);
    match info {
        Some(info) => UndetailedHost {
            host_id: id.0,
            name: info.host_name.clone(),
            owner,
            paired: info.pair_status,
            server_state: info.server_state,
        },
        None => UndetailedHost {
            host_id: id.0,
            name: storage.cache.name.clone(),
            owner,
            paired: pair_status_of(storage),
            server_state: None,
        },
    }
}

/// What is said of a host that is offline where only a host that is online
/// can say it.
pub open spec fn is_offline_text(text: String) -> bool {
    text@ == "Offline"@
}

/// Whether `host` is the host `id` in full: from what it says of itself
/// where it is online (`info`), else from what the server keeps of it, with
/// "Offline" and 0 for what only the host can say.
pub open spec fn detailed_host_is(
    host: DetailedHost,
    id: HostId,
    storage: StorageHost,
    info: Option<HostInfo>,
) -> bool {
    &&& host.host_id == id.0
    &&& host.owner == (if storage.owner is None {
        HostOwner::Global
    } else {
        HostOwner::ThisUser
    })
    &&& host.address == storage.address
    &&& host.http_port == storage.http_port
    &&& match info {
        Some(info) => {
            &&& host.name == info.host_name
            &&& host.paired == info.pair_status
            &&& host.server_state == info.server_state
            &&& host.https_port == info.https_port
            &&& host.external_port == info.external_port
            &&& host.version == info.app_version
            &&& host.gfe_version == info.gfe_version
            &&& host.unique_id == info.unique_id
            &&& host.mac == info.mac
            &&& host.local_ip == info.local_ip
            &&& host.current_game == info.current_game
            &&& host.max_luma_pixels_hevc == info.max_luma_pixels_hevc
            &&& host.server_codec_mode_support == info.server_codec_mode_support
        },
        None => {
            &&& host.name == storage.cache.name
            &&& host.paired == stored_pair_status(storage)
            &&& host.server_state is None
            &&& host.https_port == 0
            &&& host.external_port == 0
            &&& is_offline_text(host.version)
            &&& is_offline_text(host.gfe_version)
            &&& is_offline_text(host.unique_id)
            &&& host.mac == storage.cache.mac
            &&& is_offline_text(host.local_ip)
            &&& host.current_game == 0
            &&& host.max_luma_pixels_hevc == 0
            &&& host.server_codec_mode_support == 0
        },
    }
}

/// A host in full; see `detailed_host_is`.
pub fn detailed_host(id: HostId, storage: &StorageHost, info: Option<&HostInfo>, user: UserId) -> (r:
    DetailedHost)
    requires
        storage.owner is None || storage.owner == Some(user),
    ensures
        detailed_host_is(
            r,
            id,
            *storage,
            match info {
                Some(info) => Some(*info),
                None => None,
            },
        ),
{
    let owner = owner_info(storage.owner, user);
    match info {
        Some(info) => DetailedHost {
            host_id: id.0,
            owner,
            name: info.host_name.clone(),
            paired: info.pair_status,
            server_state: info.server_state,
            address: storage.address.clone(),
            http_port: storage.http_port,
            https_port: info.https_port,
            external_port: info.external_port,
            version: info.app_version.clone(),
            gfe_version: info.gfe_version.clone(),
            unique_id: info.unique_id.clone(),
            mac: clone_text(&info.mac),
            local_ip: info.local_ip.clone(),
            current_game: info.current_game,
            max_luma_pixels_hevc: info.max_luma_pixels_hevc,
            server_codec_mode_support: info.server_codec_mode_support,
        },
        None => DetailedHost {
            host_id: id.0,
            owner,
            name: storage.cache.name.clone(),
            paired: pair_status_of(storage),
            server_state: None,
            address: storage.address.clone(),
            http_port: storage.http_port,
            https_port: 0,
            external_port: 0,
            version: "Offline".to_string(),
            gfe_version: "Offline".to_string(),
            unique_id: "Offline".to_string(),
            mac: clone_text(&storage.cache.mac),
            local_ip: "Offline".to_string(),
            current_game: 0,
            max_luma_pixels_hevc: 0,
            server_codec_mode_support: 0,
        },
    }
}

/// Whether a host is paired: what it says where it is online, and not where
/// it is offline.
pub fn is_paired(info: Option<&HostInfo>) -> (r: PairStatus)
    ensures
        r == (match info {
            Some(info) => info.pair_status,
            None => PairStatus::NotPaired,
        }),
{
    match info {
        Some(info) => info.pair_status,
        None => PairStatus::NotPaired,
    }
}

/// The address of a host with its port, as `host:port`.
pub fn build_hostport(host: &str, port: u16) -> (r: String)
    ensures
        r@ == host@ + ":"@ + decimal(port as int),
{
    let mut text = String::from_str(host);
    text.append(":");
    push_decimal(&mut text, port as i32);
    text
}

/// What a user wants of a host that has to answer for it.
#[derive(Clone, Copy, Debug, PartialEq, Eq, Structural)]
pub enum HostAction {
    Pair,
    ListApps,
    AppImage,
    CancelApp,
}

/// Whether `action` can go on, given whether the host is online and what it
/// says of being paired, and whether the server holds what pairs it with
/// the host (`https_capable`).
///
/// Pairing needs a host that is online and not paired yet. Everything else
/// needs a host that is online and paired with the server.
pub open spec fn action_check(
    action: HostAction,
    online: Option<PairStatus>,
    https_capable: bool,
) -> Result<(), AppError> {
    match action {
        HostAction::Pair => match online {
            None => Err(AppError::HostNotFound),
            Some(PairStatus::Paired) => Err(AppError::HostPaired),
            Some(PairStatus::NotPaired) => Ok(()),
        },
        HostAction::CancelApp => if online is None {
            Err(AppError::HostOffline)
        } else if !https_capable {
            Err(AppError::Forbidden)
        } else {
            Ok(())
        },
        _ => if online is None {
            Err(AppError::HostOffline)
        } else if !https_capable {
            Err(AppError::HostNotPaired)
        } else {
            Ok(())
        },
    }
}

/// Lets an action on a host go on, or says why it cannot; see
/// `action_check`.
pub fn check_action(action: HostAction, online: Option<PairStatus>, https_capable: bool) -> (r: Result<
    (),
    AppError,
>)
    ensures
        r == action_check(action, online, https_capable),
{
    match action {
        HostAction::Pair => match online {
            None => Err(AppError::HostNotFound),
            Some(PairStatus::Paired) => Err(AppError::HostPaired),
            Some(PairStatus::NotPaired) => Ok(()),
        },
        HostAction::CancelApp => if online.is_none() {
            Err(AppError::HostOffline)
        } else if !https_capable {
            Err(AppError::Forbidden)
        } else {
            Ok(())
        },
        HostAction::ListApps => if online.is_none() {
            Err(AppError::HostOffline)
        } else if !https_capable {
            Err(AppError::HostNotPaired)
        } else {
            Ok(())
        },
        HostAction::AppImage => if online.is_none() {
            Err(AppError::HostOffline)
        } else if !https_capable {
            Err(AppError::HostNotPaired)
        } else {
            Ok(())
        },
    }
}

/// The hardware address to wake a host by: the one that the server
/// remembers. A host of which none is remembered cannot be woken.
pub fn wake_address(storage: &StorageHost) -> (r: Result<String, AppError>)
    ensures
        r == (match storage.cache.mac {
            Some(mac) => Ok::<String, AppError>(mac),
            None => Err::<String, AppError>(AppError::HostNotFound),
        }),
{
    match &storage.cache.mac {
        Some(mac) => Ok(mac.clone()),
        None => Err(AppError::HostNotFound),
    }
}

/// The keys and certificates that pair the server with a host, or that
/// there are none.
pub fn pair_info(storage: &StorageHost) -> (r: Result<StorageHostPairInfo, AppError>)
    ensures
        match storage.pair_info {
            Some(info) => r matches Ok(copy) && copy.client_private_key == info.client_private_key
                && copy.client_certificate == info.client_certificate && copy.server_certificate
                == info.server_certificate,
            None => r == Err::<StorageHostPairInfo, AppError>(AppError::HostNotPaired),
        },
{
    match &storage.pair_info {
        Some(info) => Ok(
            StorageHostPairInfo {
                client_private_key: info.client_private_key.clone(),
                client_certificate: info.client_certificate.clone(),
                server_certificate: info.server_certificate.clone(),
            },
        ),
        None => Err(AppError::HostNotPaired),
    }
}

/// What a request to change a host asks for its owner: `Ok(None)` to leave
/// the owner, `Ok(Some(owner))` to make `owner` the owner, or nobody where
/// `owner` is `None`. Only an admin may change the owner.
pub fn owner_change(request: &PatchHostRequest, role: Role) -> (r: Result<
    Option<Option<UserId>>,
    AppError,
>)
    ensures
        r == (if !request.change_owner {
            Ok::<Option<Option<UserId>>, AppError>(None)
        } else if role is Admin {
            Ok::<Option<Option<UserId>>, AppError>(
                Some(
                    match request.owner {
                        Some(owner) => Some(UserId(owner)),
                        None => None,
                    },
                ),
            )
        } else {
            Err::<Option<Option<UserId>>, AppError>(AppError::Forbidden)
        }),
{
    if !request.change_owner {
        return Ok(None);
    }
    match role {
        Role::Admin => Ok(
            Some(
                match request.owner {
                    Some(owner) => Some(UserId(owner)),
                    None => None,
                },
            ),
        ),
        Role::User => Err(AppError::Forbidden),
    }
}

} // verus!
