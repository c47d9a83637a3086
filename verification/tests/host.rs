use moonlight_web::api_bindings;
use moonlight_web::host::{find_app, App, AppId, HostId};

fn app(id: u32, title: &str) -> App {
    App { id: AppId(id), title: title.to_string(), is_hdr_supported: id % 2 == 0 }
}

#[test]
fn first_app_with_the_number_is_found() {
    let apps = vec![app(5, "Desktop"), app(42, "Steam"), app(42, "Twice"), app(7, "Game")];
    assert_eq!(find_app(&apps, AppId(42)), Some(1));
    assert_eq!(find_app(&apps, AppId(5)), Some(0));
    assert_eq!(find_app(&apps, AppId(7)), Some(3));
    assert_eq!(find_app(&apps, AppId(8)), None);
    assert_eq!(find_app(&Vec::new(), AppId(8)), None);
}

#[test]
fn app_as_the_browsers_see_it() {
    assert_eq!(
        api_bindings::App::from(app(42, "Steam")),
        api_bindings::App { app_id: 42, title: "Steam".to_string(), is_hdr_supported: true }
    );
    assert_eq!(HostId(3), HostId(3));
}

use moonlight_web::api_bindings::{
    DetailedHost, HostOwner, HostState, PairStatus, PatchHostRequest, UndetailedHost,
};
use moonlight_web::error::AppError;
use moonlight_web::host::{
    build_hostport, can_delete, can_use, check_action, detailed_host, is_paired, owner_change,
    owner_info, pair_info, undetailed_host, undetailed_host_cached, wake_address, HostAction,
    HostInfo, Role, StorageHost, StorageHostCache, StorageHostPairInfo, UserId,
};

fn stored(owner: Option<u32>, paired: bool) -> StorageHost {
    StorageHost {
        id: HostId(3),
        owner: owner.map(UserId),
        address: "10.0.0.2".to_string(),
        http_port: 47989,
        pair_info: paired.then(|| StorageHostPairInfo {
            client_private_key: "k".to_string(),
            client_certificate: "c".to_string(),
            server_certificate: "s".to_string(),
        }),
        cache: StorageHostCache {
            name: "den".to_string(),
            mac: Some("aa:bb:cc:dd:ee:ff".to_string()),
        },
    }
}

fn online() -> HostInfo {
    HostInfo {
        host_name: "DEN-PC".to_string(),
        pair_status: PairStatus::Paired,
        server_state: Some(HostState::Busy),
        https_port: 47984,
        external_port: 47990,
        app_version: "7.1.431.0".to_string(),
        gfe_version: "3.23.0.74".to_string(),
        unique_id: "0123".to_string(),
        mac: Some("11:22:33:44:55:66".to_string()),
        local_ip: "192.168.1.20".to_string(),
        current_game: 9,
        max_luma_pixels_hevc: 1_000,
        server_codec_mode_support: 3,
    }
}

#[test]
fn who_may_use_a_host() {
    assert_eq!(can_use(None, UserId(1), Role::User), Ok(()));
    assert_eq!(can_use(Some(UserId(1)), UserId(1), Role::User), Ok(()));
    assert_eq!(can_use(Some(UserId(2)), UserId(1), Role::User), Err(AppError::Forbidden));
    assert_eq!(can_use(Some(UserId(2)), UserId(1), Role::Admin), Ok(()));
    assert_eq!(can_delete(None, UserId(1), Role::User), Err(AppError::Forbidden));
    assert_eq!(can_delete(Some(UserId(1)), UserId(1), Role::User), Ok(()));
    assert_eq!(can_delete(Some(UserId(2)), UserId(1), Role::User), Err(AppError::Forbidden));
    assert_eq!(can_delete(None, UserId(1), Role::Admin), Ok(()));
    assert_eq!(owner_info(None, UserId(1)), HostOwner::Global);
    assert_eq!(owner_info(Some(UserId(1)), UserId(1)), HostOwner::ThisUser);
}

#[test]
fn host_in_short() {
    assert_eq!(
        undetailed_host_cached(&stored(None, false), UserId(1)),
        UndetailedHost {
            host_id: 3,
            owner: HostOwner::Global,
            name: "den".to_string(),
            paired: PairStatus::NotPaired,
            server_state: None,
        }
    );
    assert_eq!(
        undetailed_host(HostId(3), &stored(Some(1), true), None, UserId(1)),
        UndetailedHost {
            host_id: 3,
            owner: HostOwner::ThisUser,
            name: "den".to_string(),
            paired: PairStatus::Paired,
            server_state: None,
        }
    );
    assert_eq!(
        undetailed_host(HostId(3), &stored(Some(1), false), Some(&online()), UserId(1)),
        UndetailedHost {
            host_id: 3,
            owner: HostOwner::ThisUser,
            name: "DEN-PC".to_string(),
            paired: PairStatus::Paired,
            server_state: Some(HostState::Busy),
        }
    );
}

#[test]
fn host_in_full() {
    assert_eq!(
        detailed_host(HostId(3), &stored(None, true), Some(&online()), UserId(1)),
        DetailedHost {
            host_id: 3,
            owner: HostOwner::Global,
            name: "DEN-PC".to_string(),
            paired: PairStatus::Paired,
            server_state: Some(HostState::Busy),
            address: "10.0.0.2".to_string(),
            http_port: 47989,
            https_port: 47984,
            external_port: 47990,
            version: "7.1.431.0".to_string(),
            gfe_version: "3.23.0.74".to_string(),
            unique_id: "0123".to_string(),
            mac: Some("11:22:33:44:55:66".to_string()),
            local_ip: "192.168.1.20".to_string(),
            current_game: 9,
            max_luma_pixels_hevc: 1_000,
            server_codec_mode_support: 3,
        }
    );
    assert_eq!(
        detailed_host(HostId(3), &stored(Some(1), false), None, UserId(1)),
        DetailedHost {
            host_id: 3,
            owner: HostOwner::ThisUser,
            name: "den".to_string(),
            paired: PairStatus::NotPaired,
            server_state: None,
            address: "10.0.0.2".to_string(),
            http_port: 47989,
            https_port: 0,
            external_port: 0,
            version: "Offline".to_string(),
            gfe_version: "Offline".to_string(),
            unique_id: "Offline".to_string(),
            mac: Some("aa:bb:cc:dd:ee:ff".to_string()),
            local_ip: "Offline".to_string(),
            current_game: 0,
            max_luma_pixels_hevc: 0,
            server_codec_mode_support: 0,
        }
    );
}

#[test]
fn pairing_and_waking() {
    assert_eq!(is_paired(Some(&online())), PairStatus::Paired);
    assert_eq!(is_paired(None), PairStatus::NotPaired);
    assert_eq!(wake_address(&stored(None, false)), Ok("aa:bb:cc:dd:ee:ff".to_string()));
    let mut unknown = stored(None, false);
    unknown.cache.mac = None;
    assert_eq!(wake_address(&unknown), Err(AppError::HostNotFound));
    assert_eq!(pair_info(&stored(None, false)), Err(AppError::HostNotPaired));
    assert_eq!(
        pair_info(&stored(None, true)),
        Ok(StorageHostPairInfo {
            client_private_key: "k".to_string(),
            client_certificate: "c".to_string(),
            server_certificate: "s".to_string(),
        })
    );
}

#[test]
fn host_and_port() {
    assert_eq!(build_hostport("10.0.0.2", 47984), "10.0.0.2:47984");
    assert_eq!(build_hostport("host", 0), "host:0");
    assert_eq!(build_hostport("", 65535), ":65535");
}

#[test]
fn what_an_action_needs() {
    assert_eq!(check_action(HostAction::Pair, None, false), Err(AppError::HostNotFound));
    assert_eq!(check_action(HostAction::Pair, Some(PairStatus::Paired), true), Err(AppError::HostPaired));
    assert_eq!(check_action(HostAction::Pair, Some(PairStatus::NotPaired), false), Ok(()));
    for action in [HostAction::ListApps, HostAction::AppImage] {
        assert_eq!(check_action(action, None, true), Err(AppError::HostOffline));
        assert_eq!(
            check_action(action, Some(PairStatus::NotPaired), false),
            Err(AppError::HostNotPaired)
        );
        assert_eq!(check_action(action, Some(PairStatus::Paired), true), Ok(()));
    }
    assert_eq!(check_action(HostAction::CancelApp, None, true), Err(AppError::HostOffline));
    assert_eq!(
        check_action(HostAction::CancelApp, Some(PairStatus::Paired), false),
        Err(AppError::Forbidden)
    );
    assert_eq!(check_action(HostAction::CancelApp, Some(PairStatus::Paired), true), Ok(()));
}

#[test]
fn only_an_admin_changes_the_owner() {
    let request = |change_owner, owner| PatchHostRequest { host_id: 3, change_owner, owner };
    assert_eq!(owner_change(&request(false, Some(4)), Role::User), Ok(None));
    assert_eq!(owner_change(&request(false, None), Role::Admin), Ok(None));
    assert_eq!(owner_change(&request(true, Some(4)), Role::Admin), Ok(Some(Some(UserId(4)))));
    assert_eq!(owner_change(&request(true, None), Role::Admin), Ok(Some(None)));
    assert_eq!(owner_change(&request(true, Some(4)), Role::User), Err(AppError::Forbidden));
}
