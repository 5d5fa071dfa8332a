//! The application state: one of each service, built once at process start
//! from one configuration and shared from there.

use vstd::prelude::*;

use crate::auth_service::AuthService;
use crate::config::Config;
use crate::device_service::DeviceService;
use crate::user_service::UserService;
use crate::websocket_service::WebSocketService;

verus! {

/// Every service of the core, constructed from one configuration.
pub struct AppState {
    pub config: Config,
    pub user_service: UserService,
    pub auth_service: AuthService,
    pub device_service: DeviceService,
    pub ws_service: WebSocketService,
}

impl AppState {
    /// Build every service from the given configuration: an empty user
    /// registry, a token service with an empty revocation set, the device
    /// facade and a fresh real-time channel.
    pub fn new(config: Config) -> (r: Self)
        requires
            0 < config.websocket.channel_capacity <= usize::MAX / 2,
        ensures
            r.config == config,
            r.user_service.wf(),
            r.user_service.users_spec() == Seq::<crate::models::User>::empty(),
            r.user_service.min_password_spec() == config.user.min_password_length,
            r.auth_service.secret_spec() == config.auth.jwt_secret@,
            r.auth_service.access_expiry_spec() == config.auth.access_token_expiry,
            r.auth_service.refresh_expiry_spec() == config.auth.refresh_token_expiry,
            r.auth_service.revoked_spec() == Set::<Seq<char>>::empty(),
    {
        let user_service = UserService::new(&config);
        let auth_service = AuthService::new(&config);
        let device_service = DeviceService::new(config.clone());
        let ws_service = WebSocketService::new(&config);
        AppState { config, user_service, auth_service, device_service, ws_service }
    }
}

} // verus!
