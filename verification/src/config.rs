//! Configuration consumed by the core: entry-size and retention limits for the
//! clipboard store, queue capacities for the fanout channels, token lifetimes
//! and signing secret, and password rules.
//!
//! Reading the environment is the caller's business; the core only sees the
//! resulting plain values. `Default` yields the documented fallback values.

use vstd::prelude::*;

verus! {

/// Limits of the clipboard store: how old an entry may grow before eviction,
/// how large one entry may be, and how deep the fanout queue is.
#[derive(Debug, Clone, Copy)]
pub struct ClipboardConfig {
    /// Maximum age of an entry in seconds before it is eligible for eviction.
    pub retention_period: u64,
    /// Maximum byte length of one entry's content.
    pub max_size: usize,
    /// Capacity of the store's broadcast queue.
    pub broadcast_capacity: usize,
}

/// Capacity of the standalone real-time channel.
#[derive(Debug, Clone, Copy)]
pub struct WebSocketConfig {
    pub channel_capacity: usize,
}

/// Token signing secret and the lifetimes of the two token kinds.
#[derive(Debug)]
pub struct AuthConfig {
    pub jwt_secret: String,
    /// Lifetime of an access token in seconds.
    pub access_token_expiry: u64,
    /// Lifetime of a refresh token in seconds.
    pub refresh_token_expiry: u64,
}

/// Listen address of the surrounding server.
#[derive(Debug)]
pub struct ServerConfig {
    pub host: String,
    pub port: u16,
}

/// Password policy and hashing cost parameters.
#[derive(Debug, Clone, Copy)]
pub struct UserConfig {
    pub min_password_length: usize,
    pub max_username_length: usize,
    pub password_rounds: u32,
    pub memory_size: u32,
}

/// Miscellaneous application-level sizes.
#[derive(Debug, Clone, Copy)]
pub struct AppConfig {
    pub history_size: usize,
    pub broadcast_capacity: usize,
}

/// The whole configuration, one field per concern.
#[derive(Debug)]
pub struct Config {
    pub server: ServerConfig,
    pub app: AppConfig,
    pub websocket: WebSocketConfig,
    pub auth: AuthConfig,
    pub user: UserConfig,
    pub clipboard: ClipboardConfig,
}

pub fn default_retention_period() -> (r: u64)
    ensures
        r == 86400,
{
    24 * 60 * 60
}

pub fn default_max_size() -> (r: usize)
    ensures
        r == 1048576,
{
    1024 * 1024
}

pub fn default_channel_capacity() -> (r: usize)
    ensures
        r == 100,
{
    100
}

pub fn default_access_token_expiry() -> (r: u64)
    ensures
        r == 3600,
{
    3600
}

pub fn default_refresh_token_expiry() -> (r: u64)
    ensures
        r == 604800,
{
    604800
}

pub fn default_host() -> (r: String)
    ensures
        r@ == "127.0.0.1"@,
{
    "127.0.0.1".to_owned()
}

pub fn default_port() -> (r: u16)
    ensures
        r == 3000,
{
    3000
}

pub fn default_min_password_length() -> (r: usize)
    ensures
        r == 8,
{
    8
}

pub fn default_max_username_length() -> (r: usize)
    ensures
        r == 32,
{
    32
}

pub fn default_password_rounds() -> (r: u32)
    ensures
        r == 3,
{
    3
}

pub fn default_memory_size() -> (r: u32)
    ensures
        r == 65536,
{
    65536
}

pub fn default_history_size() -> (r: usize)
    ensures
        r == 10,
{
    10
}

pub fn default_broadcast_capacity() -> (r: usize)
    ensures
        r == 100,
{
    100
}

/// The fallback clipboard limits.
pub open spec fn clipboard_defaults(c: ClipboardConfig) -> bool {
    &&& c.retention_period == 86400
    &&& c.max_size == 1048576
    &&& c.broadcast_capacity == 100
}

/// The fallback channel capacity.
pub open spec fn websocket_defaults(c: WebSocketConfig) -> bool {
    c.channel_capacity == 100
}

/// The fallback token secret and lifetimes.
pub open spec fn auth_defaults(c: AuthConfig) -> bool {
    &&& c.jwt_secret@ == "your-secret-key"@
    &&& c.access_token_expiry == 3600
    &&& c.refresh_token_expiry == 604800
}

/// The fallback listen address.
pub open spec fn server_defaults(c: ServerConfig) -> bool {
    &&& c.host@ == "127.0.0.1"@
    &&& c.port == 3000
}

/// The fallback password policy.
pub open spec fn user_defaults(c: UserConfig) -> bool {
    &&& c.min_password_length == 8
    &&& c.max_username_length == 32
    &&& c.password_rounds == 3
    &&& c.memory_size == 65536
}

/// The fallback application sizes.
pub open spec fn app_defaults(c: AppConfig) -> bool {
    &&& c.history_size == 10
    &&& c.broadcast_capacity == 100
}

/// Every field of the configuration holds its fallback value.
pub open spec fn config_defaults(c: Config) -> bool {
    &&& server_defaults(c.server)
    &&& app_defaults(c.app)
    &&& websocket_defaults(c.websocket)
    &&& auth_defaults(c.auth)
    &&& user_defaults(c.user)
    &&& clipboard_defaults(c.clipboard)
}

impl Default for ClipboardConfig {
    fn default() -> (r: Self)
        ensures
            clipboard_defaults(r),
    {
        ClipboardConfig {
            retention_period: default_retention_period(),
            max_size: default_max_size(),
            broadcast_capacity: default_broadcast_capacity(),
        }
    }
}

impl Default for WebSocketConfig {
    fn default() -> (r: Self)
        ensures
            websocket_defaults(r),
    {
        WebSocketConfig { channel_capacity: default_channel_capacity() }
    }
}

impl Default for AuthConfig {
    fn default() -> (r: Self)
        ensures
            auth_defaults(r),
    {
        AuthConfig {
            jwt_secret: "your-secret-key".to_owned(),
            access_token_expiry: default_access_token_expiry(),
            refresh_token_expiry: default_refresh_token_expiry(),
        }
    }
}

impl Default for ServerConfig {
    fn default() -> (r: Self)
        ensures
            server_defaults(r),
    {
        ServerConfig { host: default_host(), port: default_port() }
    }
}

impl Default for UserConfig {
    fn default() -> (r: Self)
        ensures
            user_defaults(r),
    {
        UserConfig {
            min_password_length: default_min_password_length(),
            max_username_length: default_max_username_length(),
            password_rounds: default_password_rounds(),
            memory_size: default_memory_size(),
        }
    }
}

impl Default for AppConfig {
    fn default() -> (r: Self)
        ensures
            app_defaults(r),
    {
        AppConfig {
            history_size: default_history_size(),
            broadcast_capacity: default_broadcast_capacity(),
        }
    }
}

impl Default for Config {
    fn default() -> (r: Self)
        ensures
            config_defaults(r),
    {
        Config {
            server: ServerConfig::default(),
            app: AppConfig::default(),
            websocket: WebSocketConfig::default(),
            auth: AuthConfig::default(),
            user: UserConfig::default(),
            clipboard: ClipboardConfig::default(),
        }
    }
}

impl Clone for AuthConfig {
    fn clone(&self) -> (r: Self)
        ensures
            r == *self,
    {
        AuthConfig {
            jwt_secret: self.jwt_secret.clone(),
            access_token_expiry: self.access_token_expiry,
            refresh_token_expiry: self.refresh_token_expiry,
        }
    }
}

impl Clone for ServerConfig {
    fn clone(&self) -> (r: Self)
        ensures
            r == *self,
    {
        ServerConfig { host: self.host.clone(), port: self.port }
    }
}

impl Clone for Config {
    fn clone(&self) -> (r: Self)
        ensures
            r == *self,
    {
        Config {
            server: self.server.clone(),
            app: self.app,
            websocket: self.websocket,
            auth: self.auth.clone(),
            user: self.user,
            clipboard: self.clipboard,
        }
    }
}

} // verus!
