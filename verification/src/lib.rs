//! In-memory clipboard sharing core: session tokens with revocation, a
//! bounded-size clipboard store with time-based eviction, and a lossy
//! broadcast fanout of newly stored entries.

mod auth_service;
mod clipboard_service;
mod clock;
mod config;
mod device_service;
mod dto;
mod errors;
mod fanout;
mod ids;
mod jwt;
mod models;
mod password;
mod state;
mod user_service;
mod websocket_service;

pub use auth_service::AuthService;
pub use auth_service::Claims;
pub use auth_service::TokenType;
pub use auth_service::expiry_at;
pub use auth_service::kind_of;
pub use auth_service::lemma_expired_token_fails;
pub use auth_service::lemma_issued_token_verifies;
pub use auth_service::lemma_refresh_rejects_access_token;
pub use auth_service::lemma_revoked_token_fails;
pub use auth_service::refresh_rel;
pub use auth_service::verify_spec;

pub use clipboard_service::ClipboardService;
pub use clipboard_service::device_entries;
pub use clipboard_service::entry_of_id;
pub use clipboard_service::expired;
pub use clipboard_service::has_id;
pub use clipboard_service::has_user_entry;
pub use clipboard_service::ids_unique;
pub use clipboard_service::index_of_id;
pub use clipboard_service::lemma_evicted_absent_from_listings;
pub use clipboard_service::lemma_evicted_unreachable;
pub use clipboard_service::lemma_save_then_get;
pub use clipboard_service::lemma_user_entries_members;
pub use clipboard_service::live_entries;
pub use clipboard_service::newest_first;
pub use clipboard_service::stamped;
pub use clipboard_service::upsert;
pub use clipboard_service::user_entries;
pub use clipboard_service::without_user;

pub use config::AppConfig;
pub use config::AuthConfig;
pub use config::ClipboardConfig;
pub use config::Config;
pub use config::ServerConfig;
pub use config::UserConfig;
pub use config::WebSocketConfig;
pub use config::app_defaults;
pub use config::auth_defaults;
pub use config::clipboard_defaults;
pub use config::config_defaults;
pub use config::default_access_token_expiry;
pub use config::default_broadcast_capacity;
pub use config::default_channel_capacity;
pub use config::default_history_size;
pub use config::default_host;
pub use config::default_max_size;
pub use config::default_max_username_length;
pub use config::default_memory_size;
pub use config::default_min_password_length;
pub use config::default_password_rounds;
pub use config::default_port;
pub use config::default_refresh_token_expiry;
pub use config::default_retention_period;
pub use config::server_defaults;
pub use config::user_defaults;
pub use config::websocket_defaults;

pub use device_service::DeviceService;

pub use dto::CreateUserRequest;
pub use dto::LoginRequest;
pub use dto::PaginatedResponse;
pub use dto::PaginationMeta;
pub use dto::RefreshRequest;
pub use dto::RegisterDeviceRequest;
pub use dto::TokenResponse;
pub use dto::UpdateDeviceRequest;
pub use dto::UpdatePasswordRequest;
pub use dto::UpdateUserRequest;

pub use errors::AppError;
pub use errors::AppResult;
pub use errors::ErrorResponse;
pub use errors::message_spec;
pub use errors::status_code_spec;

pub use jwt::decode_of;

pub use models::ClipboardData;
pub use models::Device;
pub use models::User;
pub use models::UserResponse;
pub use models::byte_len;

pub use password::argon2_matches;
pub use password::argon2_wf;

pub use state::AppState;

pub use user_service::UserService;
pub use user_service::bytes_le;
pub use user_service::has_username;
pub use user_service::index_of_username;
pub use user_service::lemma_bytes_le_total;
pub use user_service::lemma_bytes_le_trans;
pub use user_service::names_sorted;
pub use user_service::page_slice;
pub use user_service::response_of;
pub use user_service::responses_of;
pub use user_service::str_le;
pub use user_service::user_named;
pub use user_service::usernames_unique;

pub use websocket_service::WebSocketService;
