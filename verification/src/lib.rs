//! Verified core of an authentication and authorization backend: password
//! hashing and verification, issuance and checking of time-bounded identity
//! tokens, role and permission evaluation for privileged routes, and an audit
//! trail that captures and redacts request/response bodies.
//!
//! All I/O (HTTP transport, persistence, background tasks) lives outside this
//! crate; the functions here are pure decision and data-shaping steps with
//! contracts, plus thin trusted wrappers around the cryptographic and JSON
//! libraries they rely on.
mod audit;
mod admin_service;
mod admin_types;
mod auth_service;
mod auth_types;
mod authz;
mod credential;
mod directory;
mod errors;
mod jsonval;
mod ids;
mod monitor;
mod permissions;
mod text;
mod timestamp;
mod user_service;
mod token;
mod user;

pub use audit::build_audit_entry;
pub use audit::capture_body;
pub use audit::cap_body;
pub use audit::capped_bytes;
pub use audit::captured_text;
pub use audit::lemma_redact_keys_idempotent;
pub use audit::lemma_redact_keys_pointwise;
pub use audit::lemma_sanitize_idempotent_on_objects;
pub use audit::lossy_text;
pub use audit::lossy_text_of;
pub use audit::redact_keys;
pub use audit::redact_plain;
pub use audit::sanitize_json_content;
pub use audit::sanitized_text;
pub use audit::sensitive_fields;
pub use audit::sensitive_list;
pub use audit::status_error_text;
pub use audit::AuditLogEntry;
pub use audit::LoggingManager;
pub use audit::MAX_BODY_LOG_BYTES;
pub use jsonval::json_object_of;
pub use jsonval::object_string;
pub use jsonval::obj_entries;
pub use jsonval::JsonObj;
pub use monitor::bytes_text;
pub use monitor::byte_tenths;
pub use monitor::byte_unit_div;
pub use monitor::byte_unit_name;
pub use monitor::uptime_text;
pub use monitor::SystemMonitorService;
pub use permissions::catalog;
pub use permissions::lemma_grants_fail_closed_and_wildcard;
pub use permissions::lemma_permission_id_round_trip;
pub use permissions::permission_category;
pub use permissions::permission_description;
pub use permissions::permission_from_id;
pub use permissions::permission_id;
pub use permissions::set_grants;
pub use permissions::AvailablePermissionsResponse;
pub use permissions::CheckPermissionRequest;
pub use permissions::CheckPermissionResponse;
pub use permissions::Permission;
pub use permissions::PermissionInfo;
pub use permissions::PermissionService;
pub use permissions::UserPermissionsResponse;

pub use directory::count_winners;
pub use directory::keeps;
pub use directory::lemma_taken_email_no_winners;
pub use directory::unique_ids;
pub use directory::unique_role_ids;
pub use directory::has_email;
pub use directory::has_user_id;
pub use directory::lemma_same_email_registrations_one_winner;
pub use directory::registration_result;
pub use directory::unique_emails;
pub use directory::with_last_login;
pub use directory::Directory;
pub use directory::Role;
pub use ids::fresh_uuid;
pub use ids::parse_uuid_text;
pub use ids::uuid_text;
pub use ids::uuid_text_of;
pub use ids::uuid_value_of;
pub use timestamp::format_timestamp;
pub use timestamp::parse_rfc3339;
pub use timestamp::rfc3339_value_of;
pub use timestamp::rfc3339_of;
pub use timestamp::MAX_RFC3339_SECONDS;
pub use user_service::registration_valid;
pub use user_service::UserService;
pub use user::email_shape_ok;
pub use user::validate_email;
pub use user::validate_login_input;
pub use user::validate_password;
pub use user::validate_registration_input;
pub use user::User;
pub use user::UserLogin;
pub use user::UserRegistration;
pub use user::MIN_PASSWORD_CHARS;
pub use token::AuthError;
pub use token::Claims;
pub use token::TokenService;
pub use token::claims_of;
pub use token::lemma_expired_token_rejected;
pub use token::lemma_fresh_token_accepted;
pub use token::verify_contract;
pub use token::TOKEN_TTL_SECONDS;

pub use admin_service::is_admin_user;
pub use admin_service::log_matches;
pub use admin_service::log_pred;
pub use admin_service::resolve_log_filters;
pub use admin_service::user_is_admin;
pub use admin_service::user_matches;
pub use admin_service::user_pred;
pub use admin_service::AdminService;
pub use admin_service::LogFilters;
pub use admin_types::audit_response_matches;
pub use admin_types::clone_opt_string;
pub use admin_types::default_limit;
pub use admin_types::default_page;
pub use admin_types::effective_limit;
pub use admin_types::effective_page;
pub use admin_types::is_system_table;
pub use admin_types::ms_as_i32;
pub use admin_types::system_table_name;
pub use admin_types::page_bounds;
pub use admin_types::page_end;
pub use admin_types::page_slice;
pub use admin_types::page_start;
pub use admin_types::pages_of;
pub use admin_types::total_pages;
pub use admin_types::user_response_matches;
pub use admin_types::AdminLoginRequest;
pub use admin_types::AdminLoginResponse;
pub use admin_types::AuditLogResponse;
pub use admin_types::CreateUserRequest;
pub use admin_types::DatabaseTableResponse;
pub use admin_types::LogsQueryParams;
pub use admin_types::PaginatedResponse;
pub use admin_types::PaginationMeta;
pub use admin_types::TableRecordsQueryParams;
pub use admin_types::UpdateUserRequest;
pub use admin_types::UserResponse;
pub use admin_types::UsersQueryParams;
pub use auth_service::AuthService;
pub use auth_service::AuthToken;
pub use auth_types::profile_response;
pub use auth_types::LoginRequest;
pub use auth_types::LoginResponse;
pub use auth_types::ProfileResponse;
pub use auth_types::RegisterRequest;
pub use auth_types::RegisterResponse;
pub use authz::auth_error_text;
pub use authz::bearer_token_of;
pub use authz::identity_gate;
pub use authz::identity_gate_contract;
pub use authz::lemma_missing_header_always_unauthorized;
pub use authz::lemma_privilege_needs_permission;
pub use authz::parse_bearer;
pub use authz::privilege_gate;
pub use authz::privilege_gate_contract;
pub use authz::resolve_admin_identity;
pub use authz::AdminUser;
pub use authz::AuthUser;
pub use credential::hash_password;
pub use credential::lemma_hash_verify_round_trip;
pub use credential::parseable_hash;
pub use credential::password_matches;
pub use credential::verify_password_hash;

pub use errors::AppError;
pub use errors::ErrorResponse;
pub use errors::MessageResponse;
pub use errors::STATUS_BAD_REQUEST;
pub use errors::STATUS_CONFLICT;
pub use errors::STATUS_FORBIDDEN;
pub use errors::STATUS_INTERNAL;
pub use errors::STATUS_NOT_FOUND;
pub use errors::STATUS_UNAUTHORIZED;
