//! The identity store: its mathematical model, the interfaces the
//! services work against, and an implementation that keeps everything in
//! memory. Beside it, the search for categories and for tags whose names
//! are alike.

pub mod category;
pub mod login_attempt;
pub mod memory;
pub mod one_time_token;
pub mod permission;
pub mod role;
pub mod state;
pub mod table;
pub mod tag;
pub mod user;

pub use login_attempt::LoginAttemptRepository;
pub use memory::MemoryStore;
pub use one_time_token::OneTimeTokenRepository;
pub use permission::PermissionRepository;
pub use role::RoleRepository;
pub use state::{IdentityState, IdentityStore, LoginAttempt, StoreError, TokenType};
pub use user::UserRepository;
