//! The services: the flows of authentication over a store, and the rules
//! of the user, administration and content endpoints.

pub mod admin;
pub mod auth;
pub mod category;
pub mod email;
pub mod guarantees;
pub mod jwt;
pub mod post;
pub mod tag;
pub mod token;
pub mod user;

pub use admin::AdminService;
pub use auth::AuthService;
pub use category::CategoryService;
pub use email::EmailService;
pub use post::PostService;
pub use tag::TagService;
pub use user::UserService;
