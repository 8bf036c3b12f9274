//! Account identity and verification: permissions, tags, captcha-based
//! verification sessions and the versioned record layout of accounts.

pub mod account;
pub mod error;
pub mod mail;
pub mod permission;
pub mod tag;
pub mod unverified;
pub mod verify;

pub use account::{Account, AccountRecord};
pub use error::Error;
pub use permission::Permission;
pub use tag::{Academy, House, Tag, TagEntry};
pub use unverified::{Unverified, UnverifiedRecord};
pub use verify::{Captcha, Ext, VerifyCx, VerifyVariant};
