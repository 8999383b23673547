//! Disposable mail test accounts: tag validation, the mapping of a provisioning
//! reply onto an account record, and the cache-or-provision decisions.
//!
//! Reading and writing the cache files and talking to the provider are left to
//! the caller, which feeds the outcomes back into a [`Lookup`].

use vstd::prelude::*;

pub mod error;
pub mod lookup;
pub mod provision;
pub mod tag;
pub mod types;

pub use crate::error::Error;
pub use crate::lookup::{test_account_info, test_account_info_with_tag, Event, Lookup};
pub use crate::provision::{unexpected_response_message, EtherealAccountResponse};
pub use crate::tag::{check_tag, create_file_name, tag_is_valid, valid_tag_bch};
pub use crate::types::{AccountAndServiceInfo, AccountInfo, ImapInfo, Pop3Info, SmtpInfo, WebInfo};

verus! {

/// Name of the application directory under the configuration base directory.
pub const APP_NAME: &'static str = "mail-test-account";

/// Version of this library, sent to the provider along with [`APP_NAME`].
pub const VERSION: &'static str = "0.1.0";

/// Tag used by [`test_account_info`].
pub const DEFAULT_TAG: &'static str = "test_account";

/// Endpoint that hands out new disposable accounts.
pub const NEW_USER_ENDPOINT: &'static str = "https://api.nodemailer.com/user";

} // verus!
