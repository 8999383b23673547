use vstd::prelude::*;

verus! {

/// Username and password of a test account.
#[derive(Debug, Clone, PartialEq, Eq)]
pub struct AccountInfo {
    /// Username (`user` in the provider's replies).
    pub username: String,
    /// Password (`pass` in the provider's replies); a plain string, as the
    /// accounts are throwaway.
    pub password: String,
}

/// Connection info for the account's SMTP submission server.
#[derive(Debug, Clone, PartialEq, Eq)]
pub struct SmtpInfo {
    /// Host name, e.g. `smtp.ethereal.email`.
    pub host: String,
    /// Port to connect to.
    pub port: u16,
    /// `true`: TLS from the first byte; `false`: plain text upgraded by STARTTLS.
    pub use_tls_directly: bool,
}

/// Connection info for the IMAP server that holds the mails sent through the account.
#[derive(Debug, Clone, PartialEq, Eq)]
pub struct ImapInfo {
    /// Host name.
    pub host: String,
    /// Port to connect to.
    pub port: u16,
    /// `true`: TLS from the first byte; `false`: plain text upgraded by STARTTLS.
    pub use_tls_directly: bool,
}

/// Connection info for the POP3 server that holds the mails sent through the account.
#[derive(Debug, Clone, PartialEq, Eq)]
pub struct Pop3Info {
    /// Host name.
    pub host: String,
    /// Port to connect to.
    pub port: u16,
    /// `true`: TLS from the first byte; `false`: plain text upgraded by STARTTLS.
    pub use_tls_directly: bool,
}

/// A website that shows the mails sent through the account.
#[derive(Debug, Clone, PartialEq, Eq)]
pub struct WebInfo {
    /// URI of the website.
    pub uri: String,
}

/// Everything needed to use a test account: credentials and the services the
/// provider announced (each one may be absent).
#[derive(Debug, Clone, PartialEq, Eq)]
pub struct AccountAndServiceInfo {
    pub account: AccountInfo,
    pub smtp: Option<SmtpInfo>,
    pub imap: Option<ImapInfo>,
    pub pop3: Option<Pop3Info>,
    pub web: Option<WebInfo>,
}

} // verus!
