use vstd::prelude::*;
use vstd::string::*;

use crate::error::Error;
use crate::types::{AccountAndServiceInfo, AccountInfo, ImapInfo, Pop3Info, SmtpInfo, WebInfo};

verus! {

#[verifier::external_type_specification]
#[verifier::external_body]
pub struct ExJsonValue(serde_json::Value);

/// The compact JSON text of a value.
pub uninterp spec fn json_text_of(v: serde_json::Value) -> Seq<char>;

/// Relies on serde_json's `Display` for `Value`: the value written as compact
/// JSON text, which depends on the value alone.
#[verifier::external_body]
fn json_text(v: &serde_json::Value) -> (r: String)
    ensures
        r@ == json_text_of(*v),
{
    v.to_string()
}

/// The provider's reply to a request for a new account, as decoded from JSON.
#[derive(Debug, PartialEq)]
pub struct EtherealAccountResponse {
    /// `success` when an account was created.
    pub status: String,
    /// What the provider reported as the error, if anything.
    pub error: Option<serde_json::Value>,
    pub smtp: Option<SmtpInfo>,
    pub imap: Option<ImapInfo>,
    pub pop3: Option<Pop3Info>,
    pub web: Option<WebInfo>,
    /// Username of the new account.
    pub user: Option<String>,
    /// Password of the new account.
    pub pass: Option<String>,
}

/// The message for a reply whose status is not `success`, given the reported
/// error as JSON text.
pub open spec fn unexpected_response_text(error_json: Seq<char>) -> Seq<char> {
    "unexpected response, error="@ + error_json
}

/// The message for a reply whose status is not `success`, given the reported
/// error as JSON text (`null` where it reported none).
pub fn unexpected_response_message(error_json: &str) -> (r: String)
    ensures
        r@ == unexpected_response_text(error_json@),
{
    let mut msg = String::from_str("unexpected response, error=");
    msg.append(error_json);
    msg
}

/// The record that a successful reply with both credentials maps to.
pub open spec fn response_account(resp: EtherealAccountResponse) -> AccountAndServiceInfo {
    AccountAndServiceInfo {
        account: AccountInfo { username: resp.user->0, password: resp.pass->0 },
        smtp: resp.smtp,
        imap: resp.imap,
        pop3: resp.pop3,
        web: resp.web,
    }
}

impl EtherealAccountResponse {
    /// Maps the reply onto an account record.
    ///
    /// A status other than `success` gives [`Error::UnexpectedResponse`] with the
    /// reported error as JSON text; a successful reply without username or
    /// password gives [`Error::MissingAccountInfo`]; otherwise the credentials
    /// and the service blocks are carried over unchanged.
    pub fn into_account_info(self) -> (r: Result<AccountAndServiceInfo, Error>)
        ensures
            self.status@ != "success"@ && self.error is Some ==> (r matches Err(
                Error::UnexpectedResponse(m),
            ) && m@ == unexpected_response_text(json_text_of(self.error->0))),
            self.status@ != "success"@ && self.error is None ==> (r matches Err(
                Error::UnexpectedResponse(m),
            ) && m@ == unexpected_response_text("null"@)),
            self.status@ == "success"@ && (self.user is None || self.pass is None) ==> r == Err::<
                AccountAndServiceInfo,
                Error,
            >(Error::MissingAccountInfo),
            self.status@ == "success"@ && self.user is Some && self.pass is Some ==> r == Ok::<
                AccountAndServiceInfo,
                Error,
            >(response_account(self)),
    {
        let success = String::from_str("success");
        if self.status != success {
            let error_json = match &self.error {
                Some(v) => json_text(v),
                None => String::from_str("null"),
            };
            return Err(Error::UnexpectedResponse(unexpected_response_message(error_json.as_str())));
        }
        let EtherealAccountResponse { smtp, imap, pop3, web, user, pass, .. } = self;
        match (user, pass) {
            (Some(username), Some(password)) => Ok(
                AccountAndServiceInfo {
                    account: AccountInfo { username, password },
                    smtp,
                    imap,
                    pop3,
                    web,
                },
            ),
            _ => Err(Error::MissingAccountInfo),
        }
    }
}

} // verus!
