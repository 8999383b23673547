use vstd::prelude::*;

use crate::error::Error;
use crate::tag::{create_file_name, is_valid_tag, tag_file_name};
use crate::types::AccountAndServiceInfo;
use crate::DEFAULT_TAG;

verus! {

/// Where getting a test account stands. The caller performs what the phase asks
/// for and hands the outcome to [`Lookup::step`]:
///
/// - `Loading`: read the cache file `file_name` and report [`Event::Loaded`];
/// - `Provisioning`: request a new account and report [`Event::Provisioned`];
/// - `Storing`: write `info` to the cache file `file_name` and report
///   [`Event::Stored`];
/// - `Done`: nothing is left to do; the result is final.
#[derive(Debug, PartialEq, Eq)]
pub enum Lookup {
    Loading { file_name: String },
    Provisioning { file_name: String },
    Storing { file_name: String, info: AccountAndServiceInfo },
    Done(Result<AccountAndServiceInfo, Error>),
}

/// The outcome of the work that a [`Lookup`] asked for.
#[derive(Debug, PartialEq, Eq)]
pub enum Event {
    /// The cache file was read: `None` where no such file exists.
    Loaded(Result<Option<AccountAndServiceInfo>, Error>),
    /// A new account was requested from the provider.
    Provisioned(Result<AccountAndServiceInfo, Error>),
    /// The new account was written to the cache file.
    Stored(Result<(), Error>),
}

/// The phase that follows `s` once `e` has happened. An event that does not
/// answer what `s` asked for leaves it as it is.
pub open spec fn next_lookup(s: Lookup, e: Event) -> Lookup {
    match s {
        Lookup::Loading { file_name } => match e {
            Event::Loaded(Ok(Some(info))) => Lookup::Done(Ok(info)),
            Event::Loaded(Ok(None)) => Lookup::Provisioning { file_name },
            Event::Loaded(Err(err)) => Lookup::Done(Err(err)),
            _ => s,
        },
        Lookup::Provisioning { file_name } => match e {
            Event::Provisioned(Ok(info)) => Lookup::Storing { file_name, info },
            Event::Provisioned(Err(err)) => Lookup::Done(Err(err)),
            _ => s,
        },
        Lookup::Storing { file_name, info } => match e {
            Event::Stored(_) => Lookup::Done(Ok(info)),
            _ => s,
        },
        Lookup::Done(_) => s,
    }
}

/// Starts getting the test account cached under `tag`: the first phase reads
/// its cache file `<tag>.json`. An invalid tag is rejected before any file name
/// is formed.
pub fn test_account_info_with_tag(tag: &str) -> (r: Result<Lookup, Error>)
    ensures
        r is Ok <==> is_valid_tag(tag@),
        r matches Ok(l) ==> (l matches Lookup::Loading { file_name } && file_name@ == tag_file_name(
            tag@,
        )),
        r matches Err(e) ==> (e matches Error::InvalidTag(t) && t@ == tag@),
{
    let file_name = create_file_name(tag)?;
    Ok(Lookup::Loading { file_name })
}

/// Starts getting the test account cached under the default tag `test_account`.
pub fn test_account_info() -> (r: Result<Lookup, Error>)
    ensures
        r matches Ok(Lookup::Loading { file_name }) && file_name@ == "test_account.json"@,
{
    proof {
        reveal_strlit("test_account");
        reveal_strlit(".json");
        reveal_strlit("test_account.json");
        assert(is_valid_tag("test_account"@));
        assert(tag_file_name("test_account"@) =~= "test_account.json"@);
    }
    test_account_info_with_tag(DEFAULT_TAG)
}

impl Lookup {
    /// Moves on from this phase with the outcome of the work it asked for.
    ///
    /// A cached record is returned as it is, with no request to the provider; a
    /// missing one leads to a request; a new account is then written to the
    /// same cache file, and returned whether or not that write succeeded. Any
    /// other error ends the lookup with that error.
    pub fn step(self, event: Event) -> (r: Lookup)
        ensures
            r == next_lookup(self, event),
    {
        match self {
            Lookup::Loading { file_name } => match event {
                Event::Loaded(Ok(Some(info))) => Lookup::Done(Ok(info)),
                Event::Loaded(Ok(None)) => Lookup::Provisioning { file_name },
                Event::Loaded(Err(err)) => Lookup::Done(Err(err)),
                _ => Lookup::Loading { file_name },
            },
            Lookup::Provisioning { file_name } => match event {
                Event::Provisioned(Ok(info)) => Lookup::Storing { file_name, info },
                Event::Provisioned(Err(err)) => Lookup::Done(Err(err)),
                _ => Lookup::Provisioning { file_name },
            },
            Lookup::Storing { file_name, info } => match event {
                Event::Stored(_) => Lookup::Done(Ok(info)),
                _ => Lookup::Storing { file_name, info },
            },
            Lookup::Done(result) => Lookup::Done(result),
        }
    }

    /// Whether the lookup has ended.
    pub fn is_done(&self) -> (r: bool)
        ensures
            r == self is Done,
    {
        matches!(self, Lookup::Done(_))
    }

    /// The final result, once the lookup has ended.
    pub fn into_result(self) -> (r: Option<Result<AccountAndServiceInfo, Error>>)
        ensures
            self is Done ==> r == Some(self->0),
            !(self is Done) ==> r is None,
    {
        match self {
            Lookup::Done(result) => Some(result),
            _ => None,
        }
    }
}

/// A record found in the cache is returned exactly, and ends the lookup
/// before any request to the provider.
pub proof fn lemma_cache_hit_skips_provisioning(file_name: String, info: AccountAndServiceInfo)
    ensures
        next_lookup(Lookup::Loading { file_name }, Event::Loaded(Ok(Some(info)))) == Lookup::Done(
            Ok(info),
        ),
{
}

/// Without a cached record, the lookup requests a new account; once the
/// provider hands out `info`, it asks to write exactly `info` to the cache file
/// it read from, and afterwards returns `info`.
pub proof fn lemma_cache_miss_provisions_and_stores(
    file_name: String,
    info: AccountAndServiceInfo,
    stored: Result<(), Error>,
)
    ensures
        ({
            let missed = next_lookup(Lookup::Loading { file_name }, Event::Loaded(Ok(None)));
            let provisioned = next_lookup(missed, Event::Provisioned(Ok(info)));
            &&& missed == Lookup::Provisioning { file_name }
            &&& provisioned == Lookup::Storing { file_name, info }
            &&& next_lookup(provisioned, Event::Stored(stored)) == Lookup::Done(Ok(info))
        }),
{
}

/// A failed write of a freshly provisioned account does not fail the lookup:
/// the account is still returned.
pub proof fn lemma_store_failure_is_not_fatal(
    file_name: String,
    info: AccountAndServiceInfo,
    err: Error,
)
    ensures
        next_lookup(Lookup::Storing { file_name, info }, Event::Stored(Err(err))) == Lookup::Done(
            Ok(info),
        ),
{
}

} // verus!
