//! The decisions of the shortening service. Talking to the counter and to
//! the durable store is the caller's business: it performs what an
//! [`Action`] asks for and comes back with the store's reply.

use crate::alphabet::{is_permuted_alphabet, permuted_alphabet, Alphabet};
use crate::encoder::short_code;
use vstd::prelude::*;

verus! {

/// What is added to an identifier before it is encoded.
pub const BASE_OFFSET: u64 = 14_000_000;

/// The name of the counter that identifiers are drawn from.
pub const COUNTER_KEY: &'static str = "url_id";

/// The secret key of a deployment that configures none. It is public, and
/// so is the permutation it gives: codes made under it hide nothing.
pub const DEFAULT_SECRET_KEY: &'static str = "default_secret";

/// Why a request could not be served.
#[derive(Clone, Copy, Debug, PartialEq, Eq, Structural)]
pub enum ServiceError {
    /// The counter did not hand out an identifier.
    AllocationFailure,
    /// The durable store did not take the record.
    PersistenceFailure,
    /// The durable store holds no record under the short code.
    NotFound,
    /// The durable store could not be asked.
    QueryFailure,
}

/// A short code with the URL it stands for.
#[derive(Debug, PartialEq, Eq)]
pub struct UrlRecord {
    pub short_url: String,
    pub long_url: String,
    /// Milliseconds since the Unix epoch at which the record was made.
    pub created_at: i64,
}

/// A [`UrlRecord`] as contracts see it.
pub struct UrlRecordView {
    pub short_url: Seq<char>,
    pub long_url: Seq<char>,
    pub created_at: i64,
}

impl View for UrlRecord {
    type V = UrlRecordView;

    open spec fn view(&self) -> UrlRecordView {
        UrlRecordView {
            short_url: self.short_url@,
            long_url: self.long_url@,
            created_at: self.created_at,
        }
    }
}

impl Clone for UrlRecord {
    fn clone(&self) -> (copy: UrlRecord)
        ensures
            copy@ == self@,
    {
        UrlRecord {
            short_url: self.short_url.clone(),
            long_url: self.long_url.clone(),
            created_at: self.created_at,
        }
    }
}

/// The counter's answer to an atomic increment.
#[derive(Clone, Copy, Debug, PartialEq, Eq, Structural)]
pub enum CounterReply {
    /// The counter's value after the increment.
    Value(u64),
    Failed,
}

/// The durable store's answer to an insert.
#[derive(Clone, Copy, Debug, PartialEq, Eq, Structural)]
pub enum InsertReply {
    Stored,
    Failed,
}

/// The durable store's answer to a lookup by short code.
#[derive(Debug, PartialEq, Eq)]
pub enum LookupReply {
    /// The long URL of the one record under the short code.
    Found(String),
    Missing,
    Failed,
}

/// A [`LookupReply`] as contracts see it.
pub enum LookupReplyView {
    Found(Seq<char>),
    Missing,
    Failed,
}

impl View for LookupReply {
    type V = LookupReplyView;

    open spec fn view(&self) -> LookupReplyView {
        match *self {
            LookupReply::Found(long_url) => LookupReplyView::Found(long_url@),
            LookupReply::Missing => LookupReplyView::Missing,
            LookupReply::Failed => LookupReplyView::Failed,
        }
    }
}

impl Clone for LookupReply {
    fn clone(&self) -> (copy: LookupReply)
        ensures
            copy@ == self@,
    {
        match self {
            LookupReply::Found(long_url) => LookupReply::Found(long_url.clone()),
            LookupReply::Missing => LookupReply::Missing,
            LookupReply::Failed => LookupReply::Failed,
        }
    }
}

/// What the caller is to do next for a request.
#[derive(Debug, PartialEq, Eq)]
pub enum Action {
    /// Insert the record into the durable store, then report the store's
    /// reply.
    Persist(UrlRecord),
    /// Answer that the record was created.
    Created(UrlRecord),
    /// Answer with a redirect to the long URL.
    Redirect(String),
    /// Answer with the failure.
    Fail(ServiceError),
}

/// An [`Action`] as contracts see it.
pub enum ActionView {
    Persist(UrlRecordView),
    Created(UrlRecordView),
    Redirect(Seq<char>),
    Fail(ServiceError),
}

impl View for Action {
    type V = ActionView;

    open spec fn view(&self) -> ActionView {
        match *self {
            Action::Persist(record) => ActionView::Persist(record@),
            Action::Created(record) => ActionView::Created(record@),
            Action::Redirect(long_url) => ActionView::Redirect(long_url@),
            Action::Fail(error) => ActionView::Fail(error),
        }
    }
}

impl Clone for Action {
    fn clone(&self) -> (copy: Action)
        ensures
            copy@ == self@,
    {
        match self {
            Action::Persist(record) => Action::Persist(record.clone()),
            Action::Created(record) => Action::Created(record.clone()),
            Action::Redirect(long_url) => Action::Redirect(long_url.clone()),
            Action::Fail(error) => Action::Fail(*error),
        }
    }
}

/// The identifier that is encoded for the counter value `id`.
pub open spec fn offset_of(id: u64) -> nat {
    (id + BASE_OFFSET) as nat
}

/// The record that a creation makes of the counter value `id`.
pub open spec fn created_record(
    alphabet: Seq<char>,
    long_url: Seq<char>,
    id: u64,
    now: i64,
) -> UrlRecordView {
    UrlRecordView { short_url: short_code(alphabet, offset_of(id)), long_url, created_at: now }
}

/// What follows the counter's reply in a creation: with a value, the record
/// made of it is to be persisted; without one the request fails and nothing
/// is written.
pub open spec fn allocation_step(
    alphabet: Seq<char>,
    long_url: Seq<char>,
    reply: CounterReply,
    now: i64,
) -> ActionView {
    match reply {
        CounterReply::Value(id) => ActionView::Persist(
            created_record(alphabet, long_url, id, now),
        ),
        CounterReply::Failed => ActionView::Fail(ServiceError::AllocationFailure),
    }
}

/// What follows the store's reply to the insert of `record`.
pub open spec fn insert_step(record: UrlRecordView, reply: InsertReply) -> ActionView {
    match reply {
        InsertReply::Stored => ActionView::Created(record),
        InsertReply::Failed => ActionView::Fail(ServiceError::PersistenceFailure),
    }
}

/// What follows the store's reply to a lookup.
pub open spec fn lookup_step(reply: LookupReplyView) -> ActionView {
    match reply {
        LookupReplyView::Found(long_url) => ActionView::Redirect(long_url),
        LookupReplyView::Missing => ActionView::Fail(ServiceError::NotFound),
        LookupReplyView::Failed => ActionView::Fail(ServiceError::QueryFailure),
    }
}

impl ServiceError {
    /// The HTTP status that the failure is answered with: 404 where the
    /// short code is unknown, 500 where a store let the service down.
    pub fn status_code(&self) -> (status: u16)
        ensures
            status == if *self == ServiceError::NotFound {
                404u16
            } else {
                500u16
            },
    {
        match self {
            ServiceError::NotFound => 404,
            _ => 500,
        }
    }

    /// The text that the failure is answered with.
    pub fn message(&self) -> (text: &'static str)
        ensures
            text@ == match *self {
                ServiceError::AllocationFailure => "Redis Error"@,
                ServiceError::PersistenceFailure => "Database Error"@,
                ServiceError::NotFound => "URL not found"@,
                ServiceError::QueryFailure => "Database Error"@,
            },
    {
        match self {
            ServiceError::AllocationFailure => "Redis Error",
            ServiceError::PersistenceFailure => "Database Error",
            ServiceError::NotFound => "URL not found",
            ServiceError::QueryFailure => "Database Error",
        }
    }
}

/// The secret key in force: the configured one, or the default where none
/// is configured.
pub fn effective_secret(configured: Option<String>) -> (secret_key: String)
    ensures
        secret_key@ == match configured {
            Some(key) => key@,
            None => DEFAULT_SECRET_KEY@,
        },
{
    match configured {
        Some(key) => key,
        None => DEFAULT_SECRET_KEY.to_owned(),
    }
}

/// Adds the base offset to a counter value.
pub fn offset_identifier(id: u64) -> (offset: u64)
    requires
        id + BASE_OFFSET <= u64::MAX,
    ensures
        offset == offset_of(id),
{
    id + BASE_OFFSET
}

/// Decides what follows the counter's reply in the creation of a short
/// code for `long_url`, with the codes written over `alphabet`.
pub fn on_allocation_with(
    alphabet: &Alphabet,
    long_url: String,
    reply: CounterReply,
    now: i64,
) -> (action: Action)
    requires
        reply matches CounterReply::Value(id) ==> id + BASE_OFFSET <= u64::MAX,
    ensures
        action@ == allocation_step(alphabet@, long_url@, reply, now),
{
    match reply {
        CounterReply::Value(id) => {
            let short_url = alphabet.encode(offset_identifier(id));
            Action::Persist(UrlRecord { short_url, long_url, created_at: now })
        },
        CounterReply::Failed => Action::Fail(ServiceError::AllocationFailure),
    }
}

/// Decides what follows the counter's reply in the creation of a short
/// code for `long_url`, with the codes written over the alphabet that
/// `secret_key` gives. Without an identifier nothing is encoded.
pub fn on_allocation(secret_key: &str, long_url: String, reply: CounterReply, now: i64) -> (action:
    Action)
    requires
        reply matches CounterReply::Value(id) ==> id + BASE_OFFSET <= u64::MAX,
    ensures
        action@ == allocation_step(permuted_alphabet(secret_key@), long_url@, reply, now),
        reply is Value ==> is_permuted_alphabet(permuted_alphabet(secret_key@)),
{
    match reply {
        CounterReply::Value(_) => {
            let alphabet = Alphabet::from_secret(secret_key);
            on_allocation_with(&alphabet, long_url, reply, now)
        },
        CounterReply::Failed => Action::Fail(ServiceError::AllocationFailure),
    }
}

/// Decides what follows the store's reply to the insert of `record`.
pub fn on_insert(record: UrlRecord, reply: InsertReply) -> (action: Action)
    ensures
        action@ == insert_step(record@, reply),
{
    match reply {
        InsertReply::Stored => Action::Created(record),
        InsertReply::Failed => Action::Fail(ServiceError::PersistenceFailure),
    }
}

/// Decides what follows the store's reply to a lookup.
pub fn on_lookup(reply: LookupReply) -> (action: Action)
    ensures
        action@ == lookup_step(reply@),
{
    match reply {
        LookupReply::Found(long_url) => Action::Redirect(long_url),
        LookupReply::Missing => Action::Fail(ServiceError::NotFound),
        LookupReply::Failed => Action::Fail(ServiceError::QueryFailure),
    }
}

} // verus!
