//! The read service that a host puts in front of a ledger: which block a
//! query is answered at, and how a failed query is reported to the caller.

use std::marker::PhantomData;
use std::sync::Arc;
use vstd::prelude::*;
use vstd::std_specs::convert::FromSpecImpl;
use crate::account::AccountId;
use crate::entry::{views, AuditLog};
use crate::pagination::page_of;
use crate::pallet::Pallet;

verus! {

/// Serves paginated reads of audit logs through a client of type `C`. The
/// second parameter names the type of the blocks that the client reads at.
pub struct AuditorLogsRetrieval<C, P> {
    client: Arc<C>,
    _marker: PhantomData<P>,
}

impl<C, P> AuditorLogsRetrieval<C, P> {
    /// The client that the service asks.
    pub closed spec fn spec_client(&self) -> Arc<C> {
        self.client
    }

    /// A service that asks `client`.
    pub fn new(client: Arc<C>) -> (service: Self)
        ensures
            service.spec_client() == client,
    {
        Self { client, _marker: PhantomData }
    }

    /// The client that the service asks.
    #[verifier::when_used_as_spec(spec_client)]
    pub fn client(&self) -> (client: Arc<C>)
        ensures
            client == self.spec_client(),
    {
        self.client.clone()
    }
}

/// Why a query could not be answered.
#[derive(Debug, Clone, Copy, PartialEq, Eq, Structural)]
pub enum Error {
    /// The request could not be decoded.
    DecodeError,
    /// The call into the ledger's host failed.
    RuntimeError,
}

impl From<Error> for i32 {
    /// The code under which the failure is reported.
    fn from(e: Error) -> (code: i32) {
        match e {
            Error::RuntimeError => 1,
            Error::DecodeError => 2,
        }
    }
}

impl FromSpecImpl<Error> for i32 {
    open spec fn obeys_from_spec() -> bool {
        true
    }

    open spec fn from_spec(e: Error) -> i32 {
        match e {
            Error::RuntimeError => 1,
            Error::DecodeError => 2,
        }
    }
}

/// What the caller of a failed query is told.
#[derive(Debug, PartialEq, Eq)]
pub struct CallFailure {
    /// The code of the failure.
    pub code: i32,
    /// What went wrong, in a few words.
    pub message: String,
    /// What the host said of it, if anything.
    pub data: Option<String>,
}

/// The report of a query that failed in the host, which said `details` of it.
pub fn runtime_failure(details: String) -> (failure: CallFailure)
    ensures
        failure.code == 1,
        failure.message@ == "Unable to query dispatch info."@,
        failure.data == Some(details),
{
    CallFailure {
        code: i32::from(Error::RuntimeError),
        message: "Unable to query dispatch info.".to_string(),
        data: Some(details),
    }
}

/// The answer to a query, from what the host returned: its result as it
/// is, or the report of its failure.
pub fn answer<T>(returned: Result<T, String>) -> (answered: Result<T, CallFailure>)
    ensures
        match returned {
            Ok(value) => answered == Ok::<T, CallFailure>(value),
            Err(details) => answered is Err && answered->Err_0.code == 1
                && answered->Err_0.message@ == "Unable to query dispatch info."@
                && answered->Err_0.data == Some(details),
        },
{
    match returned {
        Ok(value) => Ok(value),
        Err(details) => Err(runtime_failure(details)),
    }
}

/// What the service asks of its client, the host that keeps the ledger.
/// Nothing is taken for granted of what a client returns.
pub trait LogsRetrieval<BlockHash> {
    /// The best block that the host knows.
    fn best_hash(&self) -> BlockHash;

    /// One page of the entries under `(log_key, log_date)` as they stand at
    /// the block `at`, or what the host says of its failure to read them.
    fn retrieve_paginated_audit_log(
        &self,
        at: &BlockHash,
        log_key: Vec<u8>,
        log_date: Vec<u8>,
        max_result_count: u32,
        selected_page_num: u32,
    ) -> Result<Vec<AuditLog<AccountId>>, String>;
}

/// A ledger that is held in memory is a host with a single block, `()`: it
/// has one state, and reads it without fail.
impl LogsRetrieval<()> for Pallet {
    fn best_hash(&self) -> (best: ())
        ensures
            best == (),
    {
        ()
    }

    fn retrieve_paginated_audit_log(
        &self,
        at: &(),
        log_key: Vec<u8>,
        log_date: Vec<u8>,
        max_result_count: u32,
        selected_page_num: u32,
    ) -> (returned: Result<Vec<AuditLog<AccountId>>, String>)
        ensures
            returned is Ok,
            views(returned->Ok_0@) == page_of(
                self@.bucket(log_key@, log_date@),
                max_result_count,
                selected_page_num,
            ),
    {
        Ok(self.retrieve_paginated_audit_logs(log_key, log_date, max_result_count, selected_page_num))
    }
}

/// The queries that the read service answers.
pub trait AuditorLogsRetrievalApi<BlockHash> {
    /// One page of the entries under `(log_key, log_date)`, read at the
    /// block `at`, or at the best block where none is named.
    fn retrieve_paginated_audit_log(
        &self,
        log_key: Vec<u8>,
        log_date: Vec<u8>,
        max_result_count: u32,
        selected_page_num: u32,
        at: Option<BlockHash>,
    ) -> Result<Vec<AuditLog<AccountId>>, CallFailure>;
}

impl<C: LogsRetrieval<BlockHash>, BlockHash> AuditorLogsRetrievalApi<
    BlockHash,
> for AuditorLogsRetrieval<C, BlockHash> {
    /// Asks the client for the page with the arguments of the query as they
    /// are, at the named block or else at the best one, which the client is
    /// asked for only then. The answer is made of what the client returned:
    /// the page as it is, or the report of a failed call with what it said.
    fn retrieve_paginated_audit_log(
        &self,
        log_key: Vec<u8>,
        log_date: Vec<u8>,
        max_result_count: u32,
        selected_page_num: u32,
        at: Option<BlockHash>,
    ) -> (answered: Result<Vec<AuditLog<AccountId>>, CallFailure>)
        ensures
            exists|block: BlockHash, returned: Result<Vec<AuditLog<AccountId>>, String>|
                {
                    &&& read_at(&*self.spec_client(), at, block)
                    &&& #[trigger] call_ensures(
                        C::retrieve_paginated_audit_log,
                        (
                            &*self.spec_client(),
                            &block,
                            log_key,
                            log_date,
                            max_result_count,
                            selected_page_num,
                        ),
                        returned,
                    )
                    &&& answers(returned, answered)
                },
            answered is Err ==> answered->Err_0.code == 1 && answered->Err_0.message@
                == "Unable to query dispatch info."@ && answered->Err_0.data is Some,
    {
        let ghost named = at;
        let block = match at {
            Some(hash) => hash,
            None => self.client.best_hash(),
        };
        assert(read_at(&*self.spec_client(), named, block));
        let returned = self.client.retrieve_paginated_audit_log(
            &block,
            log_key,
            log_date,
            max_result_count,
            selected_page_num,
        );
        assert(call_ensures(
            C::retrieve_paginated_audit_log,
            (&*self.spec_client(), &block, log_key, log_date, max_result_count, selected_page_num),
            returned,
        ));
        answer(returned)
    }
}

/// Whether `block` is a block at which `client` may be asked for a query
/// that names `at`: the named block, or else a block that the client gives
/// as its best.
pub open spec fn read_at<C: LogsRetrieval<BlockHash>, BlockHash>(
    client: &C,
    at: Option<BlockHash>,
    block: BlockHash,
) -> bool {
    match at {
        Some(hash) => block == hash,
        None => call_ensures(C::best_hash, (client,), block),
    }
}

/// Whether `answered` is the answer to a query for which the host returned
/// `returned`: the host's result as it is, or else the report of a failed
/// call into the host that carries what the host said. This is what
/// `answer` makes of `returned`.
pub open spec fn answers<T>(returned: Result<T, String>, answered: Result<T, CallFailure>) -> bool {
    match returned {
        Ok(value) => answered == Ok::<T, CallFailure>(value),
        Err(details) => answered is Err && answered->Err_0.code == 1
            && answered->Err_0.message@ == "Unable to query dispatch info."@
            && answered->Err_0.data == Some(details),
    }
}

} // verus!
