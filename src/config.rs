//! The configuration of a sink, and its construction.

use vstd::prelude::*;
use crate::batch::BatcherSettings;
use crate::dsn::{dsn_outcome, endpoint_of, healthcheck, healthcheck_result};
use crate::encoder::Transformer;
use crate::error::SinkError;
use crate::service::RetryPolicy;
use crate::sink::{construction_error, limits_valid, SentrySink, SinkPhase};

verus! {

/// The request policy shared with other HTTP sinks: how many deliveries may
/// be in flight at once, and the retry budget of each.
#[derive(Clone, Copy, Debug, PartialEq, Eq, Structural)]
pub struct RequestSettings {
    pub concurrency: usize,
    pub retry: RetryPolicy,
}

/// The configuration of a sink.
#[derive(Clone, Debug)]
pub struct SentryConfig {
    /// The connection string: `scheme://public_key@host[:port]/project_id`.
    pub dsn: String,
    pub batch: BatcherSettings,
    /// The field transform applied to each event before conversion.
    pub encoding: Transformer,
    pub request: RequestSettings,
}

impl SentryConfig {
    /// A configuration for the DSN with the default limits: batches of 100
    /// records or one second, ten deliveries in flight, five attempts each
    /// with waits from one second up to one minute, and no field transform.
    pub fn with_dsn(dsn: String) -> (r: Self)
        ensures
            r.dsn == dsn,
            r.batch.max_events == 100,
            r.batch.max_bytes is None,
            r.batch.timeout_ms == 1000,
            r.request.concurrency == 10,
            r.request.retry == (RetryPolicy {
                max_attempts: 5,
                initial_backoff_ms: 1000,
                max_backoff_ms: 60000,
            }),
            r.encoding.only_fields is None,
            r.encoding.except_fields@.len() == 0,
    {
        SentryConfig {
            dsn,
            batch: BatcherSettings::default_settings(),
            encoding: Transformer::keep_all(),
            request: RequestSettings {
                concurrency: 10,
                retry: RetryPolicy { max_attempts: 5, initial_backoff_ms: 1000, max_backoff_ms: 60000 },
            },
        }
    }

    /// Builds the sink: the limits must be usable, then the DSN and the
    /// endpoint derived from it well formed.
    pub fn build(&self) -> (r: Result<SentrySink, SinkError>)
        ensures
            match construction_error(self.batch, self.request.concurrency, self.dsn@) {
                Some(e) => r == Err::<SentrySink, SinkError>(e),
                None => r matches Ok(s) && s.wf() && s.phase() == SinkPhase::Running && s.in_flight()
                    == 0 && s.pending().len() == 0 && s.ready().len() == 0 && s.max_in_flight()
                    == self.request.concurrency && s.batch_settings() == self.batch
                    && s.builder().encoder.dsn@ == self.dsn@
                    && s.builder().encoder.transformer@ == self.encoding@
                    && s.service_builder().endpoint@ == endpoint_of(dsn_outcome(self.dsn@)->Ok_0)
                    && s.service_builder().public_key@ == dsn_outcome(self.dsn@)->Ok_0.public_key,
            },
    {
        SentrySink::new(
            self.dsn.as_str(),
            self.encoding.duplicate(),
            self.batch,
            self.request.concurrency,
        )
    }

    /// Checks that the DSN is well formed, without sending anything.
    pub fn healthcheck(&self) -> (r: Result<(), SinkError>)
        ensures
            r == healthcheck_result(self.dsn@),
    {
        healthcheck(self.dsn.as_str())
    }
}

/// A malformed DSN is refused at once: the healthcheck and, wherever the
/// limits are usable, the sink's construction both fail with the same
/// `InvalidDsn`, so no such sink ever runs.
pub proof fn malformed_dsn_refused(dsn: Seq<char>, batch: BatcherSettings, max_in_flight: usize)
    requires
        dsn_outcome(dsn) is Err,
    ensures
        healthcheck_result(dsn) == Err::<(), SinkError>(SinkError::InvalidDsn(dsn_outcome(dsn)->Err_0)),
        limits_valid(batch, max_in_flight) ==> construction_error(batch, max_in_flight, dsn) == Some(
            SinkError::InvalidDsn(dsn_outcome(dsn)->Err_0),
        ),
{
}

} // verus!
