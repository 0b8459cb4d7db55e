//! The sink orchestrator: the life cycle of a sink, from construction to
//! close, as a state machine that the caller drives with events, clock
//! ticks, the end of the stream and finished deliveries.

use vstd::prelude::*;
use crate::batch::{Batcher, BatcherSettings};
use crate::dsn::{dsn_outcome, endpoint_of};
use crate::encoder::{SentryRequestBuilder, Transformer};
use crate::error::SinkError;
use crate::event::LogEvent;
use crate::service::{uri_accepts, SentryServiceRequestBuilder};

verus! {

/// Where a sink is in its life cycle.
#[derive(Clone, Copy, Debug, PartialEq, Eq, Structural)]
pub enum SinkPhase {
    /// Consuming the stream: batching, encoding and delivering.
    Running,
    /// The stream has ended: the last batch is out, deliveries are pending.
    Draining,
    /// Every delivery has resolved.
    Closed,
}

/// Whether the batch limits and the limit on deliveries in flight are usable.
pub open spec fn limits_valid(batch: BatcherSettings, max_in_flight: usize) -> bool {
    batch.max_events > 0 && (batch.max_bytes matches Some(m) ==> m > 0) && max_in_flight > 0
}

/// Why a sink cannot be built from these limits and this DSN, if it cannot:
/// a zero limit, a malformed DSN, or an endpoint that is no valid URI.
pub open spec fn construction_error(batch: BatcherSettings, max_in_flight: usize, dsn: Seq<char>) -> Option<SinkError> {
    if !limits_valid(batch, max_in_flight) {
        Some(SinkError::InvalidSettings)
    } else {
        match dsn_outcome(dsn) {
            Err(e) => Some(SinkError::InvalidDsn(e)),
            Ok(d) => if uri_accepts(endpoint_of(d)) {
                None
            } else {
                Some(SinkError::InvalidEndpoint)
            },
        }
    }
}

/// The records of a list of batches, in order.
pub open spec fn flatten<T>(batches: Seq<Seq<T>>) -> Seq<T>
    decreases batches.len(),
{
    if batches.len() == 0 {
        Seq::empty()
    } else {
        flatten(batches.drop_last()) + batches.last()
    }
}

/// The contents of a list of batches.
pub open spec fn batches_view(batches: Seq<Vec<LogEvent>>) -> Seq<Seq<LogEvent>> {
    batches.map_values(|b: Vec<LogEvent>| b@)
}

/// A sink: its request builders, the batch under way, the batches ready for
/// delivery and the deliveries in flight.
pub struct SentrySink {
    request_builder: SentryRequestBuilder,
    service_request_builder: SentryServiceRequestBuilder,
    batcher: Batcher<LogEvent>,
    ready: Vec<Vec<LogEvent>>,
    phase: SinkPhase,
    in_flight: usize,
    max_in_flight: usize,
}

impl SentrySink {
    pub closed spec fn builder(&self) -> SentryRequestBuilder {
        self.request_builder
    }

    pub closed spec fn service_builder(&self) -> SentryServiceRequestBuilder {
        self.service_request_builder
    }

    /// The builder of each batch's envelope.
    pub fn request_builder(&self) -> (r: &SentryRequestBuilder)
        ensures
            *r == self.builder(),
    {
        &self.request_builder
    }

    /// The builder of each delivery's HTTP request.
    pub fn service_request_builder(&self) -> (r: &SentryServiceRequestBuilder)
        ensures
            *r == self.service_builder(),
    {
        &self.service_request_builder
    }

    pub closed spec fn phase(&self) -> SinkPhase {
        self.phase
    }

    /// The deliveries handed out and not yet resolved.
    pub closed spec fn in_flight(&self) -> nat {
        self.in_flight as nat
    }

    /// The most deliveries that may be in flight at once.
    pub closed spec fn max_in_flight(&self) -> nat {
        self.max_in_flight as nat
    }

    /// The events of the batch under way, in arrival order.
    pub closed spec fn pending(&self) -> Seq<LogEvent> {
        self.batcher.pending()
    }

    /// The batches closed and waiting for a delivery slot, oldest first.
    pub closed spec fn ready(&self) -> Seq<Seq<LogEvent>> {
        batches_view(self.ready@)
    }

    pub closed spec fn batch_settings(&self) -> BatcherSettings {
        self.batcher.settings()
    }

    /// Well-formed: the batcher is, the deliveries in flight stay within
    /// the limit, nothing is pending once running has stopped, and a closed
    /// sink has nothing ready or in flight.
    pub closed spec fn wf(&self) -> bool {
        &&& self.batcher.wf()
        &&& self.max_in_flight > 0
        &&& self.in_flight <= self.max_in_flight
        &&& self.phase != SinkPhase::Running ==> self.batcher.pending().len() == 0
        &&& self.phase == SinkPhase::Closed ==> self.in_flight == 0 && self.ready@.len() == 0
    }

    /// Builds a sink for the DSN: it fails, and never runs, where a limit is
    /// zero, or the DSN or the endpoint derived from it is malformed.
    pub fn new(
        dsn: &str,
        transformer: Transformer,
        batch_settings: BatcherSettings,
        max_in_flight: usize,
    ) -> (r: Result<Self, SinkError>)
        ensures
            match construction_error(batch_settings, max_in_flight, dsn@) {
                Some(e) => r == Err::<Self, SinkError>(e),
                None => r matches Ok(s) && s.wf() && s.phase() == SinkPhase::Running && s.in_flight()
                    == 0 && s.pending().len() == 0 && s.ready().len() == 0 && s.max_in_flight()
                    == max_in_flight && s.batch_settings() == batch_settings
                    && s.builder().encoder.dsn@ == dsn@
                    && s.builder().encoder.transformer@ == transformer@
                    && s.service_builder().endpoint@ == endpoint_of(dsn_outcome(dsn@)->Ok_0)
                    && s.service_builder().public_key@ == dsn_outcome(dsn@)->Ok_0.public_key,
            },
    {
        let bytes_ok = match batch_settings.max_bytes {
            Some(m) => m > 0,
            None => true,
        };
        if batch_settings.max_events == 0 || !bytes_ok || max_in_flight == 0 {
            return Err(SinkError::InvalidSettings);
        }
        let service_request_builder = SentryServiceRequestBuilder::new(dsn)?;
        let request_builder = SentryRequestBuilder::new(String::from_str(dsn), transformer);
        Ok(SentrySink {
            request_builder,
            service_request_builder,
            batcher: Batcher::new(batch_settings),
            ready: Vec::new(),
            phase: SinkPhase::Running,
            in_flight: 0,
            max_in_flight,
        })
    }

    /// Whether the sink may take the next event from the stream: no closed
    /// batch is still waiting for a delivery slot. While it may not, the
    /// caller stops pulling from the stream.
    pub fn can_accept(&self) -> (r: bool)
        ensures
            r == (self.ready().len() == 0),
    {
        self.ready.len() == 0
    }

    /// Takes in an event of `size` bytes that arrived at `now_ms`; the
    /// batches it closes wait for delivery, in order.
    pub fn on_event(&mut self, event: LogEvent, size: usize, now_ms: u64)
        requires
            old(self).wf(),
            old(self).phase() == SinkPhase::Running,
            old(self).ready().len() == 0,
        ensures
            final(self).wf(),
            final(self).phase() == SinkPhase::Running,
            final(self).in_flight() == old(self).in_flight(),
            final(self).max_in_flight() == old(self).max_in_flight(),
            final(self).batch_settings() == old(self).batch_settings(),
            final(self).ready().len() <= 2,
            forall|k: int| 0 <= k < final(self).ready().len() ==> (#[trigger] final(self).ready()[k]).len() > 0,
            flatten(final(self).ready()) + final(self).pending() == old(self).pending().push(event),
    {
        let ghost before = self.batcher.pending();
        let out = self.batcher.push(event, size, now_ms);
        proof {
            let b = batches_view(out@);
            let e = Seq::<Seq<LogEvent>>::empty();
            assert(flatten(e) =~= Seq::<LogEvent>::empty());
            if b.len() == 0 {
                assert(flatten(b) =~= Seq::<LogEvent>::empty());
            } else if b.len() == 1 {
                assert(b.drop_last() =~= e);
                assert(b[0] == out@[0]@);
                assert(flatten(b) =~= out@[0]@);
            } else {
                assert(b.drop_last().drop_last() =~= e);
                assert(b[0] == out@[0]@);
                assert(b[1] == out@[1]@);
                assert(flatten(b.drop_last()) =~= out@[0]@);
                assert(flatten(b) =~= out@[0]@ + out@[1]@);
            }
            assert(flatten(b) + self.batcher.pending() =~= before.push(event));
        }
        self.ready = out;
    }

    /// Closes the batch under way where its time window has passed at
    /// `now_ms`; it then waits for delivery.
    pub fn on_tick(&mut self, now_ms: u64)
        requires
            old(self).wf(),
            old(self).phase() == SinkPhase::Running,
            old(self).ready().len() == 0,
        ensures
            final(self).wf(),
            final(self).phase() == SinkPhase::Running,
            final(self).in_flight() == old(self).in_flight(),
            final(self).max_in_flight() == old(self).max_in_flight(),
            final(self).batch_settings() == old(self).batch_settings(),
            final(self).ready().len() == 0 ==> final(self).pending() == old(self).pending(),
            final(self).ready().len() == 1 ==> final(self).ready()[0] == old(self).pending()
                && final(self).pending().len() == 0,
            final(self).ready().len() <= 1,
    {
        match self.batcher.poll_timeout(now_ms) {
            Some(b) => {
                self.ready.push(b);
            },
            None => {},
        }
        proof {
            if self.ready@.len() == 1 {
                assert(batches_view(self.ready@)[0] == self.ready@[0]@);
            }
        }
    }

    /// Hands out the oldest ready batch where a delivery slot is free; its
    /// delivery then starts.
    pub fn next_dispatch(&mut self) -> (r: Option<Vec<LogEvent>>)
        requires
            old(self).wf(),
        ensures
            final(self).wf(),
            final(self).phase() == old(self).phase(),
            final(self).max_in_flight() == old(self).max_in_flight(),
            final(self).pending() == old(self).pending(),
            final(self).batch_settings() == old(self).batch_settings(),
            (old(self).ready().len() > 0 && old(self).in_flight() < old(self).max_in_flight()) ==> (
            r matches Some(b) && b@ == old(self).ready()[0] && final(self).ready() == old(
                self,
            ).ready().drop_first() && final(self).in_flight() == old(self).in_flight() + 1),
            !(old(self).ready().len() > 0 && old(self).in_flight() < old(self).max_in_flight()) ==> (
            r is None && final(self).ready() == old(self).ready() && final(self).in_flight()
                == old(self).in_flight()),
    {
        if self.ready.len() > 0 && self.in_flight < self.max_in_flight {
            let ghost before = self.ready@;
            let b = self.ready.remove(0);
            self.in_flight = self.in_flight + 1;
            proof {
                assert(batches_view(self.ready@) =~= batches_view(before).drop_first());
            }
            Some(b)
        } else {
            None
        }
    }

    /// The stream has ended: the batch under way, if it holds any event,
    /// waits for delivery, and the sink drains; with nothing ready or in
    /// flight it closes.
    pub fn on_stream_end(&mut self)
        requires
            old(self).wf(),
            old(self).phase() == SinkPhase::Running,
        ensures
            final(self).wf(),
            final(self).max_in_flight() == old(self).max_in_flight(),
            final(self).in_flight() == old(self).in_flight(),
            final(self).pending().len() == 0,
            old(self).pending().len() > 0 ==> final(self).ready() == old(self).ready().push(
                old(self).pending(),
            ),
            old(self).pending().len() == 0 ==> final(self).ready() == old(self).ready(),
            (final(self).in_flight() == 0 && final(self).ready().len() == 0) ==> final(self).phase()
                == SinkPhase::Closed,
            !(final(self).in_flight() == 0 && final(self).ready().len() == 0) ==> final(self).phase()
                == SinkPhase::Draining,
    {
        let ghost before = self.ready@;
        match self.batcher.finish() {
            Some(b) => {
                self.ready.push(b);
                proof {
                    assert(batches_view(self.ready@) =~= batches_view(before).push(
                        self.ready@.last()@,
                    ));
                }
            },
            None => {},
        }
        self.phase = if self.in_flight == 0 && self.ready.len() == 0 {
            SinkPhase::Closed
        } else {
            SinkPhase::Draining
        };
    }

    /// A delivery has resolved, delivered or failed; a draining sink closes
    /// once nothing is ready or in flight.
    pub fn on_delivery_done(&mut self)
        requires
            old(self).wf(),
            old(self).in_flight() > 0,
        ensures
            final(self).wf(),
            final(self).max_in_flight() == old(self).max_in_flight(),
            final(self).in_flight() == old(self).in_flight() - 1,
            final(self).pending() == old(self).pending(),
            final(self).ready() == old(self).ready(),
            old(self).phase() == SinkPhase::Running ==> final(self).phase() == SinkPhase::Running,
            old(self).phase() == SinkPhase::Draining && final(self).in_flight() == 0 && final(self).ready().len() == 0
                ==> final(self).phase() == SinkPhase::Closed,
            old(self).phase() == SinkPhase::Draining && !(final(self).in_flight() == 0 && final(self).ready().len() == 0)
                ==> final(self).phase() == SinkPhase::Draining,
    {
        self.in_flight = self.in_flight - 1;
        if self.phase == SinkPhase::Draining && self.in_flight == 0 && self.ready.len() == 0 {
            self.phase = SinkPhase::Closed;
        }
    }

    /// Whether the sink has closed.
    pub fn is_closed(&self) -> (r: bool)
        ensures
            r == (self.phase() == SinkPhase::Closed),
    {
        self.phase == SinkPhase::Closed
    }
}

} // verus!
