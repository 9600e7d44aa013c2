use vstd::prelude::*;
use crate::batching::{BulkWrite, WriteOutcome, chunk_count, flatten, outcome_of, well_sized};
use crate::endpoints::VatsimApiUrls;
use crate::errors::{EndpointCategory, StoreFailure, VSwimDBError, VatsimDataAPIError};
use crate::model::{GeneralData, ParsedVatsimData, PilotData, VatsimStatusData, enriched};
use crate::vatsim::VatsimDataHandler;

verus! {

/// Pause between two cycles when none is configured: one hour.
pub const DEFAULT_POLL_INTERVAL_SECONDS: u64 = 3600;

/// Most items that the store takes in one bulk-write request.
pub const DYNAMO_DB_BATCH_LIMIT: usize = 25;

/// What one poll cycle is configured with.
#[derive(Clone, Debug, PartialEq)]
pub struct PollConfig {
    pub bootstrap_url: String,
    pub poll_interval_seconds: u64,
    pub batch_limit: usize,
}

impl PollConfig {
    /// The configuration with the default interval and the store's batch limit.
    pub fn new(bootstrap_url: String) -> (r: PollConfig)
        ensures
            r.bootstrap_url == bootstrap_url,
            r.poll_interval_seconds == DEFAULT_POLL_INTERVAL_SECONDS,
            r.batch_limit == DYNAMO_DB_BATCH_LIMIT,
    {
        PollConfig {
            bootstrap_url,
            poll_interval_seconds: DEFAULT_POLL_INTERVAL_SECONDS,
            batch_limit: DYNAMO_DB_BATCH_LIMIT,
        }
    }
}

/// Where a cycle stands: which reply it waits for.
#[derive(Clone, Copy, Debug, PartialEq, Eq, Structural)]
pub enum Phase {
    Idle,
    AwaitingStatus,
    AwaitingData,
    AwaitingSummary,
    AwaitingChunk,
    Sleeping,
    Halted,
}

/// A failure that ends the run.
#[derive(Clone, Debug, PartialEq)]
pub enum CycleError {
    Api(VatsimDataAPIError),
    Store(VSwimDBError),
}

/// What the caller is asked to do next.
#[derive(Clone, Debug, PartialEq)]
pub enum CycleAction {
    /// Fetch and parse the status document at this URL.
    FetchStatus(String),
    /// Fetch and parse the data document at this URL.
    FetchData(String),
    /// Overwrite the stored summary with this record.
    PutSummary(GeneralData),
    /// Submit this chunk of pilot records as one bulk write.
    PutChunk(Vec<PilotData>),
    /// Report these chunk outcomes, then wait this many seconds.
    Sleep(u64, Vec<WriteOutcome<PilotData>>),
    /// Stop the run.
    Halt(CycleError),
}

/// The decisions of the poll loop: resolve endpoints, fetch the snapshot,
/// write the summary, write the pilot chunks one after the other, sleep,
/// and again. Failures before any write end the run; a failed chunk is
/// reported and the remaining chunks are still written.
pub struct PollCycle {
    config: PollConfig,
    phase: Phase,
    bulk: BulkWrite<PilotData>,
}

impl PollCycle {
    pub closed spec fn config(&self) -> PollConfig {
        self.config
    }

    pub closed spec fn phase_view(&self) -> Phase {
        self.phase
    }

    /// Chunks of the current snapshot not yet handed out.
    pub closed spec fn pending(&self) -> Seq<Seq<PilotData>> {
        self.bulk.pending()
    }

    /// Outcomes of this cycle's chunks so far.
    pub closed spec fn outcomes(&self) -> Seq<WriteOutcome<PilotData>> {
        self.bulk.outcomes()
    }

    /// The action that follows once the summary or a chunk is settled: the
    /// next chunk while one is pending, else the sleep.
    pub open spec fn follows(
        &self,
        r: CycleAction,
        pending: Seq<Seq<PilotData>>,
        outcomes: Seq<WriteOutcome<PilotData>>,
    ) -> bool {
        if pending.len() > 0 {
            &&& r matches CycleAction::PutChunk(c) && c@ == pending[0]
            &&& self.phase_view() == Phase::AwaitingChunk
            &&& self.pending() == pending.drop_first()
            &&& self.outcomes() == outcomes
        } else {
            &&& r matches CycleAction::Sleep(secs, out) && secs == self.config().poll_interval_seconds
                && out@ == outcomes
            &&& self.phase_view() == Phase::Sleeping
            &&& self.pending().len() == 0
            &&& self.outcomes().len() == 0
        }
    }

    /// A cycle that has not started.
    pub fn new(config: PollConfig) -> (r: PollCycle)
        requires
            config.batch_limit >= 1,
        ensures
            r.config() == config,
            r.phase_view() == Phase::Idle,
            r.pending().len() == 0,
            r.outcomes().len() == 0,
    {
        PollCycle { config, phase: Phase::Idle, bulk: BulkWrite::new(Vec::new(), 1) }
    }

    pub fn phase(&self) -> (r: Phase)
        ensures
            r == self.phase_view(),
    {
        self.phase
    }

    /// Starts a cycle: the status document is fetched first.
    pub fn start(&mut self) -> (r: CycleAction)
        requires
            old(self).phase_view() == Phase::Idle || old(self).phase_view() == Phase::Sleeping,
        ensures
            r == CycleAction::FetchStatus(old(self).config().bootstrap_url),
            final(self).phase_view() == Phase::AwaitingStatus,
            final(self).config() == old(self).config(),
            final(self).pending() == old(self).pending(),
            final(self).outcomes() == old(self).outcomes(),
    {
        self.phase = Phase::AwaitingStatus;
        CycleAction::FetchStatus(self.config.bootstrap_url.clone())
    }

    /// Takes the parsed status document, or the failure to get it. A failure,
    /// or an empty `v3` mirror list, ends the run; otherwise the data document
    /// is fetched from one of the `v3` mirrors.
    pub fn on_status(&mut self, status: Result<VatsimStatusData, VatsimDataAPIError>) -> (r:
        CycleAction)
        requires
            old(self).phase_view() == Phase::AwaitingStatus,
        ensures
            final(self).config() == old(self).config(),
            final(self).pending() == old(self).pending(),
            final(self).outcomes() == old(self).outcomes(),
            status matches Err(e) ==> r == CycleAction::Halt(CycleError::Api(e))
                && final(self).phase_view() == Phase::Halted,
            status matches Ok(s) ==> {
                &&& s.data.v3@.len() == 0 ==> r == CycleAction::Halt(
                    CycleError::Api(VatsimDataAPIError::MissingEndpoint(EndpointCategory::V3)),
                ) && final(self).phase_view() == Phase::Halted
                &&& s.data.v3@.len() > 0 ==> (r matches CycleAction::FetchData(u)
                    && s.data.v3@.contains(u) && final(self).phase_view() == Phase::AwaitingData)
            },
    {
        match status {
            Err(e) => {
                self.phase = Phase::Halted;
                CycleAction::Halt(CycleError::Api(e))
            },
            Ok(s) => match VatsimApiUrls::new(&s) {
                Err(e) => {
                    self.phase = Phase::Halted;
                    CycleAction::Halt(CycleError::Api(e))
                },
                Ok(urls) => {
                    self.phase = Phase::AwaitingData;
                    CycleAction::FetchData(urls.data_urls.v3_url)
                },
            },
        }
    }

    /// Takes the parsed data document, or the failure to get it. A failure
    /// ends the run before anything is written; otherwise the snapshot is
    /// normalized, its pilots are planned in chunks, and the summary is written
    /// first.
    pub fn on_data(&mut self, data: Result<ParsedVatsimData, VatsimDataAPIError>) -> (r:
        CycleAction)
        requires
            old(self).phase_view() == Phase::AwaitingData,
            old(self).config().batch_limit >= 1,
        ensures
            final(self).config() == old(self).config(),
            data matches Err(e) ==> r == CycleAction::Halt(CycleError::Api(e))
                && final(self).phase_view() == Phase::Halted
                && final(self).pending() == old(self).pending()
                && final(self).outcomes() == old(self).outcomes(),
            data matches Ok(p) ==> {
                &&& r == CycleAction::PutSummary(p.general)
                &&& final(self).phase_view() == Phase::AwaitingSummary
                &&& final(self).pending().len() == chunk_count(
                    p.pilots@.len(),
                    old(self).config().batch_limit as nat,
                )
                &&& well_sized(final(self).pending(), old(self).config().batch_limit as nat)
                &&& flatten(final(self).pending()) == p.pilots@.map_values(
                    |q| enriched(q, p.general.update),
                )
                &&& forall|i: int|
                    0 <= i < flatten(final(self).pending()).len() ==> (#[trigger] flatten(
                        final(self).pending(),
                    )[i]).update == p.general.update
                &&& final(self).outcomes().len() == 0
            },
    {
        match data {
            Err(e) => {
                self.phase = Phase::Halted;
                CycleAction::Halt(CycleError::Api(e))
            },
            Ok(p) => {
                let handler = VatsimDataHandler::new(p);
                let snapshot = handler.v3_data;
                self.bulk = BulkWrite::new(snapshot.pilots, self.config.batch_limit);
                self.phase = Phase::AwaitingSummary;
                CycleAction::PutSummary(snapshot.general)
            },
        }
    }

    /// Hands out the next chunk, or ends the cycle with its outcomes.
    fn advance(&mut self) -> (r: CycleAction)
        ensures
            final(self).config() == old(self).config(),
            final(self).follows(r, old(self).pending(), old(self).outcomes()),
    {
        match self.bulk.next_chunk() {
            Some(c) => {
                self.phase = Phase::AwaitingChunk;
                CycleAction::PutChunk(c)
            },
            None => {
                let mut done = BulkWrite::new(Vec::new(), 1);
                std::mem::swap(&mut done, &mut self.bulk);
                self.phase = Phase::Sleeping;
                CycleAction::Sleep(self.config.poll_interval_seconds, done.into_outcomes())
            },
        }
    }

    /// Takes the result of the summary write. A failure ends the run, as the
    /// summary has no other path to the store; otherwise the first chunk is
    /// written.
    pub fn on_summary(&mut self, written: Result<(), VSwimDBError>) -> (r: CycleAction)
        requires
            old(self).phase_view() == Phase::AwaitingSummary,
        ensures
            final(self).config() == old(self).config(),
            written matches Err(e) ==> r == CycleAction::Halt(CycleError::Store(e))
                && final(self).phase_view() == Phase::Halted
                && final(self).pending() == old(self).pending()
                && final(self).outcomes() == old(self).outcomes(),
            written is Ok ==> final(self).follows(r, old(self).pending(), old(self).outcomes()),
    {
        match written {
            Err(e) => {
                self.phase = Phase::Halted;
                CycleAction::Halt(CycleError::Store(e))
            },
            Ok(()) => self.advance(),
        }
    }

    /// Takes the store's reply to the last chunk and records its outcome.
    /// Whatever the reply, the next chunk is written, or the cycle sleeps.
    pub fn on_chunk(&mut self, reply: Result<Vec<PilotData>, StoreFailure>) -> (r: CycleAction)
        requires
            old(self).phase_view() == Phase::AwaitingChunk,
        ensures
            final(self).config() == old(self).config(),
            final(self).follows(
                r,
                old(self).pending(),
                old(self).outcomes().push(outcome_of(reply)),
            ),
    {
        self.bulk.record(reply);
        self.advance()
    }
}

} // verus!
