use vswim::batching::WriteOutcome;
use vswim::cycle::{CycleAction, CycleError, Phase, PollConfig, PollCycle, DEFAULT_POLL_INTERVAL_SECONDS, DYNAMO_DB_BATCH_LIMIT};
use vswim::errors::{EndpointCategory, StoreFailure, VSwimDBError, VatsimDataAPIError};
use vswim::model::{
    GeneralData, ParsedPilotData, ParsedVatsimData, PilotData, VatsimStatusData, VatsimStatusDataData,
};

const STATUS_URL: &str = "https://status.example/status.json";

fn status(v3: Vec<&str>) -> VatsimStatusData {
    VatsimStatusData {
        data: VatsimStatusDataData {
            v3: v3.into_iter().map(|s| s.to_string()).collect(),
            transceivers: vec!["https://tx.example/".to_string()],
            servers: vec!["https://servers.example/".to_string()],
        },
        user: vec!["https://user.example/".to_string()],
        metar: vec!["https://metar.example/".to_string()],
    }
}

fn pilot(cid: u32) -> ParsedPilotData {
    ParsedPilotData {
        cid,
        name: format!("Pilot {}", cid),
        callsign: format!("TST{}", cid),
        server: "EU".to_string(),
        pilot_rating: 0,
        latitude: 51.47f32.to_bits(),
        longitude: (-0.4543f32).to_bits(),
        altitude: 1000,
        groundspeed: 140,
        transponder: "7000".to_string(),
        heading: 90,
        qnh_i_hg: 29.92f32.to_bits(),
        qnh_mb: 1013,
        flight_plan: None,
        logon_time: "2024-01-01T10:00:00Z".to_string(),
        last_updated: "2024-01-01T11:59:00Z".to_string(),
    }
}

fn data(update: &str, n: u32) -> ParsedVatsimData {
    ParsedVatsimData {
        general: GeneralData {
            version: 3.0f32.to_bits(),
            reload: 1.0f32.to_bits(),
            update: update.to_string(),
            update_timestamp: "2024-01-01T12:00:00Z".to_string(),
            connected_clients: n,
            unique_users: n,
        },
        pilots: (0..n).map(pilot).collect(),
        controllers: Vec::new(),
        atis: Vec::new(),
        servers: Vec::new(),
        prefiles: Vec::new(),
        facilities: Vec::new(),
        ratings: Vec::new(),
        pilot_ratings: Vec::new(),
    }
}

fn started() -> PollCycle {
    let mut cycle = PollCycle::new(PollConfig::new(STATUS_URL.to_string()));
    assert_eq!(cycle.start(), CycleAction::FetchStatus(STATUS_URL.to_string()));
    cycle
}

fn chunk_of(action: CycleAction) -> Vec<PilotData> {
    match action {
        CycleAction::PutChunk(c) => c,
        other => panic!("expected a chunk, got {:?}", other),
    }
}

#[test]
fn config_defaults() {
    let c = PollConfig::new(STATUS_URL.to_string());
    assert_eq!(c.poll_interval_seconds, 3600);
    assert_eq!(c.batch_limit, 25);
    assert_eq!(DEFAULT_POLL_INTERVAL_SECONDS, 3600);
    assert_eq!(DYNAMO_DB_BATCH_LIMIT, 25);
}

#[test]
fn status_failure_halts() {
    let mut cycle = started();
    let e = VatsimDataAPIError::ReqwestError("connection refused".to_string());
    assert_eq!(cycle.on_status(Err(e.clone())), CycleAction::Halt(CycleError::Api(e)));
    assert_eq!(cycle.phase(), Phase::Halted);
}

#[test]
fn empty_mirror_list_halts() {
    let mut cycle = started();
    assert_eq!(
        cycle.on_status(Ok(status(vec![]))),
        CycleAction::Halt(CycleError::Api(VatsimDataAPIError::MissingEndpoint(EndpointCategory::V3)))
    );
    assert_eq!(cycle.phase(), Phase::Halted);
}

#[test]
fn empty_optional_mirror_lists_do_not_halt() {
    let mut cycle = started();
    let mut s = status(vec!["https://data.example/v3.json"]);
    s.metar.clear();
    s.data.servers.clear();
    assert_eq!(cycle.on_status(Ok(s)), CycleAction::FetchData("https://data.example/v3.json".to_string()));
    assert_eq!(cycle.phase(), Phase::AwaitingData);
}

#[test]
fn parse_failure_halts_before_any_write() {
    let mut cycle = started();
    assert_eq!(
        cycle.on_status(Ok(status(vec!["https://data.example/v3.json"]))),
        CycleAction::FetchData("https://data.example/v3.json".to_string())
    );
    let e = VatsimDataAPIError::SerdeJSONError("expected value at line 1".to_string());
    assert_eq!(cycle.on_data(Err(e.clone())), CycleAction::Halt(CycleError::Api(e)));
    assert_eq!(cycle.phase(), Phase::Halted);
}

#[test]
fn summary_failure_halts() {
    let mut cycle = started();
    cycle.on_status(Ok(status(vec!["https://data.example/v3.json"])));
    let summary = data("U1", 3).general;
    assert_eq!(cycle.on_data(Ok(data("U1", 3))), CycleAction::PutSummary(summary));
    let e = VSwimDBError::RustoPutItemError(StoreFailure::Service("denied".to_string()));
    assert_eq!(cycle.on_summary(Err(e.clone())), CycleAction::Halt(CycleError::Store(e)));
    assert_eq!(cycle.phase(), Phase::Halted);
}

#[test]
fn full_cycle_writes_every_chunk_and_sleeps() {
    let mut cycle = started();
    cycle.on_status(Ok(status(vec!["https://a.example/", "https://b.example/"])));
    assert_eq!(cycle.phase(), Phase::AwaitingData);
    match cycle.on_data(Ok(data("20240101120000Z", 57))) {
        CycleAction::PutSummary(g) => assert_eq!(g.update, "20240101120000Z"),
        other => panic!("expected the summary, got {:?}", other),
    }
    let first = chunk_of(cycle.on_summary(Ok(())));
    assert_eq!(first.len(), 25);
    assert!(first.iter().all(|p| p.update == "20240101120000Z"));
    assert_eq!(first.iter().map(|p| p.cid).collect::<Vec<u32>>(), (0..25).collect::<Vec<u32>>());
    let unprocessed: Vec<PilotData> = first[4..7].to_vec();
    let second = chunk_of(cycle.on_chunk(Ok(unprocessed.clone())));
    assert_eq!(second.len(), 25);
    assert_eq!(second[0].cid, 25);
    let refused = StoreFailure::Service("ProvisionedThroughputExceeded".to_string());
    let third = chunk_of(cycle.on_chunk(Err(refused.clone())));
    assert_eq!(third.len(), 7);
    assert_eq!(third[6].cid, 56);
    match cycle.on_chunk(Ok(Vec::new())) {
        CycleAction::Sleep(secs, outcomes) => {
            assert_eq!(secs, 3600);
            assert_eq!(
                outcomes,
                vec![
                    WriteOutcome::PartialFailure(unprocessed),
                    WriteOutcome::Rejected(refused),
                    WriteOutcome::Success,
                ]
            );
        }
        other => panic!("expected the sleep, got {:?}", other),
    }
    assert_eq!(cycle.phase(), Phase::Sleeping);
    assert_eq!(cycle.start(), CycleAction::FetchStatus(STATUS_URL.to_string()));
}

#[test]
fn cycle_without_pilots_sleeps_after_the_summary() {
    let mut cycle = started();
    cycle.on_status(Ok(status(vec!["https://a.example/"])));
    cycle.on_data(Ok(data("U0", 0)));
    assert_eq!(cycle.on_summary(Ok(())), CycleAction::Sleep(3600, Vec::new()));
}

#[test]
fn transport_failure_on_a_chunk_does_not_stop_the_next() {
    let mut cycle = started();
    cycle.on_status(Ok(status(vec!["https://a.example/"])));
    cycle.on_data(Ok(data("U2", 30)));
    chunk_of(cycle.on_summary(Ok(())));
    let next = chunk_of(cycle.on_chunk(Err(StoreFailure::Transport("timed out".to_string()))));
    assert_eq!(next.len(), 5);
}
