use vstd::prelude::*;

verus! {

// Values that the network documents as floating point are carried as the
// IEEE-754 bit pattern of the `f32` (`f32::to_bits`): the library passes them
// through unchanged and never computes with them.

/// Snapshot-level metadata of one data document.
#[derive(Clone, Debug, PartialEq)]
pub struct GeneralData {
    /// Bit pattern of the `f32` protocol version.
    pub version: u32,
    /// Bit pattern of the `f32` reload interval, in minutes.
    pub reload: u32,
    pub update: String,
    pub update_timestamp: String,
    pub connected_clients: u32,
    pub unique_users: u32,
}

/// A pilot as the data document lists it, without a timestamp of its own.
#[derive(Clone, Debug, PartialEq)]
pub struct ParsedPilotData {
    pub cid: u32,
    pub name: String,
    pub callsign: String,
    pub server: String,
    pub pilot_rating: i32,
    /// Bit pattern of the `f32` latitude.
    pub latitude: u32,
    /// Bit pattern of the `f32` longitude.
    pub longitude: u32,
    pub altitude: i32,
    pub groundspeed: i32,
    pub transponder: String,
    pub heading: u16,
    /// Bit pattern of the `f32` altimeter setting in inches of mercury.
    pub qnh_i_hg: u32,
    pub qnh_mb: i32,
    pub flight_plan: Option<FlightPlanData>,
    pub logon_time: String,
    pub last_updated: String,
}

/// A pilot record tagged with the `update` value of the snapshot it came from.
#[derive(Clone, Debug, PartialEq)]
pub struct PilotData {
    pub update: String,
    pub cid: u32,
    pub name: String,
    pub callsign: String,
    pub server: String,
    pub pilot_rating: i32,
    /// Bit pattern of the `f32` latitude.
    pub latitude: u32,
    /// Bit pattern of the `f32` longitude.
    pub longitude: u32,
    pub altitude: i32,
    pub groundspeed: i32,
    pub transponder: String,
    pub heading: u16,
    /// Bit pattern of the `f32` altimeter setting in inches of mercury.
    pub qnh_i_hg: u32,
    pub qnh_mb: i32,
    pub flight_plan: Option<FlightPlanData>,
    pub logon_time: String,
    pub last_updated: String,
}

#[derive(Clone, Debug, PartialEq)]
pub struct FlightPlanData {
    pub flight_rules: String,
    pub aircraft: String,
    pub aircraft_faa: String,
    pub aircraft_short: String,
    pub departure: String,
    pub arrival: String,
    pub alternate: String,
    pub cruise_tas: String,
    pub altitude: String,
    pub deptime: String,
    pub enroute_time: String,
    pub fuel_time: String,
    pub remarks: String,
    pub route: String,
}

#[derive(Clone, Debug, PartialEq)]
pub struct ControllerData {
    pub cid: u32,
    pub name: String,
    pub callsign: String,
    pub frequency: String,
    pub facility: i32,
    pub rating: i32,
    pub server: String,
    pub visual_range: i32,
    pub text_atis: Option<Vec<String>>,
    pub last_updated: String,
    pub logon_time: String,
}

#[derive(Clone, Debug, PartialEq)]
pub struct AtisData {
    pub cid: u32,
    pub name: String,
    pub callsign: String,
    pub frequency: String,
    pub facility: i32,
    pub rating: i32,
    pub server: String,
    pub visual_range: i32,
    pub atis_code: Option<String>,
    pub text_atis: Option<Vec<String>>,
    pub last_updated: String,
    pub logon_time: String,
}

#[derive(Clone, Debug, PartialEq)]
pub struct ServerData {
    pub ident: String,
    pub hostname_or_ip: String,
    pub location: String,
    pub name: String,
    pub clients_connection_allowed: i32,
}

#[derive(Clone, Debug, PartialEq)]
pub struct PrefileData {
    pub cid: u32,
    pub name: String,
    pub callsign: String,
    pub flight_plan: Option<FlightPlanData>,
    pub last_updated: String,
}

#[derive(Clone, Debug, PartialEq)]
pub struct FacilitiesData {
    pub id: i32,
    pub short: String,
    pub long: String,
}

#[derive(Clone, Debug, PartialEq)]
pub struct RatingsData {
    pub id: i32,
    pub short: String,
    pub long: String,
}

#[derive(Clone, Debug, PartialEq)]
pub struct PilotRatingsData {
    pub id: i32,
    pub short: Option<String>,
    pub long: Option<String>,
}

/// The data document as parsed, before pilots are tagged.
#[derive(Clone, Debug, PartialEq)]
pub struct ParsedVatsimData {
    pub general: GeneralData,
    pub pilots: Vec<ParsedPilotData>,
    pub controllers: Vec<ControllerData>,
    pub atis: Vec<AtisData>,
    pub servers: Vec<ServerData>,
    pub prefiles: Vec<PrefileData>,
    pub facilities: Vec<FacilitiesData>,
    pub ratings: Vec<RatingsData>,
    pub pilot_ratings: Vec<PilotRatingsData>,
}

/// One snapshot of the network: the summary and the enriched records.
#[derive(Clone, Debug, PartialEq)]
pub struct VatsimData {
    pub update: String,
    pub general: GeneralData,
    pub pilots: Vec<PilotData>,
    pub controllers: Vec<ControllerData>,
    pub atis: Vec<AtisData>,
    pub servers: Vec<ServerData>,
    pub prefiles: Vec<PrefileData>,
    pub facilities: Vec<FacilitiesData>,
    pub ratings: Vec<RatingsData>,
    pub pilot_ratings: Vec<PilotRatingsData>,
}

/// Mirror lists of the status document's `data` section.
#[derive(Clone, Debug, PartialEq)]
pub struct VatsimStatusDataData {
    pub v3: Vec<String>,
    pub transceivers: Vec<String>,
    pub servers: Vec<String>,
}

/// The bootstrap status document: candidate URLs for each category.
#[derive(Clone, Debug, PartialEq)]
pub struct VatsimStatusData {
    pub data: VatsimStatusDataData,
    pub user: Vec<String>,
    pub metar: Vec<String>,
}

/// `p` tagged with `update`, every other field kept.
pub open spec fn enriched(p: ParsedPilotData, update: String) -> PilotData {
    PilotData {
        update,
        cid: p.cid,
        name: p.name,
        callsign: p.callsign,
        server: p.server,
        pilot_rating: p.pilot_rating,
        latitude: p.latitude,
        longitude: p.longitude,
        altitude: p.altitude,
        groundspeed: p.groundspeed,
        transponder: p.transponder,
        heading: p.heading,
        qnh_i_hg: p.qnh_i_hg,
        qnh_mb: p.qnh_mb,
        flight_plan: p.flight_plan,
        logon_time: p.logon_time,
        last_updated: p.last_updated,
    }
}

/// `data` is the snapshot that `parsed` normalizes to: every pilot tagged
/// with the summary's `update` value, in order, and every other category as
/// it was parsed.
pub open spec fn normalizes(parsed: ParsedVatsimData, data: VatsimData) -> bool {
    &&& data.update == parsed.general.update
    &&& data.general == parsed.general
    &&& data.pilots@ == parsed.pilots@.map_values(
        |p: ParsedPilotData| enriched(p, parsed.general.update),
    )
    &&& data.controllers == parsed.controllers
    &&& data.atis == parsed.atis
    &&& data.servers == parsed.servers
    &&& data.prefiles == parsed.prefiles
    &&& data.facilities == parsed.facilities
    &&& data.ratings == parsed.ratings
    &&& data.pilot_ratings == parsed.pilot_ratings
}

/// Every pilot record of `data` carries the summary's `update` value.
pub open spec fn correlated(data: VatsimData) -> bool {
    &&& data.update == data.general.update
    &&& forall|i: int| 0 <= i < data.pilots@.len() ==> #[trigger] data.pilots@[i].update
        == data.general.update
}

impl ParsedPilotData {
    /// Tags the pilot with the snapshot's `update` value.
    pub fn convert(self, update: String) -> (r: PilotData)
        ensures
            r == enriched(self, update),
    {
        PilotData {
            update,
            cid: self.cid,
            name: self.name,
            callsign: self.callsign,
            server: self.server,
            pilot_rating: self.pilot_rating,
            latitude: self.latitude,
            longitude: self.longitude,
            altitude: self.altitude,
            groundspeed: self.groundspeed,
            transponder: self.transponder,
            heading: self.heading,
            qnh_i_hg: self.qnh_i_hg,
            qnh_mb: self.qnh_mb,
            flight_plan: self.flight_plan,
            logon_time: self.logon_time,
            last_updated: self.last_updated,
        }
    }
}

impl ParsedVatsimData {
    /// Builds the snapshot: every pilot is tagged with `general.update`, in
    /// order; the other categories pass through unchanged.
    pub fn convert(self) -> (r: VatsimData)
        ensures
            r.update == self.general.update,
            r.general == self.general,
            r.pilots@ == self.pilots@.map_values(|p: ParsedPilotData| enriched(p, self.general.update)),
            r.controllers == self.controllers,
            r.atis == self.atis,
            r.servers == self.servers,
            r.prefiles == self.prefiles,
            r.facilities == self.facilities,
            r.ratings == self.ratings,
            r.pilot_ratings == self.pilot_ratings,
            normalizes(self, r),
            correlated(r),
    {
        let ghost source = self.pilots@;
        let ghost tag = self.general.update;
        let mut parsed = self.pilots;
        let mut pilots: Vec<PilotData> = Vec::new();
        let n: usize = parsed.len();
        let mut i: usize = 0;
        while parsed.len() > 0
            invariant
                source.len() == n,
                i + parsed@.len() == source.len(),
                parsed@ == source.subrange(i as int, source.len() as int),
                pilots@ == source.subrange(0, i as int).map_values(|p: ParsedPilotData| enriched(p, tag)),
                self.general.update == tag,
            decreases parsed@.len(),
        {
            let p = parsed.remove(0);
            pilots.push(p.convert(self.general.update.clone()));
            i = i + 1;
            proof {
                assert(parsed@ =~= source.subrange(i as int, source.len() as int));
                assert(pilots@ =~= source.subrange(0, i as int).map_values(
                    |p: ParsedPilotData| enriched(p, tag),
                ));
            }
        }
        proof {
            assert(source.subrange(0, i as int) =~= source);
        }
        let update = self.general.update.clone();
        VatsimData {
            update,
            general: self.general,
            pilots,
            controllers: self.controllers,
            atis: self.atis,
            servers: self.servers,
            prefiles: self.prefiles,
            facilities: self.facilities,
            ratings: self.ratings,
            pilot_ratings: self.pilot_ratings,
        }
    }
}

} // verus!
