use vstd::prelude::*;
use crate::address::{AddressFamily, is_address_of};
use crate::config::Config;
use crate::discover::{DiscoveryError, check_discovery_reply};
use crate::http::{Reply, is_success, success};
use crate::provider::{
    Decision,
    Outcome,
    ProviderError,
    ProviderRequest,
    decision_in,
    plan_in,
    records_query,
    resolve_zone_reply,
    write_request,
    zone_query,
    zones_url_of,
    zone_lookup_fits,
    matching_records_url_of,
    planned_write,
    plan_for,
    record_type_of,
    Plan,
    RequestView,
};
use crate::http::Method;
use crate::json::{json_of, parse_json};

verus! {

/// What ends a cycle early.
#[derive(Debug)]
pub enum CycleError {
    Discovery(DiscoveryError),
    Provider(ProviderError),
}

/// What the driver of a cycle has to do next.
#[derive(Debug)]
pub enum Action {
    /// Ask the echo service at `url` for the public address of `family`.
    Discover { family: AddressFamily, url: String },
    /// Send this request to the provider, with the account's credentials.
    Send(ProviderRequest),
    /// The cycle is over.
    Finish(Result<(), CycleError>),
}

/// How one record name and type fared in a cycle; a failure here does not end the cycle.
#[derive(Debug)]
pub struct TargetReport {
    pub host: String,
    pub family: AddressFamily,
    pub result: Result<Outcome, ProviderError>,
}

/// What the cycle waits for: an address, a zone id, a record listing, or the
/// answer to a write of the given family.
#[derive(Clone, Copy, Debug, PartialEq, Eq, Structural)]
pub enum Stage {
    DiscoverV4,
    DiscoverV6,
    Zone,
    Records(AddressFamily),
    Write(AddressFamily),
    Done,
}

/// One reconciliation cycle: discover the addresses once, then, for each host and
/// zone in order, resolve the zone and reconcile the A and AAAA records.
pub struct Cycle {
    pub config: Config,
    pub stage: Stage,
    /// The index of the host and zone being worked on.
    pub pair: usize,
    pub ipv4_address: String,
    pub ipv6_address: String,
    pub zone_id: String,
    /// The write awaiting the provider's answer.
    pub pending: Decision,
    pub reports: Vec<TargetReport>,
}

/// What the run does once a cycle is over.
#[derive(Clone, Copy, Debug, PartialEq, Eq, Structural)]
pub enum AfterCycle {
    /// Run once, and the cycle succeeded: stop with success.
    Stop,
    /// Run once, and the cycle failed: stop and report the failure.
    Fail,
    /// Repeating: wait this many seconds, then run the next cycle, whatever this one gave.
    Sleep(u64),
}

/// The step after a cycle, given the repeat interval and whether the cycle succeeded.
pub fn after_cycle(repeat_interval: u64, succeeded: bool) -> (r: AfterCycle)
    ensures
        repeat_interval == 0 && succeeded ==> r == AfterCycle::Stop,
        repeat_interval == 0 && !succeeded ==> r == AfterCycle::Fail,
        repeat_interval > 0 ==> r == AfterCycle::Sleep(repeat_interval),
{
    if repeat_interval > 0 {
        AfterCycle::Sleep(repeat_interval)
    } else if succeeded {
        AfterCycle::Stop
    } else {
        AfterCycle::Fail
    }
}

/// The address that a discovery reply gives for `family`, if it is a valid one.
pub open spec fn discovered(family: AddressFamily, reply: Reply) -> Option<Seq<char>> {
    match reply {
        Reply::Received { status, body } => if is_success(status) && is_address_of(family, body@) {
            Some(body@)
        } else {
            None
        },
        Reply::Unreachable => None,
    }
}

/// What a record listing reply calls for, if it is a 2xx record listing.
pub open spec fn listed(reply: Reply, desired: Seq<char>) -> Option<Plan> {
    match reply {
        Reply::Received { status, body } => if is_success(status) {
            plan_in(json_of(body@), desired)
        } else {
            None
        },
        Reply::Unreachable => None,
    }
}

/// The zone lookup's result as the cycle saw it: the error it ended with, or the id it kept.
pub open spec fn zone_answer(r: Action, id: String) -> Result<String, ProviderError> {
    match r {
        Action::Finish(Err(CycleError::Provider(e))) => Err(e),
        _ => Ok(id),
    }
}

/// What the answer to a write gives: the outcome of the write for a 2xx status.
pub open spec fn write_result_fits(decision: Decision, reply: Reply, r: Result<Outcome, ProviderError>) -> bool {
    match reply {
        Reply::Unreachable => r matches Err(ProviderError::Unreachable),
        Reply::Received { status, body } => if is_success(status) {
            match (decision, r) {
                (Decision::Unchanged, Ok(Outcome::Unchanged)) => true,
                (Decision::Create, Ok(Outcome::Created { record })) => record@ == body@,
                (Decision::Update { .. }, Ok(Outcome::Updated { record })) => record@ == body@,
                _ => false,
            }
        } else {
            match r {
                Err(ProviderError::HttpStatus(s)) => s == status,
                _ => false,
            }
        },
    }
}

/// What the reply to a record listing calls for, so that the name points to `desired`.
pub fn records_reply(reply: Reply, desired: &String) -> (r: Result<Decision, ProviderError>)
    ensures
        reply is Unreachable ==> r matches Err(ProviderError::Unreachable),
        reply matches Reply::Received { status, body } ==> {
            &&& !is_success(status) ==> (r matches Err(ProviderError::HttpStatus(s)) && s
                == status)
            &&& is_success(status) ==> match plan_in(json_of(body@), desired@) {
                None => r matches Err(ProviderError::MalformedResponse),
                Some(p) => match r {
                    Ok(d) => d@ == p,
                    _ => false,
                },
            }
        },
{
    match reply {
        Reply::Unreachable => Err(ProviderError::Unreachable),
        Reply::Received { status, body } => {
            if !success(status) {
                Err(ProviderError::HttpStatus(status))
            } else {
                match parse_json(body.as_str()) {
                    Some(doc) => match decision_in(&doc, desired) {
                        Some(d) => Ok(d),
                        None => Err(ProviderError::MalformedResponse),
                    },
                    None => Err(ProviderError::MalformedResponse),
                }
            }
        },
    }
}

/// How a reconciliation ends once the provider answered the write that `decision` called for.
pub fn write_outcome(decision: &Decision, reply: Reply) -> (r: Result<Outcome, ProviderError>)
    ensures
        write_result_fits(*decision, reply, r),
{
    match reply {
        Reply::Unreachable => Err(ProviderError::Unreachable),
        Reply::Received { status, body } => {
            if !success(status) {
                Err(ProviderError::HttpStatus(status))
            } else {
                match decision {
                    Decision::Unchanged => Ok(Outcome::Unchanged),
                    Decision::Create => Ok(Outcome::Created { record: body }),
                    Decision::Update { .. } => Ok(Outcome::Updated { record: body }),
                }
            }
        },
    }
}

impl Cycle {
    pub open spec fn inv(&self) -> bool {
        &&& self.config.well_formed()
        &&& self.pair < self.config.hosts.len()
        &&& (self.stage == Stage::DiscoverV6 ==> self.config.ipv6)
        &&& (self.stage == Stage::DiscoverV4 || self.stage == Stage::DiscoverV6) ==> self.pair == 0
        &&& match self.stage {
            Stage::Records(f) => self.kept(f),
            Stage::Write(f) => self.kept(f),
            _ => true,
        }
    }

    /// Whether records of `family` are kept up to date.
    pub open spec fn kept(&self, family: AddressFamily) -> bool {
        match family {
            AddressFamily::V4 => self.config.ipv4,
            AddressFamily::V6 => self.config.ipv6,
        }
    }

    /// The address discovered this cycle for `family`.
    pub open spec fn address_for(&self, family: AddressFamily) -> Seq<char> {
        match family {
            AddressFamily::V4 => self.ipv4_address@,
            AddressFamily::V6 => self.ipv6_address@,
        }
    }

    /// Where the cycle goes once the current pair is done: the next pair's zone, or the end.
    pub open spec fn next_pair_stage(&self) -> (Stage, int) {
        if self.pair + 1 < self.config.hosts.len() {
            (Stage::Zone, self.pair + 1)
        } else {
            (Stage::Done, self.pair as int)
        }
    }

    /// The first target of the current pair from `family` on: the kept families
    /// in the order A, AAAA; the next pair where none is left.
    pub open spec fn targets_from(&self, family: AddressFamily) -> (Stage, int) {
        if family == AddressFamily::V4 && self.config.ipv4 {
            (Stage::Records(AddressFamily::V4), self.pair as int)
        } else if self.config.ipv6 {
            (Stage::Records(AddressFamily::V6), self.pair as int)
        } else {
            self.next_pair_stage()
        }
    }

    /// Where the cycle goes once the target of `family` in the current pair is done.
    pub open spec fn after_target(&self, family: AddressFamily) -> (Stage, int) {
        match family {
            AddressFamily::V4 => self.targets_from(AddressFamily::V6),
            AddressFamily::V6 => self.next_pair_stage(),
        }
    }

    pub open spec fn position(&self) -> (Stage, int) {
        (self.stage, self.pair as int)
    }

    /// `r` is the action that the cycle's stage calls for: the discovery, the
    /// zone lookup of the current pair, the record listing or the planned write
    /// of the current target, or the end.
    pub open spec fn announces(&self, r: Action) -> bool {
        match self.stage {
            Stage::DiscoverV4 => match r {
                Action::Discover { family, url } => family == AddressFamily::V4 && url@
                    == self.config.ipv4_endpoint@,
                _ => false,
            },
            Stage::DiscoverV6 => match r {
                Action::Discover { family, url } => family == AddressFamily::V6 && url@
                    == self.config.ipv6_endpoint@,
                _ => false,
            },
            Stage::Zone => match r {
                Action::Send(q) => q@ == (RequestView {
                    method: Method::Get,
                    url: zones_url_of(self.config.zones@[self.pair as int]@),
                    body: None,
                }),
                _ => false,
            },
            Stage::Records(f) => match r {
                Action::Send(q) => q@ == (RequestView {
                    method: Method::Get,
                    url: matching_records_url_of(
                        self.zone_id@,
                        self.config.hosts@[self.pair as int]@,
                        record_type_of(f),
                    ),
                    body: None,
                }),
                _ => false,
            },
            Stage::Write(f) => match r {
                Action::Send(q) => q@ == planned_write(
                    self.zone_id@,
                    self.config.hosts@[self.pair as int]@,
                    f,
                    self.address_for(f),
                    self.pending@,
                ),
                _ => false,
            },
            Stage::Done => r is Finish,
        }
    }

    /// An upper bound on the replies the cycle still waits for.
    pub open spec fn remaining(&self) -> nat {
        let left = (self.config.hosts.len() - self.pair) as nat;
        match self.stage {
            Stage::DiscoverV4 => (5 * self.config.hosts.len() + 2) as nat,
            Stage::DiscoverV6 => (5 * self.config.hosts.len() + 1) as nat,
            Stage::Zone => 5 * left,
            Stage::Records(AddressFamily::V4) => (5 * left - 1) as nat,
            Stage::Write(AddressFamily::V4) => (5 * left - 2) as nat,
            Stage::Records(AddressFamily::V6) => (5 * left - 3) as nat,
            Stage::Write(AddressFamily::V6) => (5 * left - 4) as nat,
            Stage::Done => 0,
        }
    }

    /// Starts a cycle over `config`: the first action asks for the IPv4
    /// address where A records are kept, else for the IPv6 address where AAAA
    /// records are, else resolves the first zone.
    pub fn start(config: Config) -> (r: (Cycle, Action))
        requires
            config.well_formed(),
        ensures
            r.0.inv(),
            r.0.config == config,
            r.0.reports@.len() == 0,
            r.0.stage != Stage::Done,
            config.ipv4 ==> (r.1 matches Action::Discover { family, url } && family
                == AddressFamily::V4 && url@ == config.ipv4_endpoint@),
            !config.ipv4 && config.ipv6 ==> (r.1 matches Action::Discover { family, url }
                && family == AddressFamily::V6 && url@ == config.ipv6_endpoint@),
            !config.ipv4 && !config.ipv6 ==> r.1 is Send,
            config.ipv4 ==> r.0.stage == Stage::DiscoverV4,
            !config.ipv4 && config.ipv6 ==> r.0.stage == Stage::DiscoverV6,
            !config.ipv4 && !config.ipv6 ==> r.0.stage == Stage::Zone,
            r.0.pair == 0,
            r.0.announces(r.1),
    {
        let mut cycle = Cycle {
            config,
            stage: Stage::Zone,
            pair: 0,
            ipv4_address: String::new(),
            ipv6_address: String::new(),
            zone_id: String::new(),
            pending: Decision::Unchanged,
            reports: Vec::new(),
        };
        if cycle.config.ipv4 {
            cycle.stage = Stage::DiscoverV4;
            let url = cycle.config.ipv4_endpoint.clone();
            (cycle, Action::Discover { family: AddressFamily::V4, url })
        } else if cycle.config.ipv6 {
            cycle.stage = Stage::DiscoverV6;
            let url = cycle.config.ipv6_endpoint.clone();
            (cycle, Action::Discover { family: AddressFamily::V6, url })
        } else {
            let request = zone_query(cycle.config.zones[0].as_str());
            (cycle, Action::Send(request))
        }
    }

    /// Whether the cycle is over.
    pub fn is_done(&self) -> (r: bool)
        ensures
            r == (self.stage == Stage::Done),
    {
        self.stage == Stage::Done
    }

    /// The reports on each record name and type handled so far, in order.
    pub fn reports(&self) -> (r: &Vec<TargetReport>)
        ensures
            r == self.reports,
    {
        &self.reports
    }

    /// The configuration the cycle works from.
    pub fn config(&self) -> (r: &Config)
        ensures
            r == self.config,
    {
        &self.config
    }

    /// Ends the cycle and hands back its configuration and reports.
    pub fn into_parts(self) -> (r: (Config, Vec<TargetReport>))
        ensures
            r.0 == self.config,
            r.1 == self.reports,
    {
        (self.config, self.reports)
    }

    /// Moves on to the zone of the next pair, or ends the cycle after the last.
    fn next_pair(&mut self) -> (r: Action)
        requires
            old(self).config.well_formed(),
            old(self).pair < old(self).config.hosts.len(),
        ensures
            final(self).inv(),
            final(self).config == old(self).config,
            final(self).remaining() < 5 * (old(self).config.hosts.len() - old(self).pair) - 4,
            final(self).stage == Stage::Done <==> r is Finish,
            r is Finish ==> r matches Action::Finish(Ok(())),
            r is Send || r is Finish,
            final(self).reports == old(self).reports,
            old(self).pair <= final(self).pair,
            final(self).stage == Stage::Zone ==> final(self).pair == old(self).pair + 1,
            final(self).position() == old(self).next_pair_stage(),
            final(self).zone_id == old(self).zone_id,
            final(self).ipv4_address == old(self).ipv4_address,
            final(self).ipv6_address == old(self).ipv6_address,
            final(self).pending == old(self).pending,
            final(self).announces(r),
    {
        if self.pair + 1 < self.config.hosts.len() {
            self.pair = self.pair + 1;
            self.stage = Stage::Zone;
            Action::Send(zone_query(self.config.zones[self.pair].as_str()))
        } else {
            self.stage = Stage::Done;
            Action::Finish(Ok(()))
        }
    }

    /// Starts on the records of the current pair, from `family` on.
    fn records_from(&mut self, family: AddressFamily) -> (r: Action)
        requires
            old(self).config.well_formed(),
            old(self).pair < old(self).config.hosts.len(),
        ensures
            final(self).inv(),
            final(self).config == old(self).config,
            family == AddressFamily::V4 ==> final(self).remaining() < 5 * (
            old(self).config.hosts.len() - old(self).pair),
            family == AddressFamily::V6 ==> final(self).remaining() < 5 * (
            old(self).config.hosts.len() - old(self).pair) - 2,
            final(self).stage == Stage::Done <==> r is Finish,
            r is Finish ==> r matches Action::Finish(Ok(())),
            r is Send || r is Finish,
            final(self).reports == old(self).reports,
            old(self).pair <= final(self).pair,
            final(self).stage == Stage::Zone ==> final(self).pair == old(self).pair + 1,
            final(self).position() == old(self).targets_from(family),
            final(self).zone_id == old(self).zone_id,
            final(self).ipv4_address == old(self).ipv4_address,
            final(self).ipv6_address == old(self).ipv6_address,
            final(self).pending == old(self).pending,
            final(self).announces(r),
    {
        let want_v4 = family == AddressFamily::V4 && self.config.ipv4;
        if want_v4 {
            self.stage = Stage::Records(AddressFamily::V4);
            let host = self.config.hosts[self.pair].as_str();
            Action::Send(records_query(self.zone_id.as_str(), host, AddressFamily::V4))
        } else if self.config.ipv6 {
            self.stage = Stage::Records(AddressFamily::V6);
            let host = self.config.hosts[self.pair].as_str();
            Action::Send(records_query(self.zone_id.as_str(), host, AddressFamily::V6))
        } else {
            self.next_pair()
        }
    }

    /// Records how the current target fared and moves on.
    fn finish_target(&mut self, family: AddressFamily, result: Result<Outcome, ProviderError>) -> (r:
        Action)
        requires
            old(self).config.well_formed(),
            old(self).pair < old(self).config.hosts.len(),
        ensures
            final(self).inv(),
            final(self).config == old(self).config,
            family == AddressFamily::V4 ==> final(self).remaining() < 5 * (
            old(self).config.hosts.len() - old(self).pair) - 2,
            family == AddressFamily::V6 ==> final(self).remaining() < 5 * (
            old(self).config.hosts.len() - old(self).pair) - 4,
            final(self).stage == Stage::Done <==> r is Finish,
            r is Finish ==> r matches Action::Finish(Ok(())),
            r is Send || r is Finish,
            final(self).reports@ == old(self).reports@.push(
                TargetReport { host: final(self).reports@.last().host, family, result },
            ),
            old(self).pair <= final(self).pair,
            final(self).stage == Stage::Zone ==> final(self).pair == old(self).pair + 1,
            final(self).position() == old(self).after_target(family),
            final(self).zone_id == old(self).zone_id,
            final(self).ipv4_address == old(self).ipv4_address,
            final(self).ipv6_address == old(self).ipv6_address,
            final(self).pending == old(self).pending,
            final(self).announces(r),
    {
        let host = self.config.hosts[self.pair].clone();
        self.reports.push(TargetReport { host, family, result });
        match family {
            AddressFamily::V4 => self.records_from(AddressFamily::V6),
            AddressFamily::V6 => self.next_pair(),
        }
    }

    /// Takes the reply to the last action and says what to do next. A failed
    /// discovery or zone lookup ends the cycle; a failure on one record is
    /// reported and the cycle goes on.
    pub fn on_reply(&mut self, reply: Reply) -> (r: Action)
        requires
            old(self).inv(),
            old(self).stage != Stage::Done,
        ensures
            final(self).inv(),
            final(self).remaining() < old(self).remaining(),
            final(self).stage == Stage::Done <==> r is Finish,
            (old(self).stage is Records || old(self).stage is Write) ==> r matches Action::Finish(
                Ok(()),
            ) || r is Send,
            reply matches Reply::Received { status, body } ==> ((old(self).stage
                == Stage::DiscoverV4 && is_success(status) && !is_address_of(
                AddressFamily::V4,
                body@,
            )) || (old(self).stage == Stage::DiscoverV6 && is_success(status) && !is_address_of(
                AddressFamily::V6,
                body@,
            )) ==> (r matches Action::Finish(
                Err(CycleError::Discovery(DiscoveryError::InvalidAddress(b))),
            ) && b@ == body@)),
            (old(self).stage == Stage::DiscoverV4 || old(self).stage == Stage::DiscoverV6) && (
            r is Send) ==> final(self).stage == Stage::Zone && final(self).pair == 0,
            final(self).config == old(self).config,
            old(self).pair <= final(self).pair,
            reply matches Reply::Received { status, body } ==> (old(self).stage == Stage::DiscoverV4
                && is_success(status) && is_address_of(AddressFamily::V4, body@) ==> final(self).ipv4_address@ == body@ && (old(self).config.ipv6 ==> (r matches Action::Discover {
                family,
                url,
            } && family == AddressFamily::V6 && url@ == old(self).config.ipv6_endpoint@))
                && (!old(self).config.ipv6 ==> (r matches Action::Send(q) && q.url@
                == zones_url_of(old(self).config.zones[0]@)))),
            reply matches Reply::Received { status, body } ==> (old(self).stage == Stage::DiscoverV6
                && is_success(status) && is_address_of(AddressFamily::V6, body@) ==> final(self).ipv6_address@ == body@ && (r matches Action::Send(q) && q.url@ == zones_url_of(
                old(self).config.zones[0]@,
            ))),
            reply matches Reply::Received { status, body } ==> (old(self).stage == Stage::Zone
                && !is_success(status) ==> (r matches Action::Finish(
                Err(CycleError::Provider(ProviderError::HttpStatus(s))),
            ) && s == status)),
            old(self).stage is Write ==> final(self).reports@.len() == old(self).reports@.len()
                + 1,
            !(old(self).stage == Stage::DiscoverV4) ==> !(r is Discover),
            final(self).stage == Stage::Zone ==> (old(self).stage == Stage::DiscoverV4
                || old(self).stage == Stage::DiscoverV6 || final(self).pair == old(self).pair + 1),
            old(self).stage is Records ==> final(self).reports@.len() <= old(self).reports@.len()
                + 1,
            final(self).announces(r),
            final(self).stage != Stage::DiscoverV4,
            old(self).stage != Stage::Zone ==> final(self).zone_id == old(self).zone_id,
            old(self).stage != Stage::DiscoverV4 ==> final(self).ipv4_address
                == old(self).ipv4_address,
            old(self).stage != Stage::DiscoverV6 ==> final(self).ipv6_address
                == old(self).ipv6_address,
            old(self).stage == Stage::DiscoverV4 ==> match discovered(AddressFamily::V4, reply) {
                None => r matches Action::Finish(Err(CycleError::Discovery(_))),
                Some(a) => final(self).ipv4_address@ == a && final(self).pair == 0
                    && final(self).stage == if old(self).config.ipv6 {
                    Stage::DiscoverV6
                } else {
                    Stage::Zone
                },
            },
            old(self).stage == Stage::DiscoverV6 ==> match discovered(AddressFamily::V6, reply) {
                None => r matches Action::Finish(Err(CycleError::Discovery(_))),
                Some(a) => final(self).ipv6_address@ == a && final(self).pair == 0
                    && final(self).stage == Stage::Zone,
            },
            old(self).stage == Stage::Zone ==> zone_lookup_fits(
                old(self).config.zones@[old(self).pair as int]@,
                reply,
                zone_answer(r, final(self).zone_id),
            ),
            old(self).stage == Stage::Zone ==> (r matches Action::Finish(
                Err(CycleError::Provider(_)),
            ) || final(self).position() == old(self).targets_from(AddressFamily::V4)),
            old(self).stage == Stage::Zone ==> final(self).reports == old(self).reports,
            old(self).stage matches Stage::Records(f) ==> match listed(reply, old(self).address_for(f)) {
                None => final(self).reports@.len() == old(self).reports@.len() + 1
                    && final(self).reports@.last().result is Err && final(self).reports@.last().family
                    == f && final(self).position() == old(self).after_target(f),
                Some(p) => if p == Plan::Keep {
                    final(self).reports@.len() == old(self).reports@.len() + 1
                        && (final(self).reports@.last().result matches Ok(Outcome::Unchanged))
                        && final(self).reports@.last().family == f && final(self).position()
                        == old(self).after_target(f)
                } else {
                    final(self).reports == old(self).reports && final(self).position() == (
                    Stage::Write(f), old(self).pair as int) && final(self).pending@ == p
                },
            },
            old(self).stage matches Stage::Write(f) ==> final(self).reports@.len()
                == old(self).reports@.len() + 1 && final(self).reports@.last().family == f
                && write_result_fits(old(self).pending, reply, final(self).reports@.last().result)
                && final(self).position() == old(self).after_target(f),
    {
        match self.stage {
            Stage::DiscoverV4 => match check_discovery_reply(AddressFamily::V4, reply) {
                Ok(address) => {
                    self.ipv4_address = address;
                    if self.config.ipv6 {
                        self.stage = Stage::DiscoverV6;
                        let url = self.config.ipv6_endpoint.clone();
                        Action::Discover { family: AddressFamily::V6, url }
                    } else {
                        self.stage = Stage::Zone;
                        self.pair = 0;
                        Action::Send(zone_query(self.config.zones[0].as_str()))
                    }
                },
                Err(e) => {
                    self.stage = Stage::Done;
                    Action::Finish(Err(CycleError::Discovery(e)))
                },
            },
            Stage::DiscoverV6 => match check_discovery_reply(AddressFamily::V6, reply) {
                Ok(address) => {
                    self.ipv6_address = address;
                    self.stage = Stage::Zone;
                    self.pair = 0;
                    Action::Send(zone_query(self.config.zones[0].as_str()))
                },
                Err(e) => {
                    self.stage = Stage::Done;
                    Action::Finish(Err(CycleError::Discovery(e)))
                },
            },
            Stage::Zone => {
                match resolve_zone_reply(self.config.zones[self.pair].as_str(), reply) {
                    Ok(id) => {
                        self.zone_id = id;
                        self.records_from(AddressFamily::V4)
                    },
                    Err(e) => {
                        self.stage = Stage::Done;
                        Action::Finish(Err(CycleError::Provider(e)))
                    },
                }
            },
            Stage::Records(family) => {
                let desired = match family {
                    AddressFamily::V4 => self.ipv4_address.clone(),
                    AddressFamily::V6 => self.ipv6_address.clone(),
                };
                match records_reply(reply, &desired) {
                    Ok(decision) => {
                        let host = self.config.hosts[self.pair].as_str();
                        match write_request(
                            self.zone_id.as_str(),
                            host,
                            family,
                            desired.as_str(),
                            &decision,
                        ) {
                            Some(request) => {
                                self.pending = decision;
                                self.stage = Stage::Write(family);
                                Action::Send(request)
                            },
                            None => self.finish_target(family, Ok(Outcome::Unchanged)),
                        }
                    },
                    Err(e) => self.finish_target(family, Err(e)),
                }
            },
            Stage::Write(family) => {
                let result = write_outcome(&self.pending, reply);
                self.finish_target(family, result)
            },
            Stage::Done => Action::Finish(Ok(())),
        }
    }
}

/// In a cycle, only the stages of discovery ask for an address: the IPv4
/// address in the first stage alone, which no reply leads back to, and the IPv6
/// address only where AAAA records are kept. So each address is asked for at
/// most once per cycle.
pub proof fn lemma_discovery_once_per_cycle(c: Cycle, r: Action)
    requires
        c.inv(),
        c.announces(r),
        r is Discover,
    ensures
        match r {
            Action::Discover { family, .. } => (family == AddressFamily::V4 <==> c.stage
                == Stage::DiscoverV4) && (family == AddressFamily::V6 <==> (c.stage
                == Stage::DiscoverV6 && c.config.ipv6)),
            _ => false,
        },
{
}

} // verus!
