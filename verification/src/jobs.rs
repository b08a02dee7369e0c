//! The jobs a node keeps for keys whose object it has asked for.

use vstd::prelude::*;
use vstd::string::StringExecFns;
use crate::text::{append_decimal, decimal_text};
use crate::peers::{multiaddr_text, multiaddr_to_text, peer_id_text, peer_id_to_text};
use dashmap::DashMap;
use libp2p::{Multiaddr, PeerId};
use crate::errors::{DirectorySpecificErrors, DirectorySpecificErrorsView};

verus! {

/// How far the search for the direction of an object has come.
#[derive(Clone, Copy)]
pub enum SearchingJobState {
    AskingPeers { peers_asked: usize, negative_responses: usize },
    AskingGossip,
    Unknown,
}

/// The state of a request for an object.
pub enum RequestJobState {
    Waiting,
    Finished,
    SearchingDirection(SearchingJobState),
    Failed(DirectorySpecificErrors),
}

/// The mathematical form of a `RequestJobState`.
pub enum RequestJobStateView {
    Waiting,
    Finished,
    SearchingDirection(SearchingJobState),
    Failed(DirectorySpecificErrorsView),
}

impl View for RequestJobState {
    type V = RequestJobStateView;

    open spec fn view(&self) -> RequestJobStateView {
        match self {
            RequestJobState::Waiting => RequestJobStateView::Waiting,
            RequestJobState::Finished => RequestJobStateView::Finished,
            RequestJobState::SearchingDirection(s) => RequestJobStateView::SearchingDirection(*s),
            RequestJobState::Failed(e) => RequestJobStateView::Failed(e@),
        }
    }
}

impl Clone for RequestJobState {
    fn clone(&self) -> (r: Self)
        ensures
            r@ == self@,
    {
        match self {
            RequestJobState::Waiting => RequestJobState::Waiting,
            RequestJobState::Finished => RequestJobState::Finished,
            RequestJobState::SearchingDirection(s) => RequestJobState::SearchingDirection(*s),
            RequestJobState::Failed(e) => RequestJobState::Failed(e.clone()),
        }
    }
}

/// Who asked a node for an object it was itself still waiting for: the
/// address of the requester and the peer the request came through last.
pub struct WithRequestInfo {
    pub requester: Multiaddr,
    pub last_peer: PeerId,
}

/// A request for an object, with the request that arrived meanwhile, if any.
pub struct RequestJob {
    pub state: RequestJobState,
    pub with_request_info: Option<WithRequestInfo>,
}

impl Clone for WithRequestInfo {
    fn clone(&self) -> (r: Self)
        ensures
            r == *self,
    {
        WithRequestInfo { requester: self.requester.clone(), last_peer: self.last_peer }
    }
}

impl Clone for RequestJob {
    fn clone(&self) -> (r: Self)
        ensures
            r@ == self@,
    {
        let with_request_info = match &self.with_request_info {
            Some(info) => Some(info.clone()),
            None => None,
        };
        RequestJob { state: self.state.clone(), with_request_info }
    }
}

/// The mathematical form of a `RequestJob`.
pub struct RequestJobView {
    pub state: RequestJobStateView,
    pub with_request_info: Option<WithRequestInfo>,
}

impl View for RequestJob {
    type V = RequestJobView;

    open spec fn view(&self) -> RequestJobView {
        RequestJobView { state: self.state@, with_request_info: self.with_request_info }
    }
}

/// The text of a search state.
pub open spec fn searching_text(s: SearchingJobState) -> Seq<char> {
    match s {
        SearchingJobState::Unknown => "Unknown"@,
        SearchingJobState::AskingPeers { peers_asked, negative_responses } => "AskingPeers(peers_asked: "@
            + decimal_text(peers_asked as nat) + ", negative_responses: "@ + decimal_text(negative_responses as nat) + ")"@,
        SearchingJobState::AskingGossip => "AskingGossip"@,
    }
}

/// The text of a request state.
pub open spec fn request_state_text(s: RequestJobStateView) -> Seq<char> {
    match s {
        RequestJobStateView::Waiting => "Waiting"@,
        RequestJobStateView::Finished => "Finished"@,
        RequestJobStateView::Failed(_) => "Failed"@,
        RequestJobStateView::SearchingDirection(a) => "SearchingDirection("@ + searching_text(a) + ")"@,
    }
}

impl SearchingJobState {
    /// The text shown for this state.
    pub fn to_string(&self) -> (r: String)
        ensures
            r@ == searching_text(*self),
    {
        match self {
            SearchingJobState::Unknown => String::from_str("Unknown"),
            SearchingJobState::AskingPeers { peers_asked, negative_responses } => {
                let mut s = String::from_str("AskingPeers(peers_asked: ");
                append_decimal(&mut s, *peers_asked as u64);
                s.append(", negative_responses: ");
                append_decimal(&mut s, *negative_responses as u64);
                s.append(")");
                assert(s@ =~= searching_text(*self));
                s
            },
            SearchingJobState::AskingGossip => String::from_str("AskingGossip"),
        }
    }
}

impl RequestJobState {
    /// The text shown for this state.
    pub fn to_string(&self) -> (r: String)
        ensures
            r@ == request_state_text(self@),
    {
        match self {
            RequestJobState::Waiting => String::from_str("Waiting"),
            RequestJobState::Finished => String::from_str("Finished"),
            RequestJobState::Failed(_) => String::from_str("Failed"),
            RequestJobState::SearchingDirection(a) => {
                let mut s = String::from_str("SearchingDirection(");
                s.append(a.to_string().as_str());
                s.append(")");
                assert(s@ =~= request_state_text(self@));
                s
            },
        }
    }
}

/// The text of the request recorded in a job.
pub open spec fn request_info_text(info: WithRequestInfo) -> Seq<char> {
    "Requester "@ + multiaddr_text(info.requester) + ". Last Peer "@ + peer_id_text(info.last_peer)
}

/// The text of a job.
pub open spec fn job_text(job: RequestJobView) -> Seq<char> {
    "State: "@ + request_state_text(job.state) + ". "@ + match job.with_request_info {
        Some(info) => request_info_text(info),
        None => "No Request Info"@,
    }
}

impl WithRequestInfo {
    /// The text shown for this request.
    pub fn to_string(&self) -> (r: String)
        ensures
            r@ == request_info_text(*self),
    {
        let mut s = String::from_str("Requester ");
        s.append(multiaddr_to_text(&self.requester).as_str());
        s.append(". Last Peer ");
        s.append(peer_id_to_text(&self.last_peer).as_str());
        assert(s@ =~= request_info_text(*self));
        s
    }
}

impl RequestJob {
    /// The text shown for this job.
    pub fn to_string(&self) -> (r: String)
        ensures
            r@ == job_text(self@),
    {
        let with_request = match &self.with_request_info {
            Some(info) => info.to_string(),
            None => String::from_str("No Request Info"),
        };
        let mut s = String::from_str("State: ");
        s.append(self.state.to_string().as_str());
        s.append(". ");
        s.append(with_request.as_str());
        assert(s@ =~= job_text(self@));
        s
    }
}

#[verifier::external_type_specification]
#[verifier::external_body]
#[verifier::reject_recursive_types(K)]
#[verifier::reject_recursive_types(V)]
#[verifier::reject_recursive_types(S)]
pub struct ExDashMap<K, V, S>(DashMap<K, V, S>);

/// A concurrent map of jobs by key.
pub type JobMap = DashMap<Vec<u8>, RequestJob>;

/// The jobs that a `DashMap` of jobs holds, by key.
pub uninterp spec fn job_table(m: JobMap) -> Map<Seq<u8>, RequestJobView>;

/// The jobs of a node, one per key at most.
pub struct RequestJobManager {
    jobs: JobMap,
}

impl View for RequestJobManager {
    type V = Map<Seq<u8>, RequestJobView>;

    closed spec fn view(&self) -> Map<Seq<u8>, RequestJobView> {
        job_table(self.jobs)
    }
}

/// `DashMap::new`: a map with no entries.
#[verifier::external_body]
fn job_map_new() -> (r: JobMap)
    ensures
        job_table(r) =~= Map::empty(),
{
    DashMap::new()
}

/// `DashMap::view`, handing it the job's `clone`: a copy of the job for the key.
#[verifier::external_body]
fn job_map_get(m: &JobMap, key: &[u8]) -> (r: Option<RequestJob>)
    ensures
        match r {
            Some(job) => job_table(*m).contains_key(key@) && job@ == job_table(*m)[key@],
            None => !job_table(*m).contains_key(key@),
        },
{
    m.view(key, |_, job| job.clone())
}

/// `DashMap::insert`: the key now maps to `job`; the job it replaced is returned.
#[verifier::external_body]
fn job_map_insert(m: &mut JobMap, key: Vec<u8>, job: RequestJob) -> (r: Option<RequestJob>)
    ensures
        job_table(*final(m)) == job_table(*old(m)).insert(key@, job@),
        match r {
            Some(previous) => job_table(*old(m)).contains_key(key@) && previous@ == job_table(*old(m))[key@],
            None => !job_table(*old(m)).contains_key(key@),
        },
{
    m.insert(key, job)
}

/// `DashMap::remove`: the key no longer maps to a job; the removed entry is returned.
#[verifier::external_body]
fn job_map_remove(m: &mut JobMap, key: &[u8]) -> (r: Option<(Vec<u8>, RequestJob)>)
    ensures
        job_table(*final(m)) == job_table(*old(m)).remove(key@),
        match r {
            Some(entry) => job_table(*old(m)).contains_key(key@) && entry.0@ == key@
                && entry.1@ == job_table(*old(m))[key@],
            None => !job_table(*old(m)).contains_key(key@),
        },
{
    m.remove(key)
}

/// `DashMap::len`: the number of entries.
#[verifier::external_body]
fn job_map_len(m: &JobMap) -> (r: usize)
    ensures
        r == job_table(*m).len(),
{
    m.len()
}

impl RequestJobManager {
    /// The number of jobs.
    pub fn len(&self) -> (r: usize)
        ensures
            r == self@.len(),
    {
        job_map_len(&self.jobs)
    }

    /// A manager with no jobs.
    pub fn new() -> (r: RequestJobManager)
        ensures
            r@ == Map::<Seq<u8>, RequestJobView>::empty(),
    {
        RequestJobManager { jobs: job_map_new() }
    }

    /// The job for `key`, if any.
    pub fn get(&self, key: &[u8]) -> (r: Option<RequestJob>)
        ensures
            match r {
                Some(job) => self@.contains_key(key@) && job@ == self@[key@],
                None => !self@.contains_key(key@),
            },
    {
        job_map_get(&self.jobs, key)
    }

    /// Sets the job for `key`, returning the job it replaced.
    pub fn insert(&mut self, key: Vec<u8>, job: RequestJob) -> (r: Option<RequestJob>)
        ensures
            final(self)@ == old(self)@.insert(key@, job@),
            match r {
                Some(previous) => old(self)@.contains_key(key@) && previous@ == old(self)@[key@],
                None => !old(self)@.contains_key(key@),
            },
    {
        job_map_insert(&mut self.jobs, key, job)
    }

    /// Drops the job for `key`, returning it.
    pub fn remove(&mut self, key: &[u8]) -> (r: Option<RequestJob>)
        ensures
            final(self)@ == old(self)@.remove(key@),
            match r {
                Some(job) => old(self)@.contains_key(key@) && job@ == old(self)@[key@],
                None => !old(self)@.contains_key(key@),
            },
    {
        match job_map_remove(&mut self.jobs, key) {
            Some((_, job)) => Some(job),
            None => None,
        }
    }
}

} // verus!
