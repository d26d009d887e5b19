use vstd::prelude::*;

use crate::config::Config;
use crate::messaging::{
    AppendEntriesRequest, AppendEntriesResponse, RequestVoteRequest, RequestVoteResponse,
};

verus! {

#[derive(Clone, Copy, Debug, PartialEq, Eq, Structural)]
pub enum Role {
    Follower,
    Candidate,
    Leader,
}

/// The election state of one node. `tick` grows on every transition, so that
/// deferred work captured under an older tick can tell it has been superseded.
#[derive(Clone, Copy, Debug, PartialEq, Eq, Structural)]
pub struct State {
    pub role: Role,
    pub tick: u64,
    pub term: u64,
    pub vote_count: u32,
    pub vote_threshold: u32,
}

/// What the node must do, outside the lock, after a transition.
#[derive(Clone, Copy, Debug, PartialEq, Eq, Structural)]
pub enum Followup {
    Nothing,
    /// Ask every peer for a vote at `term`, and start an election watchdog for `tick`.
    Campaign { tick: u64, term: u64 },
    /// Start an election watchdog for `tick`.
    WatchElection { tick: u64 },
    /// Start a heartbeat watchdog for `tick`.
    WatchHeartbeat { tick: u64 },
    /// Send heartbeats at `term` for as long as the node leads under `tick`.
    Lead { tick: u64, term: u64 },
}

/// What can happen to a node: a watchdog that captured `expected_tick` expires,
/// or a message arrives, of which only the fields that decide are kept.
pub enum Event {
    HeartbeatTimeout { expected_tick: u64 },
    ElectionTimeout { expected_tick: u64 },
    VoteRequest { term: u64 },
    VoteResponse { term: u64, granted: bool },
    AppendRequest { term: u64 },
    AppendResponse { term: u64, success: bool },
}

impl State {
    /// A candidate holds fewer grants than it needs, unless it holds none yet.
    pub open spec fn wf(self) -> bool {
        self.role == Role::Candidate ==> (self.vote_count < self.vote_threshold
            || self.vote_count == 0)
    }

    /// The counters can take the transition that `e` may cause without wrapping.
    pub open spec fn can_take(self, e: Event) -> bool {
        &&& self.tick < u64::MAX
        &&& match e {
            Event::HeartbeatTimeout { .. } => self.term < u64::MAX,
            Event::ElectionTimeout { .. } => self.term < u64::MAX,
            Event::AppendRequest { .. } => self.term < u64::MAX,
            _ => true,
        }
    }

    /// A new candidacy at the next term, with no grants yet.
    pub open spec fn campaigning(self) -> State {
        State {
            role: Role::Candidate,
            term: (self.term + 1) as u64,
            vote_count: 0,
            tick: (self.tick + 1) as u64,
            ..self
        }
    }

    /// The node follows at `term`.
    pub open spec fn following(self, term: u64) -> State {
        State { role: Role::Follower, term, tick: (self.tick + 1) as u64, ..self }
    }

    /// The state after `e`.
    pub open spec fn after(self, e: Event) -> State {
        match e {
            Event::HeartbeatTimeout { expected_tick } => {
                if self.tick == expected_tick && self.role == Role::Follower {
                    self.campaigning()
                } else {
                    self
                }
            },
            Event::ElectionTimeout { expected_tick } => {
                if self.tick == expected_tick && self.role == Role::Candidate {
                    self.campaigning()
                } else {
                    self
                }
            },
            Event::VoteRequest { term } => {
                if term > self.term {
                    self.following(term)
                } else {
                    self
                }
            },
            Event::VoteResponse { term, granted } => {
                if self.role != Role::Candidate {
                    self
                } else if granted {
                    let votes = (self.vote_count + 1) as u32;
                    if votes >= self.vote_threshold {
                        State {
                            role: Role::Leader,
                            vote_count: votes,
                            tick: (self.tick + 1) as u64,
                            ..self
                        }
                    } else {
                        State { vote_count: votes, ..self }
                    }
                } else if term > self.term {
                    State { term, tick: (self.tick + 1) as u64, ..self }
                } else {
                    self
                }
            },
            Event::AppendRequest { term } => {
                if term < self.term {
                    self
                } else if term == self.term && self.role == Role::Leader {
                    self.campaigning()
                } else {
                    self.following(term)
                }
            },
            Event::AppendResponse { term, success } => {
                if self.role == Role::Leader && !success && term > self.term {
                    self.following(term)
                } else {
                    self
                }
            },
        }
    }

    /// The work that `e` leaves to be done.
    pub open spec fn followup(self, e: Event) -> Followup {
        let n = self.after(e);
        match e {
            Event::HeartbeatTimeout { .. } | Event::ElectionTimeout { .. } => {
                if n != self {
                    Followup::Campaign { tick: n.tick, term: n.term }
                } else {
                    Followup::Nothing
                }
            },
            Event::VoteRequest { .. } => {
                if n != self {
                    Followup::WatchElection { tick: n.tick }
                } else {
                    Followup::Nothing
                }
            },
            Event::VoteResponse { .. } => {
                if n.role == Role::Leader && self.role == Role::Candidate {
                    Followup::Lead { tick: n.tick, term: n.term }
                } else if n.tick != self.tick {
                    Followup::WatchElection { tick: n.tick }
                } else {
                    Followup::Nothing
                }
            },
            Event::AppendRequest { .. } => {
                if n == self {
                    Followup::Nothing
                } else if n.role == Role::Candidate {
                    Followup::Campaign { tick: n.tick, term: n.term }
                } else {
                    Followup::WatchHeartbeat { tick: n.tick }
                }
            },
            Event::AppendResponse { .. } => {
                if n != self {
                    Followup::WatchHeartbeat { tick: n.tick }
                } else {
                    Followup::Nothing
                }
            },
        }
    }
}

impl State {
    /// A follower at term 0 whose vote threshold is half the number of peers,
    /// rounded down: this node's own vote is counted apart.
    pub fn new(config: &Config) -> (r: State)
        requires
            config.peer_uris@.len() / 2 <= u32::MAX,
        ensures
            r.wf(),
            r.role == Role::Follower,
            r.tick == 0,
            r.term == 0,
            r.vote_count == 0,
            r.vote_threshold == config.peer_uris@.len() / 2,
    {
        let mut state = State::default();
        state.vote_threshold = (config.peer_uris.len() / 2) as u32;
        state
    }

    /// The node still leads under `tick`: heartbeats sent for it are current.
    pub fn still_leading(&self, tick: u64) -> (r: bool)
        ensures
            r == (self.role == Role::Leader && self.tick == tick),
    {
        self.role == Role::Leader && self.tick == tick
    }

    fn campaign(&mut self) -> (r: Followup)
        requires
            old(self).tick < u64::MAX,
            old(self).term < u64::MAX,
        ensures
            *final(self) == old(self).campaigning(),
            r == (Followup::Campaign { tick: final(self).tick, term: final(self).term }),
    {
        self.role = Role::Candidate;
        self.term = self.term + 1;
        self.vote_count = 0;
        self.tick = self.tick + 1;
        Followup::Campaign { tick: self.tick, term: self.term }
    }

    fn follow(&mut self, term: u64)
        requires
            old(self).tick < u64::MAX,
        ensures
            *final(self) == old(self).following(term),
    {
        self.role = Role::Follower;
        self.term = term;
        self.tick = self.tick + 1;
    }

    /// The heartbeat watchdog captured under `expected_tick` has expired: a
    /// follower that heard nothing since becomes a candidate at the next term.
    pub fn heartbeat_timed_out(&mut self, expected_tick: u64) -> (r: Followup)
        requires
            old(self).wf(),
            old(self).can_take(Event::HeartbeatTimeout { expected_tick }),
        ensures
            final(self).wf(),
            *final(self) == old(self).after(Event::HeartbeatTimeout { expected_tick }),
            r == old(self).followup(Event::HeartbeatTimeout { expected_tick }),
    {
        if self.tick != expected_tick || self.role != Role::Follower {
            return Followup::Nothing;
        }
        self.campaign()
    }

    /// The election watchdog captured under `expected_tick` has expired: a
    /// candidate whose election has not concluded runs again at the next term.
    pub fn election_timed_out(&mut self, expected_tick: u64) -> (r: Followup)
        requires
            old(self).wf(),
            old(self).can_take(Event::ElectionTimeout { expected_tick }),
        ensures
            final(self).wf(),
            *final(self) == old(self).after(Event::ElectionTimeout { expected_tick }),
            r == old(self).followup(Event::ElectionTimeout { expected_tick }),
    {
        if self.tick != expected_tick || self.role != Role::Candidate {
            return Followup::Nothing;
        }
        self.campaign()
    }

    /// A vote is granted to a request of a higher term, and the node follows
    /// at that term; any other request is denied with the node's term. A
    /// granted response carries term 0.
    pub fn receive_request_vote_request(&mut self, request: &RequestVoteRequest) -> (r: (
        RequestVoteResponse,
        Followup,
    ))
        requires
            old(self).wf(),
            old(self).can_take(Event::VoteRequest { term: request.term }),
        ensures
            final(self).wf(),
            *final(self) == old(self).after(Event::VoteRequest { term: request.term }),
            r.1 == old(self).followup(Event::VoteRequest { term: request.term }),
            r.0 == (if request.term > old(self).term {
                RequestVoteResponse { term: 0, granted: true }
            } else {
                RequestVoteResponse { term: old(self).term, granted: false }
            }),
    {
        if request.term > self.term {
            self.follow(request.term);
            (RequestVoteResponse { term: 0, granted: true }, Followup::WatchElection { tick: self.tick })
        } else {
            (RequestVoteResponse { term: self.term, granted: false }, Followup::Nothing)
        }
    }

    /// A candidate counts a grant and leads once it holds the threshold; a
    /// denial of a higher term makes it adopt that term and restart its
    /// election watchdog. Any other node ignores the response.
    pub fn receive_request_vote_response(&mut self, response: &RequestVoteResponse) -> (r:
        Followup)
        requires
            old(self).wf(),
            old(self).can_take(
                Event::VoteResponse { term: response.term, granted: response.granted },
            ),
        ensures
            final(self).wf(),
            *final(self) == old(self).after(
                Event::VoteResponse { term: response.term, granted: response.granted },
            ),
            r == old(self).followup(
                Event::VoteResponse { term: response.term, granted: response.granted },
            ),
    {
        if self.role != Role::Candidate {
            return Followup::Nothing;
        }
        if response.granted {
            self.vote_count = self.vote_count + 1;
            if self.vote_count >= self.vote_threshold {
                self.role = Role::Leader;
                self.tick = self.tick + 1;
                return Followup::Lead { tick: self.tick, term: self.term };
            }
            Followup::Nothing
        } else if response.term > self.term {
            self.term = response.term;
            self.tick = self.tick + 1;
            Followup::WatchElection { tick: self.tick }
        } else {
            Followup::Nothing
        }
    }

    /// A request of a lower term is refused with the node's term. A leader
    /// contacted by another of its own term refuses too, and campaigns at the
    /// next term. Any other request is a valid leader's: the node follows at
    /// its term and answers with success and term 0.
    pub fn receive_append_entries_request(&mut self, request: &AppendEntriesRequest) -> (r: (
        AppendEntriesResponse,
        Followup,
    ))
        requires
            old(self).wf(),
            old(self).can_take(Event::AppendRequest { term: request.term }),
        ensures
            final(self).wf(),
            *final(self) == old(self).after(Event::AppendRequest { term: request.term }),
            r.1 == old(self).followup(Event::AppendRequest { term: request.term }),
            r.0 == (if request.term < old(self).term || (request.term == old(self).term
                && old(self).role == Role::Leader) {
                AppendEntriesResponse { term: old(self).term, success: false }
            } else {
                AppendEntriesResponse { term: 0, success: true }
            }),
    {
        if request.term < self.term {
            return (AppendEntriesResponse { term: self.term, success: false }, Followup::Nothing);
        }
        if request.term == self.term && self.role == Role::Leader {
            let response = AppendEntriesResponse { term: self.term, success: false };
            let next = self.campaign();
            (response, next)
        } else {
            self.follow(request.term);
            (AppendEntriesResponse { term: 0, success: true }, Followup::WatchHeartbeat { tick: self.tick })
        }
    }

    /// A leader refused by a peer of a higher term steps down and follows at
    /// that term. Any other response changes nothing.
    pub fn receive_append_entries_response(&mut self, response: &AppendEntriesResponse) -> (r:
        Followup)
        requires
            old(self).wf(),
            old(self).can_take(
                Event::AppendResponse { term: response.term, success: response.success },
            ),
        ensures
            final(self).wf(),
            *final(self) == old(self).after(
                Event::AppendResponse { term: response.term, success: response.success },
            ),
            r == old(self).followup(
                Event::AppendResponse { term: response.term, success: response.success },
            ),
    {
        if self.role != Role::Leader {
            return Followup::Nothing;
        }
        if !response.success && response.term > self.term {
            self.follow(response.term);
            Followup::WatchHeartbeat { tick: self.tick }
        } else {
            Followup::Nothing
        }
    }
}

impl Default for State {
    fn default() -> (r: State)
        ensures
            r == (State {
                role: Role::Follower,
                tick: 0,
                term: 0,
                vote_count: 0,
                vote_threshold: 0,
            }),
    {
        State { role: Role::Follower, tick: 0, term: 0, vote_count: 0, vote_threshold: 0 }
    }
}

} // verus!
