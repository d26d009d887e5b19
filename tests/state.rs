use barge::messaging::{
    AppendEntriesRequest, AppendEntriesResponse, RequestVoteRequest, RequestVoteResponse,
};
use barge::state::{Followup, Role, State};
use barge::Config;

fn node(role: Role, term: u64, tick: u64) -> State {
    State { role, tick, term, vote_count: 0, vote_threshold: 1 }
}

fn vote_request(term: u64) -> RequestVoteRequest {
    RequestVoteRequest {
        term,
        candidate_id: "b".to_string(),
        last_log_index: 0,
        last_log_term: 0,
    }
}

fn append_request(term: u64) -> AppendEntriesRequest {
    AppendEntriesRequest {
        term,
        leader_id: "b".to_string(),
        prev_log_index: 0,
        prev_log_term: 0,
        entries: Vec::new(),
        leader_commit: 0,
    }
}

#[test]
fn new_state_follows_with_half_the_peers_as_threshold() {
    let mut c = Config::new();
    c.peer_uris = vec!["a".into(), "b".into(), "c".into(), "d".into()];
    let s = State::new(&c);
    assert_eq!(s, State { role: Role::Follower, tick: 0, term: 0, vote_count: 0, vote_threshold: 2 });
    let three = Config { peer_uris: vec!["a".into(), "b".into(), "c".into()], ..Config::new() };
    assert_eq!(State::new(&three).vote_threshold, 1);
}

#[test]
fn follower_promotion_on_heartbeat_timeout() {
    let mut s = node(Role::Follower, 0, 0);
    let f = s.heartbeat_timed_out(0);
    assert_eq!(s.role, Role::Candidate);
    assert_eq!((s.term, s.tick, s.vote_count), (1, 1, 0));
    assert_eq!(f, Followup::Campaign { tick: 1, term: 1 });
}

#[test]
fn stale_heartbeat_watchdog_is_a_no_op() {
    let mut s = node(Role::Follower, 2, 5);
    let (_, f) = s.receive_append_entries_request(&append_request(2));
    assert_eq!(s.tick, 6);
    assert_eq!(f, Followup::WatchHeartbeat { tick: 6 });
    let before = s;
    assert_eq!(s.heartbeat_timed_out(5), Followup::Nothing);
    assert_eq!(s, before);
}

#[test]
fn stale_election_watchdog_is_a_no_op() {
    let mut s = node(Role::Candidate, 3, 9);
    let before = s;
    assert_eq!(s.election_timed_out(8), Followup::Nothing);
    assert_eq!(s, before);
}

#[test]
fn heartbeat_watchdog_ignores_a_candidate() {
    let mut s = node(Role::Candidate, 3, 9);
    let before = s;
    assert_eq!(s.heartbeat_timed_out(9), Followup::Nothing);
    assert_eq!(s, before);
}

#[test]
fn election_timeout_starts_a_new_round() {
    let mut s = State { role: Role::Candidate, tick: 4, term: 2, vote_count: 1, vote_threshold: 3 };
    let f = s.election_timed_out(4);
    assert_eq!(s, State { role: Role::Candidate, tick: 5, term: 3, vote_count: 0, vote_threshold: 3 });
    assert_eq!(f, Followup::Campaign { tick: 5, term: 3 });
}

#[test]
fn higher_term_vote_request_is_granted() {
    let mut s = node(Role::Leader, 3, 7);
    let (r, f) = s.receive_request_vote_request(&vote_request(5));
    assert!(r.granted);
    assert_eq!((s.role, s.term, s.tick), (Role::Follower, 5, 8));
    assert_eq!(f, Followup::WatchElection { tick: 8 });
}

#[test]
fn vote_request_of_same_term_is_denied() {
    let mut s = node(Role::Follower, 3, 7);
    let before = s;
    let (r, f) = s.receive_request_vote_request(&vote_request(3));
    assert_eq!(r, RequestVoteResponse { term: 3, granted: false });
    assert_eq!(f, Followup::Nothing);
    assert_eq!(s, before);
}

#[test]
fn same_term_append_entries_demotes_leader() {
    let mut s = node(Role::Leader, 4, 10);
    let (r, f) = s.receive_append_entries_request(&append_request(4));
    assert_eq!(r, AppendEntriesResponse { term: 4, success: false });
    assert_eq!((s.role, s.term, s.tick, s.vote_count), (Role::Candidate, 5, 11, 0));
    assert_eq!(f, Followup::Campaign { tick: 11, term: 5 });
}

#[test]
fn lower_term_append_entries_is_refused() {
    let mut s = node(Role::Follower, 4, 10);
    let before = s;
    let (r, f) = s.receive_append_entries_request(&append_request(3));
    assert_eq!(r, AppendEntriesResponse { term: 4, success: false });
    assert_eq!(f, Followup::Nothing);
    assert_eq!(s, before);
}

#[test]
fn valid_append_entries_makes_a_candidate_follow() {
    let mut s = node(Role::Candidate, 4, 10);
    let (r, f) = s.receive_append_entries_request(&append_request(6));
    assert!(r.success);
    assert_eq!((s.role, s.term, s.tick), (Role::Follower, 6, 11));
    assert_eq!(f, Followup::WatchHeartbeat { tick: 11 });
}

#[test]
fn grants_up_to_threshold_make_a_leader() {
    let mut s = State { role: Role::Candidate, tick: 2, term: 1, vote_count: 0, vote_threshold: 2 };
    let grant = RequestVoteResponse { term: 1, granted: true };
    assert_eq!(s.receive_request_vote_response(&grant), Followup::Nothing);
    assert_eq!((s.role, s.vote_count, s.tick), (Role::Candidate, 1, 2));
    assert_eq!(s.receive_request_vote_response(&grant), Followup::Lead { tick: 3, term: 1 });
    assert_eq!((s.role, s.vote_count, s.tick), (Role::Leader, 2, 3));
    assert!(s.still_leading(3));
    assert!(!s.still_leading(2));
    let before = s;
    assert_eq!(s.receive_request_vote_response(&grant), Followup::Nothing);
    assert_eq!(s, before);
}

#[test]
fn higher_term_denial_restarts_the_election() {
    let mut s = State { role: Role::Candidate, tick: 2, term: 1, vote_count: 0, vote_threshold: 2 };
    let f = s.receive_request_vote_response(&RequestVoteResponse { term: 4, granted: false });
    assert_eq!((s.role, s.term, s.tick), (Role::Candidate, 4, 3));
    assert_eq!(f, Followup::WatchElection { tick: 3 });
}

#[test]
fn higher_term_refusal_makes_a_leader_step_down() {
    let mut s = node(Role::Leader, 2, 5);
    let f = s.receive_append_entries_response(&AppendEntriesResponse { term: 3, success: false });
    assert_eq!((s.role, s.term, s.tick), (Role::Follower, 3, 6));
    assert_eq!(f, Followup::WatchHeartbeat { tick: 6 });
    let before = s;
    let f = s.receive_append_entries_response(&AppendEntriesResponse { term: 9, success: false });
    assert_eq!(f, Followup::Nothing);
    assert_eq!(s, before);
}

#[test]
fn a_trace_keeps_term_and_tick_growing() {
    let mut s = node(Role::Follower, 0, 0);
    let mut terms = vec![s.term];
    let mut seen = vec![(s.role, s.tick)];
    s.heartbeat_timed_out(0);
    terms.push(s.term);
    seen.push((s.role, s.tick));
    s.election_timed_out(1);
    terms.push(s.term);
    seen.push((s.role, s.tick));
    s.receive_append_entries_request(&append_request(2));
    terms.push(s.term);
    seen.push((s.role, s.tick));
    s.receive_request_vote_request(&vote_request(1));
    terms.push(s.term);
    seen.push((s.role, s.tick));
    assert_eq!(terms, vec![0, 1, 2, 2, 2]);
    for w in seen.windows(2) {
        assert!(w[1].1 >= w[0].1);
        if w[1].0 != w[0].0 {
            assert!(w[1].1 > w[0].1);
        }
    }
}

#[test]
fn second_request_of_a_granted_term_is_denied() {
    let mut s = node(Role::Follower, 1, 0);
    let (first, _) = s.receive_request_vote_request(&vote_request(5));
    assert!(first.granted);
    let before = s;
    let (second, f) = s.receive_request_vote_request(&vote_request(5));
    assert_eq!(second, RequestVoteResponse { term: 5, granted: false });
    assert_eq!(f, Followup::Nothing);
    assert_eq!(s, before);
}
