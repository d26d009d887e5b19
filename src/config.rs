use vstd::prelude::*;

use crate::text::{append, decimal, decimal_to_text, duration_text, duration_to_text};

verus! {

/// The tunables of a node. Every span is a count of microseconds.
pub struct Config {
    /// How often the leader sends a heartbeat.
    pub send_heartbeat_period: u64,
    /// Least spacing of back-to-back heartbeats.
    pub send_heartbeat_interval_min: u64,
    /// Lower bound of the wait for a heartbeat.
    pub heartbeat_timeout_min: u64,
    /// Upper bound of the wait for a heartbeat.
    pub heartbeat_timeout_max: u64,
    /// Lower bound of the wait for an election to complete.
    pub election_timeout_min: u64,
    /// Upper bound of the wait for an election to complete.
    pub election_timeout_max: u64,
    /// Addresses of the other members of the cluster.
    pub peer_uris: Vec<String>,
}

/// One rule of a configuration that does not hold, with the values it saw.
#[derive(Clone, Copy, Debug, PartialEq, Eq, Structural)]
pub enum ConfigViolation {
    ZeroHeartbeatPeriod,
    ZeroHeartbeatIntervalMin,
    PeriodNotAboveIntervalMin { period: u64, interval_min: u64 },
    HeartbeatTimeoutNotAbovePeriod { timeout_min: u64, period: u64 },
    HeartbeatTimeoutRangeEmpty { timeout_max: u64, timeout_min: u64 },
    ElectionTimeoutRangeEmpty { timeout_max: u64, timeout_min: u64 },
    OddPeerCount { peers: usize },
}

/// Every rule that a rejected configuration breaks, in the order they are checked.
pub struct ConfigError {
    pub violations: Vec<ConfigViolation>,
}

/// `v` when `fails`, else nothing.
pub open spec fn when_fails(fails: bool, v: ConfigViolation) -> Seq<ConfigViolation> {
    if fails {
        seq![v]
    } else {
        seq![]
    }
}

impl Config {
    /// All rules hold: positive periods, a heartbeat period above the least
    /// spacing, a heartbeat wait above the period, non-empty timeout ranges, and an
    /// even number of peers (so that the cluster, this node included, is odd).
    pub open spec fn is_valid(&self) -> bool {
        &&& self.send_heartbeat_period > 0
        &&& self.send_heartbeat_interval_min > 0
        &&& self.send_heartbeat_period > self.send_heartbeat_interval_min
        &&& self.heartbeat_timeout_min > self.send_heartbeat_period
        &&& self.heartbeat_timeout_max > self.heartbeat_timeout_min
        &&& self.election_timeout_max > self.election_timeout_min
        &&& self.peer_uris@.len() % 2 == 0
    }

    /// The rules this configuration breaks, in the order they are checked.
    pub open spec fn violations(&self) -> Seq<ConfigViolation> {
        self.period_violations() + self.timeout_violations() + self.peer_violations()
    }

    pub open spec fn period_violations(&self) -> Seq<ConfigViolation> {
        when_fails(self.send_heartbeat_period == 0, ConfigViolation::ZeroHeartbeatPeriod)
            + when_fails(
            self.send_heartbeat_interval_min == 0,
            ConfigViolation::ZeroHeartbeatIntervalMin,
        ) + when_fails(
            self.send_heartbeat_period <= self.send_heartbeat_interval_min,
            ConfigViolation::PeriodNotAboveIntervalMin {
                period: self.send_heartbeat_period,
                interval_min: self.send_heartbeat_interval_min,
            },
        )
    }

    pub open spec fn timeout_violations(&self) -> Seq<ConfigViolation> {
        when_fails(
            self.heartbeat_timeout_min <= self.send_heartbeat_period,
            ConfigViolation::HeartbeatTimeoutNotAbovePeriod {
                timeout_min: self.heartbeat_timeout_min,
                period: self.send_heartbeat_period,
            },
        ) + when_fails(
            self.heartbeat_timeout_max <= self.heartbeat_timeout_min,
            ConfigViolation::HeartbeatTimeoutRangeEmpty {
                timeout_max: self.heartbeat_timeout_max,
                timeout_min: self.heartbeat_timeout_min,
            },
        ) + when_fails(
            self.election_timeout_max <= self.election_timeout_min,
            ConfigViolation::ElectionTimeoutRangeEmpty {
                timeout_max: self.election_timeout_max,
                timeout_min: self.election_timeout_min,
            },
        )
    }

    pub open spec fn peer_violations(&self) -> Seq<ConfigViolation> {
        when_fails(
            self.peer_uris@.len() % 2 != 0,
            ConfigViolation::OddPeerCount { peers: self.peer_uris.len() },
        )
    }

    /// The default tunables: a 100 ms heartbeat period, 500 ms least spacing,
    /// and waits of 900 ms to 1100 ms, with no peers.
    pub open spec fn is_default(&self) -> bool {
        &&& self.send_heartbeat_period == 100_000
        &&& self.send_heartbeat_interval_min == 500_000
        &&& self.heartbeat_timeout_min == 900_000
        &&& self.heartbeat_timeout_max == 1_100_000
        &&& self.election_timeout_min == 900_000
        &&& self.election_timeout_max == 1_100_000
        &&& self.peer_uris@.len() == 0
    }

    /// The default tunables.
    pub fn new() -> (r: Config)
        ensures
            r.is_default(),
    {
        Config::default()
    }

    /// Checks every rule and reports all that fail, in one error.
    pub fn validate(&self) -> (r: Result<(), ConfigError>)
        ensures
            r is Ok <==> self.is_valid(),
            r is Ok <==> self.violations().len() == 0,
            r matches Err(e) ==> e.violations@ == self.violations(),
    {
        let mut errs: Vec<ConfigViolation> = Vec::new();
        self.check_periods(&mut errs);
        self.check_timeouts(&mut errs);
        if self.peer_uris.len() % 2 != 0 {
            errs.push(ConfigViolation::OddPeerCount { peers: self.peer_uris.len() });
        }
        assert(errs@ =~= self.violations());
        if errs.len() == 0 {
            return Ok(());
        }
        Err(ConfigError { violations: errs })
    }

    fn check_periods(&self, errs: &mut Vec<ConfigViolation>)
        ensures
            final(errs)@ == old(errs)@ + self.period_violations(),
    {
        let ghost start = errs@;
        if self.send_heartbeat_period == 0 {
            errs.push(ConfigViolation::ZeroHeartbeatPeriod);
        }
        if self.send_heartbeat_interval_min == 0 {
            errs.push(ConfigViolation::ZeroHeartbeatIntervalMin);
        }
        if self.send_heartbeat_period <= self.send_heartbeat_interval_min {
            errs.push(
                ConfigViolation::PeriodNotAboveIntervalMin {
                    period: self.send_heartbeat_period,
                    interval_min: self.send_heartbeat_interval_min,
                },
            );
        }
        assert(errs@ =~= start + self.period_violations());
    }

    fn check_timeouts(&self, errs: &mut Vec<ConfigViolation>)
        ensures
            final(errs)@ == old(errs)@ + self.timeout_violations(),
    {
        let ghost start = errs@;
        if self.heartbeat_timeout_min <= self.send_heartbeat_period {
            errs.push(
                ConfigViolation::HeartbeatTimeoutNotAbovePeriod {
                    timeout_min: self.heartbeat_timeout_min,
                    period: self.send_heartbeat_period,
                },
            );
        }
        if self.heartbeat_timeout_max <= self.heartbeat_timeout_min {
            errs.push(
                ConfigViolation::HeartbeatTimeoutRangeEmpty {
                    timeout_max: self.heartbeat_timeout_max,
                    timeout_min: self.heartbeat_timeout_min,
                },
            );
        }
        if self.election_timeout_max <= self.election_timeout_min {
            errs.push(
                ConfigViolation::ElectionTimeoutRangeEmpty {
                    timeout_max: self.election_timeout_max,
                    timeout_min: self.election_timeout_min,
                },
            );
        }
        assert(errs@ =~= start + self.timeout_violations());
    }

    /// Draws a wait for an election round, in microseconds, from the closed
    /// range of the configuration.
    pub fn pick_election_timeout(&self) -> (r: u64)
        requires
            self.election_timeout_min <= self.election_timeout_max,
        ensures
            self.election_timeout_min <= r <= self.election_timeout_max,
    {
        draw_between(self.election_timeout_min, self.election_timeout_max)
    }

    /// Draws a wait for a heartbeat, in microseconds, from the closed range of
    /// the configuration.
    pub fn pick_heartbeat_timeout(&self) -> (r: u64)
        requires
            self.heartbeat_timeout_min <= self.heartbeat_timeout_max,
        ensures
            self.heartbeat_timeout_min <= r <= self.heartbeat_timeout_max,
    {
        draw_between(self.heartbeat_timeout_min, self.heartbeat_timeout_max)
    }
}

/// The text `"Expect " + a + " (" + da + ") > " + b + " (" + db + ")"`.
pub open spec fn expectation_text(a: Seq<char>, da: Seq<char>, b: Seq<char>, db: Seq<char>) -> Seq<
    char,
> {
    "Expect "@ + a + " ("@ + da + ") > "@ + b + " ("@ + db + ")"@
}

/// The expectation that `a`, which is `va` microseconds, exceeds `b`, which is `vb`.
pub open spec fn expectation(a: Seq<char>, va: u64, b: Seq<char>, vb: u64) -> Seq<char> {
    expectation_text(a, duration_text(va), b, duration_text(vb))
}

/// Messages of `vs` joined by `"; "`.
pub open spec fn joined_text(vs: Seq<ConfigViolation>) -> Seq<char>
    decreases vs.len(),
{
    if vs.len() == 0 {
        seq![]
    } else if vs.len() == 1 {
        vs[0].text()
    } else {
        joined_text(vs.drop_last()) + "; "@ + vs.last().text()
    }
}

impl ConfigViolation {
    /// What the message of this violation says.
    pub open spec fn text(&self) -> Seq<char> {
        match *self {
            ConfigViolation::ZeroHeartbeatPeriod => "send_heartbeat_period cannot be 0"@,
            ConfigViolation::ZeroHeartbeatIntervalMin => "send_heartbeat_interval_min cannot be 0"@,
            ConfigViolation::PeriodNotAboveIntervalMin { period, interval_min } => expectation(
                "send_heartbeat_period"@,
                period,
                "send_heartbeat_interval_min"@,
                interval_min,
            ),
            ConfigViolation::HeartbeatTimeoutNotAbovePeriod { timeout_min, period } => expectation(
                "heartbeat_timeout_min"@,
                timeout_min,
                "send_heartbeat_period"@,
                period,
            ),
            ConfigViolation::HeartbeatTimeoutRangeEmpty { timeout_max, timeout_min } => expectation(
                "heartbeat_timeout_max"@,
                timeout_max,
                "heartbeat_timeout_min"@,
                timeout_min,
            ),
            ConfigViolation::ElectionTimeoutRangeEmpty { timeout_max, timeout_min } => expectation(
                "election_timeout_max"@,
                timeout_max,
                "election_timeout_min"@,
                timeout_min,
            ),
            ConfigViolation::OddPeerCount { peers } => "Expect even number of peers (= "@ + decimal(
                peers as nat,
            ) + ")"@,
        }
    }

    /// The message of this violation.
    pub fn message(&self) -> (r: String)
        ensures
            r@ == self.text(),
    {
        match *self {
            ConfigViolation::ZeroHeartbeatPeriod => "send_heartbeat_period cannot be 0".to_owned(),
            ConfigViolation::ZeroHeartbeatIntervalMin => "send_heartbeat_interval_min cannot be 0".to_owned(),
            ConfigViolation::PeriodNotAboveIntervalMin { period, interval_min } => expect_message(
                "send_heartbeat_period",
                period,
                "send_heartbeat_interval_min",
                interval_min,
            ),
            ConfigViolation::HeartbeatTimeoutNotAbovePeriod { timeout_min, period } => expect_message(
                "heartbeat_timeout_min",
                timeout_min,
                "send_heartbeat_period",
                period,
            ),
            ConfigViolation::HeartbeatTimeoutRangeEmpty { timeout_max, timeout_min } => expect_message(
                "heartbeat_timeout_max",
                timeout_max,
                "heartbeat_timeout_min",
                timeout_min,
            ),
            ConfigViolation::ElectionTimeoutRangeEmpty { timeout_max, timeout_min } => expect_message(
                "election_timeout_max",
                timeout_max,
                "election_timeout_min",
                timeout_min,
            ),
            ConfigViolation::OddPeerCount { peers } => {
                let mut s = "Expect even number of peers (= ".to_owned();
                append(&mut s, decimal_to_text(peers).as_str());
                append(&mut s, ")");
                s
            },
        }
    }
}

fn expect_message(a: &str, va: u64, b: &str, vb: u64) -> (r: String)
    ensures
        r@ == expectation(a@, va, b@, vb),
{
    let da = duration_to_text(va);
    let db = duration_to_text(vb);
    expectation_message(a, da.as_str(), b, db.as_str())
}

/// The message that the field named `a`, shown as `da`, should exceed the
/// field named `b`, shown as `db`.
pub fn expectation_message(a: &str, da: &str, b: &str, db: &str) -> (r: String)
    ensures
        r@ == expectation_text(a@, da@, b@, db@),
{
    let mut s = "Expect ".to_owned();
    append(&mut s, a);
    append(&mut s, " (");
    append(&mut s, da);
    append(&mut s, ") > ");
    append(&mut s, b);
    append(&mut s, " (");
    append(&mut s, db);
    append(&mut s, ")");
    s
}

impl ConfigError {
    /// The messages of all violations, joined by `"; "`.
    pub fn message(&self) -> (r: String)
        ensures
            r@ == joined_text(self.violations@),
    {
        let mut s = String::new();
        let mut i: usize = 0;
        while i < self.violations.len()
            invariant
                i <= self.violations@.len(),
                s@ == joined_text(self.violations@.take(i as int)),
            decreases self.violations@.len() - i,
        {
            if i > 0 {
                append(&mut s, "; ");
            }
            let m = self.violations[i].message();
            append(&mut s, m.as_str());
            proof {
                let t = self.violations@.take(i as int + 1);
                assert(t.drop_last() =~= self.violations@.take(i as int));
            }
            i = i + 1;
        }
        assert(self.violations@.take(i as int) =~= self.violations@);
        s
    }
}


/// Which rule a violation reports, as its place in the order of checks.
pub open spec fn rule_of(v: ConfigViolation) -> int {
    match v {
        ConfigViolation::ZeroHeartbeatPeriod => 0,
        ConfigViolation::ZeroHeartbeatIntervalMin => 1,
        ConfigViolation::PeriodNotAboveIntervalMin { .. } => 2,
        ConfigViolation::HeartbeatTimeoutNotAbovePeriod { .. } => 3,
        ConfigViolation::HeartbeatTimeoutRangeEmpty { .. } => 4,
        ConfigViolation::ElectionTimeoutRangeEmpty { .. } => 5,
        ConfigViolation::OddPeerCount { .. } => 6,
    }
}

/// A few characters of each message, enough to tell the rules apart.
proof fn message_marks(v: ConfigViolation)
    ensures
        v.text().len() > 26,
        match v {
            ConfigViolation::ZeroHeartbeatPeriod => v.text()[0] == 's' && v.text()[15] == 'p',
            ConfigViolation::ZeroHeartbeatIntervalMin => v.text()[0] == 's' && v.text()[15] == 'i',
            ConfigViolation::PeriodNotAboveIntervalMin { .. } => v.text()[0] == 'E' && v.text()[7]
                == 's',
            ConfigViolation::HeartbeatTimeoutNotAbovePeriod { .. } => v.text()[0] == 'E'
                && v.text()[7] == 'h' && v.text()[26] == 'i',
            ConfigViolation::HeartbeatTimeoutRangeEmpty { .. } => v.text()[0] == 'E' && v.text()[7]
                == 'h' && v.text()[26] == 'a',
            ConfigViolation::ElectionTimeoutRangeEmpty { .. } => v.text()[0] == 'E' && v.text()[7]
                == 'e' && v.text()[8] == 'l',
            ConfigViolation::OddPeerCount { .. } => v.text()[0] == 'E' && v.text()[7] == 'e'
                && v.text()[8] == 'v',
        },
{
    reveal_strlit("send_heartbeat_period cannot be 0");
    reveal_strlit("send_heartbeat_interval_min cannot be 0");
    reveal_strlit("Expect ");
    reveal_strlit("send_heartbeat_period");
    reveal_strlit("heartbeat_timeout_min");
    reveal_strlit("heartbeat_timeout_max");
    reveal_strlit("election_timeout_max");
    reveal_strlit("Expect even number of peers (= ");
}

/// Messages of different rules differ.
pub proof fn messages_of_rules_differ(v: ConfigViolation, w: ConfigViolation)
    requires
        rule_of(v) != rule_of(w),
    ensures
        v.text() != w.text(),
{
    message_marks(v);
    message_marks(w);
}

/// Violations are listed in the order of the rules, each rule at most once.
proof fn violations_in_rule_order(c: Config)
    ensures
        forall|i: int, j: int|
            0 <= i < j < c.violations().len() ==> rule_of(c.violations()[i]) < rule_of(
                c.violations()[j],
            ),
{
    let p = c.period_violations();
    let t = c.timeout_violations();
    let q = c.peer_violations();
    assert(forall|i: int, j: int| 0 <= i < j < p.len() ==> rule_of(p[i]) < rule_of(p[j]));
    assert(forall|i: int| 0 <= i < p.len() ==> rule_of(#[trigger] p[i]) <= 2);
    assert(forall|i: int, j: int| 0 <= i < j < t.len() ==> rule_of(t[i]) < rule_of(t[j]));
    assert(forall|i: int| 0 <= i < t.len() ==> 3 <= rule_of(#[trigger] t[i]) <= 5);
    assert(forall|i: int| 0 <= i < q.len() ==> rule_of(#[trigger] q[i]) == 6);
}

/// What each of three parts holds, their concatenation holds.
proof fn concat_keeps(x: Seq<ConfigViolation>, y: Seq<ConfigViolation>, z: Seq<ConfigViolation>)
    ensures
        forall|v: ConfigViolation|
            x.contains(v) || y.contains(v) || z.contains(v) ==> #[trigger] (x + y + z).contains(v),
{
    let all = x + y + z;
    assert forall|v: ConfigViolation| x.contains(v) || y.contains(v) || z.contains(v) implies all.contains(v) by {
        if x.contains(v) {
            let i = choose|i: int| 0 <= i < x.len() && x[i] == v;
            assert(all[i] == v);
        } else if y.contains(v) {
            let i = choose|i: int| 0 <= i < y.len() && y[i] == v;
            assert(all[x.len() + i] == v);
        } else {
            let i = choose|i: int| 0 <= i < z.len() && z[i] == v;
            assert(all[x.len() + y.len() + i] == v);
        }
    }
}

/// A rule that fails gives its violation.
proof fn failing_rule_reports(fails: bool, v: ConfigViolation)
    ensures
        fails ==> #[trigger] when_fails(fails, v).contains(v),
{
    if fails {
        assert(when_fails(fails, v)[0] == v);
    }
}

/// A configuration is rejected exactly when it breaks a rule, and then each
/// rule it breaks is reported, each by a message that no other report shares.
pub proof fn every_broken_rule_is_reported(c: Config)
    ensures
        c.violations().len() > 0 <==> !c.is_valid(),
        c.send_heartbeat_period == 0 ==> c.violations().contains(
            ConfigViolation::ZeroHeartbeatPeriod,
        ),
        c.send_heartbeat_interval_min == 0 ==> c.violations().contains(
            ConfigViolation::ZeroHeartbeatIntervalMin,
        ),
        c.send_heartbeat_period <= c.send_heartbeat_interval_min ==> c.violations().contains(
            ConfigViolation::PeriodNotAboveIntervalMin {
                period: c.send_heartbeat_period,
                interval_min: c.send_heartbeat_interval_min,
            },
        ),
        c.heartbeat_timeout_min <= c.send_heartbeat_period ==> c.violations().contains(
            ConfigViolation::HeartbeatTimeoutNotAbovePeriod {
                timeout_min: c.heartbeat_timeout_min,
                period: c.send_heartbeat_period,
            },
        ),
        c.heartbeat_timeout_max <= c.heartbeat_timeout_min ==> c.violations().contains(
            ConfigViolation::HeartbeatTimeoutRangeEmpty {
                timeout_max: c.heartbeat_timeout_max,
                timeout_min: c.heartbeat_timeout_min,
            },
        ),
        c.election_timeout_max <= c.election_timeout_min ==> c.violations().contains(
            ConfigViolation::ElectionTimeoutRangeEmpty {
                timeout_max: c.election_timeout_max,
                timeout_min: c.election_timeout_min,
            },
        ),
        c.peer_uris@.len() % 2 != 0 ==> c.violations().contains(
            ConfigViolation::OddPeerCount { peers: c.peer_uris.len() },
        ),
        forall|i: int, j: int|
            0 <= i < j < c.violations().len() ==> c.violations()[i].text()
                != c.violations()[j].text(),
{
    let p = c.period_violations();
    let t = c.timeout_violations();
    let q = c.peer_violations();
    let all = c.violations();
    assert(all =~= p + t + q);
    assert forall|fails: bool, v: ConfigViolation| fails implies #[trigger] when_fails(
        fails,
        v,
    ).contains(v) by {
        failing_rule_reports(fails, v);
    }
    concat_keeps(p, t, q);
    concat_keeps(
        when_fails(c.send_heartbeat_period == 0, ConfigViolation::ZeroHeartbeatPeriod),
        when_fails(c.send_heartbeat_interval_min == 0, ConfigViolation::ZeroHeartbeatIntervalMin),
        when_fails(
            c.send_heartbeat_period <= c.send_heartbeat_interval_min,
            ConfigViolation::PeriodNotAboveIntervalMin {
                period: c.send_heartbeat_period,
                interval_min: c.send_heartbeat_interval_min,
            },
        ),
    );
    concat_keeps(
        when_fails(
            c.heartbeat_timeout_min <= c.send_heartbeat_period,
            ConfigViolation::HeartbeatTimeoutNotAbovePeriod {
                timeout_min: c.heartbeat_timeout_min,
                period: c.send_heartbeat_period,
            },
        ),
        when_fails(
            c.heartbeat_timeout_max <= c.heartbeat_timeout_min,
            ConfigViolation::HeartbeatTimeoutRangeEmpty {
                timeout_max: c.heartbeat_timeout_max,
                timeout_min: c.heartbeat_timeout_min,
            },
        ),
        when_fails(
            c.election_timeout_max <= c.election_timeout_min,
            ConfigViolation::ElectionTimeoutRangeEmpty {
                timeout_max: c.election_timeout_max,
                timeout_min: c.election_timeout_min,
            },
        ),
    );
    violations_in_rule_order(c);
    assert forall|i: int, j: int| 0 <= i < j < all.len() implies all[i].text() != all[j].text() by {
        messages_of_rules_differ(all[i], all[j]);
    }
}

impl Default for Config {
    fn default() -> (r: Config)
        ensures
            r.is_default(),
    {
        Config {
            send_heartbeat_period: 100_000,
            send_heartbeat_interval_min: 500_000,
            heartbeat_timeout_min: 900_000,
            heartbeat_timeout_max: 1_100_000,
            election_timeout_min: 900_000,
            election_timeout_max: 1_100_000,
            peer_uris: Vec::new(),
        }
    }
}

/// Relies on `rand::Rng::gen_range` over the thread-local generator: for a
/// non-empty inclusive range (it panics on an empty one) the draw lies in it.
#[verifier::external_body]
fn draw_between(lo: u64, hi: u64) -> (r: u64)
    requires
        lo <= hi,
    ensures
        lo <= r <= hi,
{
    rand::Rng::gen_range(&mut rand::thread_rng(), lo..=hi)
}

} // verus!
