//! Leader election: its configuration, the identity of a candidate, and the
//! decisions of the lock-file election loop.

use vstd::prelude::*;

use vstd::string::StrSliceExecFns;
use crate::time::Duration;

verus! {

/// Configuration for leader election.
#[derive(Clone, Debug)]
pub struct LeaderElectionConfig {
    /// Resource lock type (e.g., "leases", "endpoints").
    pub resource_lock: String,
    /// Resource namespace.
    pub resource_namespace: String,
    /// Resource name (lease name).
    pub resource_name: String,
    /// Identity of this candidate (hostname + random ID).
    pub identity: String,
    /// Lease duration.
    pub lease_duration: Duration,
    /// Renew deadline.
    pub renew_deadline: Duration,
    /// Retry period.
    pub retry_period: Duration,
}

impl LeaderElectionConfig {
    /// A configuration for the lease `resource_name` in `resource_namespace`
    /// held by `identity`, with a `leases` lock, a lease of fifteen seconds, a
    /// renew deadline of ten seconds and a retry period of two seconds.
    pub fn new(resource_namespace: String, resource_name: String, identity: String) -> (c: LeaderElectionConfig)
        ensures
            c.resource_lock@ == "leases"@,
            c.resource_namespace == resource_namespace,
            c.resource_name == resource_name,
            c.identity == identity,
            c.lease_duration.is_secs(15),
            c.renew_deadline.is_secs(10),
            c.retry_period.is_secs(2),
    {
        LeaderElectionConfig {
            resource_lock: "leases".to_owned(),
            resource_namespace,
            resource_name,
            identity,
            lease_duration: Duration::from_secs(15),
            renew_deadline: Duration::from_secs(10),
            retry_period: Duration::from_secs(2),
        }
    }

    /// This configuration with the lease duration `duration`.
    pub fn with_lease_duration(self, duration: Duration) -> (c: LeaderElectionConfig)
        ensures
            c == (LeaderElectionConfig { lease_duration: duration, ..self }),
    {
        LeaderElectionConfig { lease_duration: duration, ..self }
    }

    /// This configuration with the renew deadline `deadline`.
    pub fn with_renew_deadline(self, deadline: Duration) -> (c: LeaderElectionConfig)
        ensures
            c == (LeaderElectionConfig { renew_deadline: deadline, ..self }),
    {
        LeaderElectionConfig { renew_deadline: deadline, ..self }
    }

    /// This configuration with the retry period `period`.
    pub fn with_retry_period(self, period: Duration) -> (c: LeaderElectionConfig)
        ensures
            c == (LeaderElectionConfig { retry_period: period, ..self }),
    {
        LeaderElectionConfig { retry_period: period, ..self }
    }

    /// This configuration with the resource lock type `lock_type`.
    pub fn with_resource_lock(self, lock_type: String) -> (c: LeaderElectionConfig)
        ensures
            c == (LeaderElectionConfig { resource_lock: lock_type, ..self }),
    {
        LeaderElectionConfig { resource_lock: lock_type, ..self }
    }
}

/// Leader election result.
#[derive(Clone, Copy, Debug, PartialEq, Eq, Structural)]
pub enum LeaderState {
    /// This instance is the leader.
    Leader,
    /// This instance is a follower.
    Follower,
    /// Leader election failed.
    Failed,
}

/// Callbacks for leader election events.
pub trait LeaderCallbacks: Send + Sync {
    /// Called when this instance becomes the leader.
    fn on_started_leading(&self);

    /// Called when this instance stops being the leader.
    fn on_stopped_leading(&self);
}

/// Leader callbacks made of two functions.
pub struct FunctionLeaderCallbacks<S: Fn() + Send + Sync, T: Fn() + Send + Sync> {
    on_started_leading: S,
    on_stopped_leading: T,
}

impl<S: Fn() + Send + Sync, T: Fn() + Send + Sync> FunctionLeaderCallbacks<S, T> {
    #[verifier::type_invariant]
    spec fn callable(self) -> bool {
        &&& call_requires(self.on_started_leading, ())
        &&& call_requires(self.on_stopped_leading, ())
    }

    /// The function run when leadership is taken.
    pub closed spec fn started_fn(self) -> S {
        self.on_started_leading
    }

    /// The function run when leadership is lost.
    pub closed spec fn stopped_fn(self) -> T {
        self.on_stopped_leading
    }

    /// Callbacks that run `on_started_leading` when leadership is taken and
    /// `on_stopped_leading` when it is lost.
    pub fn new(on_started_leading: S, on_stopped_leading: T) -> (c: FunctionLeaderCallbacks<S, T>)
        requires
            call_requires(on_started_leading, ()),
            call_requires(on_stopped_leading, ()),
        ensures
            c.started_fn() == on_started_leading,
            c.stopped_fn() == on_stopped_leading,
    {
        FunctionLeaderCallbacks { on_started_leading, on_stopped_leading }
    }
}

impl<S: Fn() + Send + Sync, T: Fn() + Send + Sync> LeaderCallbacks for FunctionLeaderCallbacks<S, T> {
    fn on_started_leading(&self)
        ensures
            call_ensures(self.started_fn(), (), ()),
    {
        proof {
            use_type_invariant(self);
        }
        (self.on_started_leading)();
    }

    fn on_stopped_leading(&self)
        ensures
            call_ensures(self.stopped_fn(), (), ()),
    {
        proof {
            use_type_invariant(self);
        }
        (self.on_stopped_leading)();
    }
}

/// What the election loop learned in one round.
#[derive(Clone, Copy, Debug, PartialEq, Eq, Structural)]
pub enum ElectionEvent {
    /// The election was stopped.
    Cancelled,
    /// The lock was taken by this instance.
    LockAcquired,
    /// The lock is held by another instance.
    LockHeldElsewhere,
    /// Taking the lock failed.
    LockFailed,
    /// Renewing the lease failed while leading.
    LeaseLost,
    /// Holding the lease ended because the election was stopped.
    LeaseReleased,
}

/// What the election loop does next.
#[derive(Clone, Copy, Debug, PartialEq, Eq, Structural)]
pub enum ElectionAction {
    /// Leave the loop.
    Stop,
    /// Announce leadership and hold the lease.
    StartLeading,
    /// Wait one retry period and try again.
    RetryLater,
    /// Announce the loss of leadership, then wait one retry period and try again.
    StopLeadingThenRetry,
}

/// The next state and action of the election loop in state `state` after
/// `event`.
pub open spec fn election_transition(state: LeaderState, event: ElectionEvent) -> (LeaderState, ElectionAction) {
    match event {
        ElectionEvent::Cancelled => (state, ElectionAction::Stop),
        ElectionEvent::LockAcquired => (LeaderState::Leader, ElectionAction::StartLeading),
        ElectionEvent::LockHeldElsewhere => (LeaderState::Follower, ElectionAction::RetryLater),
        ElectionEvent::LockFailed => (LeaderState::Failed, ElectionAction::RetryLater),
        ElectionEvent::LeaseLost => (LeaderState::Follower, ElectionAction::StopLeadingThenRetry),
        ElectionEvent::LeaseReleased => (state, ElectionAction::RetryLater),
    }
}

/// The next state and action of the election loop in state `state` after
/// `event`.
pub fn election_step(state: LeaderState, event: ElectionEvent) -> (r: (LeaderState, ElectionAction))
    ensures
        r == election_transition(state, event),
{
    match event {
        ElectionEvent::Cancelled => (state, ElectionAction::Stop),
        ElectionEvent::LockAcquired => (LeaderState::Leader, ElectionAction::StartLeading),
        ElectionEvent::LockHeldElsewhere => (LeaderState::Follower, ElectionAction::RetryLater),
        ElectionEvent::LockFailed => (LeaderState::Failed, ElectionAction::RetryLater),
        ElectionEvent::LeaseLost => (LeaderState::Follower, ElectionAction::StopLeadingThenRetry),
        ElectionEvent::LeaseReleased => (state, ElectionAction::RetryLater),
    }
}

/// Whether a lock file last written `elapsed` ago is stale for leases of
/// `lease_duration`: older than two lease durations.
pub fn lock_is_stale(elapsed: Duration, lease_duration: Duration) -> (r: bool)
    requires
        2 * lease_duration.spec_nanos() <= u64::MAX * 1_000_000_000 + 999_999_999,
    ensures
        r == (elapsed.spec_nanos() > 2 * lease_duration.spec_nanos()),
{
    match lease_duration.checked_double() {
        Some(limit) => elapsed.longer_than(&limit),
        None => false,
    }
}

/// How long the lease holder waits between renewals: half the renew deadline.
pub fn lease_renew_interval(renew_deadline: Duration) -> (r: Duration)
    ensures
        r.spec_nanos() == renew_deadline.spec_nanos() / 2,
{
    renew_deadline.half()
}

/// The lower-case hexadecimal digit for `n`.
pub open spec fn hex_digit(n: u8) -> char {
    if n < 10 {
        (48 + n) as char
    } else {
        (87 + n) as char
    }
}

/// Each byte of `bytes` as two lower-case hexadecimal digits.
pub open spec fn hex_lower(bytes: Seq<u8>) -> Seq<char>
    decreases bytes.len(),
{
    if bytes.len() == 0 {
        Seq::empty()
    } else {
        hex_lower(bytes.drop_last()) + seq![
            hex_digit(bytes.last() / 16),
            hex_digit(bytes.last() % 16),
        ]
    }
}

/// The identity made of a host name (or `unknown` when there is none) and
/// random bytes: the name, `_`, and the bytes in lower-case hexadecimal.
pub open spec fn identity_text(hostname: Option<Seq<char>>, random: Seq<u8>) -> Seq<char> {
    let name = match hostname {
        Some(h) => h,
        None => "unknown"@,
    };
    name + "_"@ + hex_lower(random)
}

/// The lower-case hexadecimal digit for `n` as text.
fn hex_text(n: u8) -> (t: &'static str)
    requires
        n < 16,
    ensures
        t@ == seq![hex_digit(n)],
{
    let digits = "0123456789abcdef";
    proof {
        reveal_strlit("0123456789abcdef");
    }
    assert(digits@[n as int] == hex_digit(n));
    let t = digits.substring_char(n as usize, n as usize + 1);
    assert(t@ =~= seq![hex_digit(n)]);
    t
}

/// The identity made of `hostname` (or `unknown`) and the bytes `random`.
pub fn identity_from(hostname: Option<String>, random: &[u8]) -> (r: String)
    ensures
        r@ == identity_text(
            match hostname {
                Some(h) => Some(h@),
                None => None,
            },
            random@,
        ),
{
    let mut r = match hostname {
        Some(h) => h,
        None => "unknown".to_owned(),
    };
    r.append("_");
    let ghost prefix = r@;
    let mut i: usize = 0;
    while i < random.len()
        invariant
            0 <= i <= random@.len(),
            r@ == prefix + hex_lower(random@.take(i as int)),
        decreases random@.len() - i,
    {
        let b = random[i];
        r.append(hex_text(b / 16));
        r.append(hex_text(b % 16));
        assert(random@.take(i + 1).drop_last() =~= random@.take(i as int));
        assert(r@ =~= prefix + hex_lower(random@.take(i + 1)));
        i = i + 1;
    }
    assert(random@.take(random@.len() as int) =~= random@);
    r
}

/// The host name of this machine as text, if it is valid Unicode
/// (`gethostname::gethostname`); what it is depends on the machine, so
/// nothing is said of it. The call panics only when the operating system
/// refuses to report the host name.
#[verifier::external_body]
fn host_name() -> Option<String> {
    gethostname::gethostname().into_string().ok()
}

/// A random byte (`rand::random`); any value can come back, so nothing is
/// said of it.
#[verifier::external_body]
fn random_byte() -> u8 {
    rand::random::<u8>()
}

/// A default identity for leader election: the host name (or `unknown`) and
/// four random bytes.
pub fn create_identity() -> (r: String)
    ensures
        exists|h: Option<Seq<char>>, b: Seq<u8>| b.len() == 4 && r@ == identity_text(h, b),
{
    let hostname = host_name();
    let mut random: Vec<u8> = Vec::new();
    let mut i: usize = 0;
    while i < 4
        invariant
            0 <= i <= 4,
            random@.len() == i,
        decreases 4 - i,
    {
        random.push(random_byte());
        i = i + 1;
    }
    let ghost h = match &hostname {
        Some(s) => Some(s@),
        None => None::<Seq<char>>,
    };
    let r = identity_from(hostname, random.as_slice());
    assert(r@ == identity_text(h, random@));
    r
}

/// While the lease is held or released, the instance stays in its state;
/// it becomes the leader only by taking the lock, and stops being the leader
/// when the lease is lost, the lock is held elsewhere or taking it fails.
pub proof fn law_leadership_only_from_lock(state: LeaderState, event: ElectionEvent)
    ensures
        election_transition(state, event).0 == LeaderState::Leader ==> (event
            == ElectionEvent::LockAcquired || (state == LeaderState::Leader && (event
            == ElectionEvent::Cancelled || event == ElectionEvent::LeaseReleased))),
        event == ElectionEvent::LeaseLost ==> election_transition(state, event) == (
            LeaderState::Follower,
            ElectionAction::StopLeadingThenRetry,
        ),
        election_transition(state, event).1 == ElectionAction::Stop <==> event
            == ElectionEvent::Cancelled,
{
}

/// A lock that is stale stays stale as time passes.
pub proof fn law_staleness_is_lasting(earlier: Duration, later: Duration, lease_duration: Duration)
    requires
        earlier.spec_nanos() <= later.spec_nanos(),
        earlier.spec_nanos() > 2 * lease_duration.spec_nanos(),
    ensures
        later.spec_nanos() > 2 * lease_duration.spec_nanos(),
{
}


/// Whatever the current state, finding the lock held by another instance
/// makes this instance a follower that retries later, taking the lock makes
/// it the leader that starts leading, and a failed attempt marks it failed
/// and retries later.
pub proof fn law_lock_outcome_decides_state(state: LeaderState)
    ensures
        election_transition(state, ElectionEvent::LockHeldElsewhere) == (
            LeaderState::Follower,
            ElectionAction::RetryLater,
        ),
        election_transition(state, ElectionEvent::LockAcquired) == (
            LeaderState::Leader,
            ElectionAction::StartLeading,
        ),
        election_transition(state, ElectionEvent::LockFailed) == (
            LeaderState::Failed,
            ElectionAction::RetryLater,
        ),
        election_transition(state, ElectionEvent::Cancelled) == (state, ElectionAction::Stop),
        election_transition(state, ElectionEvent::LeaseReleased) == (state, ElectionAction::RetryLater),
{
}


/// An identity is the host name (or `unknown`), an underscore, and two
/// lower-case hexadecimal digits for each random byte: the high half first,
/// then the low half.
pub proof fn law_identity_form(hostname: Option<Seq<char>>, random: Seq<u8>)
    ensures
        ({
            let name = match hostname {
                Some(h) => h,
                None => "unknown"@,
            };
            let id = identity_text(hostname, random);
            &&& id.len() == name.len() + 1 + 2 * random.len()
            &&& id.take(name.len() as int) == name
            &&& id[name.len() as int] == '_'
            &&& forall|i: int|
                #![trigger random[i]]
                0 <= i < random.len() ==> {
                    let hi = id[name.len() + 1 + 2 * i];
                    let lo = id[name.len() + 2 + 2 * i];
                    &&& hi == hex_digit(random[i] / 16)
                    &&& lo == hex_digit(random[i] % 16)
                    &&& (('0' <= hi <= '9') || ('a' <= hi <= 'f'))
                    &&& (('0' <= lo <= '9') || ('a' <= lo <= 'f'))
                }
        }),
{
    lemma_hex_lower_digits(random);
    reveal_strlit("_");
    reveal_strlit("unknown");
    let name = match hostname {
        Some(h) => h,
        None => "unknown"@,
    };
    let hex = hex_lower(random);
    let id = identity_text(hostname, random);
    assert(id == name + "_"@ + hex);
    assert(id.take(name.len() as int) =~= name);
    assert(id[name.len() as int] == '_');
    assert forall|i: int|
        #![trigger random[i]]
        0 <= i < random.len() implies {
            let hi = id[name.len() + 1 + 2 * i];
            let lo = id[name.len() + 2 + 2 * i];
            &&& hi == hex_digit(random[i] / 16)
            &&& lo == hex_digit(random[i] % 16)
            &&& (('0' <= hi <= '9') || ('a' <= hi <= 'f'))
            &&& (('0' <= lo <= '9') || ('a' <= lo <= 'f'))
        } by {
        assert(id[name.len() + 1 + 2 * i] == hex[2 * i]);
        assert(id[name.len() + 2 + 2 * i] == hex[2 * i + 1]);
        lemma_hex_digit_range((random[i] / 16) as u8);
        lemma_hex_digit_range((random[i] % 16) as u8);
    }
}

proof fn lemma_hex_digit_range(n: u8)
    requires
        n < 16,
    ensures
        ('0' <= hex_digit(n) <= '9') || ('a' <= hex_digit(n) <= 'f'),
{
}

proof fn lemma_hex_lower_digits(bytes: Seq<u8>)
    ensures
        hex_lower(bytes).len() == 2 * bytes.len(),
        forall|i: int|
            0 <= i < bytes.len() ==> hex_lower(bytes)[2 * i] == hex_digit(bytes[i] / 16)
                && hex_lower(bytes)[2 * i + 1] == hex_digit(bytes[i] % 16),
    decreases bytes.len(),
{
    if bytes.len() > 0 {
        let rest = bytes.drop_last();
        lemma_hex_lower_digits(rest);
        assert forall|i: int|
            0 <= i < bytes.len() implies hex_lower(bytes)[2 * i] == hex_digit(bytes[i] / 16)
                && hex_lower(bytes)[2 * i + 1] == hex_digit(bytes[i] % 16) by {
            if i < rest.len() {
                assert(rest[i] == bytes[i]);
            }
        }
    }
}

} // verus!
