use vstd::prelude::*;

verus! {

/// HTTP status for a passing probe: 204 No Content.
pub const NO_CONTENT: u16 = 204;

/// HTTP status for a failing probe: 503 Service Unavailable.
pub const SERVICE_UNAVAILABLE: u16 = 503;

/// A query to the daemon failed: it could not be reached, or answered with
/// an error.
#[derive(Clone, Copy, Debug, PartialEq, Eq, Structural)]
pub struct QueryFailure;

/// The torrents that a count query selects.
#[derive(Clone, Copy, Debug, PartialEq, Eq, Structural)]
pub enum ItemFilter {
    /// Torrents in an active transfer state.
    Resumed,
    /// Active torrents that make no transfer progress.
    Stalled,
}

/// The liveness verdict.
#[derive(Clone, Copy, Debug, PartialEq, Eq, Structural)]
pub enum Liveness {
    Healthy,
    Unhealthy,
}

/// The readiness verdict.
#[derive(Clone, Copy, Debug, PartialEq, Eq, Structural)]
pub enum Readiness {
    Ready,
    NotReady,
}

/// The daemon's network connection status. `Unknown` stands for any status
/// that the daemon reports beyond the three named ones.
#[derive(Clone, Copy, Debug, PartialEq, Eq, Structural)]
pub enum ConnectionState {
    Connected,
    Firewalled,
    Disconnected,
    Unknown,
}

impl Liveness {
    /// The HTTP status that answers a liveness probe.
    pub fn status_code(&self) -> (r: u16)
        ensures
            r == (if *self == Liveness::Healthy { NO_CONTENT } else { SERVICE_UNAVAILABLE }),
    {
        match self {
            Liveness::Healthy => NO_CONTENT,
            Liveness::Unhealthy => SERVICE_UNAVAILABLE,
        }
    }
}

impl Readiness {
    /// The HTTP status that answers a readiness probe.
    pub fn status_code(&self) -> (r: u16)
        ensures
            r == (if *self == Readiness::Ready { NO_CONTENT } else { SERVICE_UNAVAILABLE }),
    {
        match self {
            Readiness::Ready => NO_CONTENT,
            Readiness::NotReady => SERVICE_UNAVAILABLE,
        }
    }
}

/// The liveness verdict for the outcome of the resumed-count query and of
/// the stalled-count query. The daemon is unhealthy when a query fails, or
/// when there are resumed torrents and at least as many stalled ones; an
/// idle daemon is healthy whatever the stalled count.
pub open spec fn liveness_of(
    resumed: Result<usize, QueryFailure>,
    stalled: Result<usize, QueryFailure>,
) -> Liveness {
    match resumed {
        Err(_) => Liveness::Unhealthy,
        Ok(n) => if n == 0 {
            Liveness::Healthy
        } else {
            match stalled {
                Err(_) => Liveness::Unhealthy,
                Ok(s) => if s >= n {
                    Liveness::Unhealthy
                } else {
                    Liveness::Healthy
                },
            }
        },
    }
}

/// One liveness evaluation: which count it waits for, or the verdict it
/// reached. The caller runs the queries that `next_query` names and hands
/// each outcome to `record`.
#[derive(Clone, Copy, Debug, PartialEq, Eq, Structural)]
pub enum LivenessProbe {
    /// Waiting for the number of resumed torrents.
    AwaitingResumed,
    /// Waiting for the number of stalled torrents; `resumed` of them are
    /// resumed, and there is at least one.
    AwaitingStalled { resumed: usize },
    /// The evaluation is over.
    Decided(Liveness),
}

impl LivenessProbe {
    /// Whether the probe is consistent: a pending stalled query follows a
    /// non-zero resumed count.
    pub open spec fn wf(self) -> bool {
        self matches LivenessProbe::AwaitingStalled { resumed } ==> resumed > 0
    }

    /// The query that the probe waits for, if any.
    pub open spec fn pending_spec(self) -> Option<ItemFilter> {
        match self {
            LivenessProbe::AwaitingResumed => Some(ItemFilter::Resumed),
            LivenessProbe::AwaitingStalled { .. } => Some(ItemFilter::Stalled),
            LivenessProbe::Decided(_) => None,
        }
    }

    /// The probe after the outcome of its pending query.
    pub open spec fn record_spec(self, outcome: Result<usize, QueryFailure>) -> LivenessProbe {
        match self {
            LivenessProbe::AwaitingResumed => match outcome {
                Err(_) => LivenessProbe::Decided(Liveness::Unhealthy),
                Ok(n) => if n == 0 {
                    LivenessProbe::Decided(Liveness::Healthy)
                } else {
                    LivenessProbe::AwaitingStalled { resumed: n }
                },
            },
            LivenessProbe::AwaitingStalled { resumed } => match outcome {
                Err(_) => LivenessProbe::Decided(Liveness::Unhealthy),
                Ok(s) => LivenessProbe::Decided(
                    if s >= resumed {
                        Liveness::Unhealthy
                    } else {
                        Liveness::Healthy
                    },
                ),
            },
            LivenessProbe::Decided(v) => LivenessProbe::Decided(v),
        }
    }

    /// A fresh evaluation, which first asks for the resumed count.
    pub fn new() -> (r: LivenessProbe)
        ensures
            r == LivenessProbe::AwaitingResumed,
            r.wf(),
    {
        LivenessProbe::AwaitingResumed
    }

    /// The query to run next, or `None` once the verdict is reached.
    pub fn next_query(&self) -> (r: Option<ItemFilter>)
        ensures
            r == self.pending_spec(),
    {
        match self {
            LivenessProbe::AwaitingResumed => Some(ItemFilter::Resumed),
            LivenessProbe::AwaitingStalled { .. } => Some(ItemFilter::Stalled),
            LivenessProbe::Decided(_) => None,
        }
    }

    /// Takes the outcome of the pending query: a failure decides
    /// `Unhealthy`, no resumed torrent decides `Healthy`, some resumed
    /// torrents ask for the stalled count, and the stalled count decides
    /// `Unhealthy` when it reaches the resumed count. A decided probe stays
    /// as it is.
    pub fn record(self, outcome: Result<usize, QueryFailure>) -> (r: LivenessProbe)
        ensures
            r == self.record_spec(outcome),
            r.wf(),
    {
        match self {
            LivenessProbe::AwaitingResumed => match outcome {
                Err(_) => LivenessProbe::Decided(Liveness::Unhealthy),
                Ok(n) => if n == 0 {
                    LivenessProbe::Decided(Liveness::Healthy)
                } else {
                    LivenessProbe::AwaitingStalled { resumed: n }
                },
            },
            LivenessProbe::AwaitingStalled { resumed } => match outcome {
                Err(_) => LivenessProbe::Decided(Liveness::Unhealthy),
                Ok(s) => LivenessProbe::Decided(
                    if s >= resumed {
                        Liveness::Unhealthy
                    } else {
                        Liveness::Healthy
                    },
                ),
            },
            LivenessProbe::Decided(v) => LivenessProbe::Decided(v),
        }
    }

    /// The verdict, once reached.
    pub fn verdict(&self) -> (r: Option<Liveness>)
        ensures
            r == (match *self {
                LivenessProbe::Decided(v) => Some(v),
                _ => None,
            }),
    {
        match self {
            LivenessProbe::Decided(v) => Some(*v),
            _ => None,
        }
    }
}

/// The liveness verdict once both counts are known: unhealthy on a failed
/// query, healthy with no resumed torrent, else unhealthy exactly when the
/// stalled torrents are at least as many as the resumed ones.
pub fn evaluate_liveness(
    resumed: Result<usize, QueryFailure>,
    stalled: Result<usize, QueryFailure>,
) -> (r: Liveness)
    ensures
        r == liveness_of(resumed, stalled),
{
    match resumed {
        Err(_) => Liveness::Unhealthy,
        Ok(n) => if n == 0 {
            Liveness::Healthy
        } else {
            match stalled {
                Err(_) => Liveness::Unhealthy,
                Ok(s) => if s >= n {
                    Liveness::Unhealthy
                } else {
                    Liveness::Healthy
                },
            }
        },
    }
}

/// A liveness evaluation asks first for the resumed count. It stops there,
/// without asking for the stalled count, exactly when that query fails or
/// finds no resumed torrent; otherwise it asks for the stalled count once
/// and then stops. Either way it reaches `liveness_of` of the two outcomes,
/// whatever the stalled query would have returned where it was not asked.
pub proof fn lemma_liveness_probe_run(
    resumed: Result<usize, QueryFailure>,
    stalled: Result<usize, QueryFailure>,
)
    ensures
        LivenessProbe::AwaitingResumed.pending_spec() == Some(ItemFilter::Resumed),
        ({
            let first = LivenessProbe::AwaitingResumed.record_spec(resumed);
            &&& (first.pending_spec() is None <==> (resumed is Err || resumed == Ok::<
                usize,
                QueryFailure,
            >(0)))
            &&& first.pending_spec() is None ==> first == LivenessProbe::Decided(
                liveness_of(resumed, stalled),
            )
            &&& first.pending_spec() is Some ==> {
                &&& first.wf()
                &&& first.pending_spec() == Some(ItemFilter::Stalled)
                &&& first.record_spec(stalled) == LivenessProbe::Decided(
                    liveness_of(resumed, stalled),
                )
            }
        }),
{
}

/// An idle daemon is live: with no resumed torrent the verdict is
/// `Healthy`, whatever the stalled query returns or whether it fails.
pub proof fn lemma_idle_daemon_is_healthy(stalled: Result<usize, QueryFailure>)
    ensures
        liveness_of(Ok(0), stalled) == Liveness::Healthy,
        LivenessProbe::AwaitingResumed.record_spec(Ok(0)) == LivenessProbe::Decided(
            Liveness::Healthy,
        ),
{
}

/// A failed resumed-count query decides `Unhealthy` at once: no stalled
/// query follows it.
pub proof fn lemma_failed_first_query_short_circuits(stalled: Result<usize, QueryFailure>)
    ensures
        liveness_of(Err(QueryFailure), stalled) == Liveness::Unhealthy,
        LivenessProbe::AwaitingResumed.record_spec(Err(QueryFailure)).pending_spec() is None,
        LivenessProbe::AwaitingResumed.record_spec(Err(QueryFailure)) == LivenessProbe::Decided(
            Liveness::Unhealthy,
        ),
{
}

/// The readiness verdict for the outcome of the connection-status query.
pub open spec fn readiness_of(state: Result<ConnectionState, QueryFailure>) -> Readiness {
    match state {
        Ok(ConnectionState::Connected) => Readiness::Ready,
        Ok(ConnectionState::Firewalled) => Readiness::Ready,
        _ => Readiness::NotReady,
    }
}

/// Classifies the outcome of the connection-status query: `Ready` for a
/// connected or firewalled daemon, `NotReady` for any other status and for
/// a failed query.
pub fn evaluate_readiness(state: Result<ConnectionState, QueryFailure>) -> (r: Readiness)
    ensures
        r == readiness_of(state),
        r == Readiness::Ready <==> (state == Ok::<ConnectionState, QueryFailure>(
            ConnectionState::Connected,
        ) || state == Ok::<ConnectionState, QueryFailure>(ConnectionState::Firewalled)),
{
    match state {
        Ok(ConnectionState::Connected) | Ok(ConnectionState::Firewalled) => Readiness::Ready,
        _ => Readiness::NotReady,
    }
}

} // verus!
