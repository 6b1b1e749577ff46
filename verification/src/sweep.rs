//! Planning one reconciliation sweep: evaluate every open channel
//! independently against the tier table and decide, per channel, whether a
//! policy update must be issued, with every per-channel failure isolated to
//! that channel.

use crate::outpoint::{parse_outpoint, spec_parse_outpoint, Outpoint, OutpointV};
use crate::policy::{
    needs_update, spec_needs_update, spec_target_policy, target_policy, spec_applied,
    CurrentPolicy, TargetPolicy, Tiers,
};
use vstd::prelude::*;

verus! {

/// The per-channel facts a sweep reads: the channel identifier, its funding
/// channel point, and the balance split. Fetched fresh every sweep.
pub struct ChannelSnapshot {
    pub chan_id: u64,
    pub channel_point: String,
    pub local_balance: i64,
    pub capacity: i64,
}

/// The mathematical content of a `ChannelSnapshot`.
pub struct ChannelSnapshotV {
    pub chan_id: u64,
    pub channel_point: Seq<char>,
    pub local_balance: i64,
    pub capacity: i64,
}

impl View for ChannelSnapshot {
    type V = ChannelSnapshotV;

    open spec fn view(&self) -> ChannelSnapshotV {
        ChannelSnapshotV {
            chan_id: self.chan_id,
            channel_point: self.channel_point@,
            local_balance: self.local_balance,
            capacity: self.capacity,
        }
    }
}

/// Both sides' advertised policies for a channel, each tagged with the
/// identity of the node that advertises it; a side's policy may be absent.
pub struct ChannelEdge {
    pub node1_pub: String,
    pub node1_policy: Option<CurrentPolicy>,
    pub node2_pub: String,
    pub node2_policy: Option<CurrentPolicy>,
}

/// The mathematical content of a `ChannelEdge`.
pub struct ChannelEdgeV {
    pub node1_pub: Seq<char>,
    pub node1_policy: Option<CurrentPolicy>,
    pub node2_pub: Seq<char>,
    pub node2_policy: Option<CurrentPolicy>,
}

impl View for ChannelEdge {
    type V = ChannelEdgeV;

    open spec fn view(&self) -> ChannelEdgeV {
        ChannelEdgeV {
            node1_pub: self.node1_pub@,
            node1_policy: self.node1_policy,
            node2_pub: self.node2_pub@,
            node2_policy: self.node2_policy,
        }
    }
}

/// What one channel contributes to a sweep: its snapshot, and the result of
/// querying its policy pair (`None` when the query failed).
pub struct ChannelInput {
    pub snapshot: ChannelSnapshot,
    pub edge: Option<ChannelEdge>,
}

/// The mathematical content of a `ChannelInput`.
pub struct ChannelInputV {
    pub snapshot: ChannelSnapshotV,
    pub edge: Option<ChannelEdgeV>,
}

impl View for ChannelInput {
    type V = ChannelInputV;

    open spec fn view(&self) -> ChannelInputV {
        ChannelInputV {
            snapshot: self.snapshot@,
            edge: match self.edge {
                Some(e) => Some(e@),
                None => None,
            },
        }
    }
}

/// An update request for one channel: the full target policy, scoped to the
/// channel's funding outpoint.
pub struct PolicyUpdate {
    pub outpoint: Outpoint,
    pub policy: TargetPolicy,
}

/// The mathematical content of a `PolicyUpdate`.
pub struct PolicyUpdateV {
    pub outpoint: OutpointV,
    pub policy: TargetPolicy,
}

impl View for PolicyUpdate {
    type V = PolicyUpdateV;

    open spec fn view(&self) -> PolicyUpdateV {
        PolicyUpdateV { outpoint: self.outpoint@, policy: self.policy }
    }
}

/// Why a channel's evaluation was abandoned; every such failure is isolated
/// to its channel.
#[derive(Clone, Copy, Debug, PartialEq, Eq, Structural)]
pub enum ChannelError {
    /// The channel point could not be parsed into a funding outpoint.
    MalformedOutpoint,
    /// The query for the channel's policy pair failed.
    PolicyFetchFailed,
    /// Neither side of the channel is owned by this node's identity.
    NoMatchingPolicy,
    /// The side owned by this node advertises no policy.
    MissingPolicy,
}

/// What a sweep decides for one channel.
pub enum ChannelOutcome {
    /// Issue this update for the channel.
    Update(PolicyUpdate),
    /// The advertised policy already matches the target: take no action.
    NoUpdate,
    /// Abandon this channel for this sweep.
    Skip(ChannelError),
}

/// The mathematical content of a `ChannelOutcome`.
pub enum ChannelOutcomeV {
    Update(PolicyUpdateV),
    NoUpdate,
    Skip(ChannelError),
}

impl View for ChannelOutcome {
    type V = ChannelOutcomeV;

    open spec fn view(&self) -> ChannelOutcomeV {
        match self {
            ChannelOutcome::Update(u) => ChannelOutcomeV::Update(u@),
            ChannelOutcome::NoUpdate => ChannelOutcomeV::NoUpdate,
            ChannelOutcome::Skip(e) => ChannelOutcomeV::Skip(*e),
        }
    }
}

/// The policy this node advertises for a channel: the side whose identity
/// equals `our_id`, or the reason none can be attributed.
pub open spec fn spec_select_policy(edge: ChannelEdgeV, our_id: Seq<char>) -> Result<
    CurrentPolicy,
    ChannelError,
> {
    if edge.node1_pub == our_id {
        match edge.node1_policy {
            Some(p) => Ok(p),
            None => Err(ChannelError::MissingPolicy),
        }
    } else if edge.node2_pub == our_id {
        match edge.node2_policy {
            Some(p) => Ok(p),
            None => Err(ChannelError::MissingPolicy),
        }
    } else {
        Err(ChannelError::NoMatchingPolicy)
    }
}

/// This node's advertised policy for the channel, from the fetched policy
/// pair.
pub fn select_policy(edge: &ChannelEdge, our_id: &String) -> (r: Result<
    CurrentPolicy,
    ChannelError,
>)
    ensures
        r == spec_select_policy(edge@, our_id@),
{
    if edge.node1_pub == *our_id {
        match edge.node1_policy {
            Some(p) => Ok(p),
            None => Err(ChannelError::MissingPolicy),
        }
    } else if edge.node2_pub == *our_id {
        match edge.node2_policy {
            Some(p) => Ok(p),
            None => Err(ChannelError::MissingPolicy),
        }
    } else {
        Err(ChannelError::NoMatchingPolicy)
    }
}

/// What a sweep decides for one channel: parse the channel point, attribute
/// this node's current policy, compute the target policy, and ask for an
/// update exactly when the fee fields differ.
pub open spec fn spec_plan_channel(
    tiers: Tiers,
    our_id: Seq<char>,
    input: ChannelInputV,
) -> ChannelOutcomeV {
    match spec_parse_outpoint(input.snapshot.channel_point) {
        None => ChannelOutcomeV::Skip(ChannelError::MalformedOutpoint),
        Some(op) => match input.edge {
            None => ChannelOutcomeV::Skip(ChannelError::PolicyFetchFailed),
            Some(edge) => match spec_select_policy(edge, our_id) {
                Err(e) => ChannelOutcomeV::Skip(e),
                Ok(current) => {
                    let target = spec_target_policy(
                        tiers,
                        input.snapshot.local_balance as int,
                        input.snapshot.capacity as int,
                        current,
                    );
                    if spec_needs_update(current, target) {
                        ChannelOutcomeV::Update(
                            PolicyUpdateV {
                                outpoint: OutpointV {
                                    funding_txid: op.0,
                                    output_index: op.1,
                                },
                                policy: target,
                            },
                        )
                    } else {
                        ChannelOutcomeV::NoUpdate
                    }
                },
            },
        },
    }
}

/// Decide one channel's outcome for this sweep.
pub fn plan_channel(tiers: &Tiers, our_id: &String, input: &ChannelInput) -> (o: ChannelOutcome)
    requires
        input.snapshot.capacity > 0,
        0 <= input.snapshot.local_balance <= input.snapshot.capacity,
    ensures
        o@ == spec_plan_channel(*tiers, our_id@, input@),
{
    match parse_outpoint(input.snapshot.channel_point.as_str()) {
        None => ChannelOutcome::Skip(ChannelError::MalformedOutpoint),
        Some(op) => match &input.edge {
            None => ChannelOutcome::Skip(ChannelError::PolicyFetchFailed),
            Some(edge) => match select_policy(edge, our_id) {
                Err(e) => ChannelOutcome::Skip(e),
                Ok(current) => {
                    let target = target_policy(
                        tiers,
                        input.snapshot.local_balance,
                        input.snapshot.capacity,
                        &current,
                    );
                    if needs_update(&current, &target) {
                        ChannelOutcome::Update(PolicyUpdate { outpoint: op, policy: target })
                    } else {
                        ChannelOutcome::NoUpdate
                    }
                },
            },
        },
    }
}

/// The outcomes of one full sweep: every channel evaluated independently.
pub open spec fn spec_plan_sweep(
    tiers: Tiers,
    our_id: Seq<char>,
    inputs: Seq<ChannelInputV>,
) -> Seq<ChannelOutcomeV> {
    inputs.map_values(|input: ChannelInputV| spec_plan_channel(tiers, our_id, input))
}

/// Decide every channel's outcome for this sweep, one channel at a time, each
/// from its own input alone.
pub fn plan_sweep(tiers: &Tiers, our_id: &String, inputs: &Vec<ChannelInput>) -> (outcomes: Vec<
    ChannelOutcome,
>)
    requires
        forall|j: int|
            0 <= j < inputs@.len() ==> (#[trigger] inputs@[j]).snapshot.capacity > 0
                && 0 <= inputs@[j].snapshot.local_balance <= inputs@[j].snapshot.capacity,
    ensures
        outcomes@.len() == inputs@.len(),
        forall|j: int|
            0 <= j < inputs@.len() ==> (#[trigger] outcomes@[j])@ == spec_plan_sweep(
                *tiers,
                our_id@,
                inputs@.map_values(|input: ChannelInput| input@),
            )[j],
{
    let n = inputs.len();
    let mut outcomes: Vec<ChannelOutcome> = Vec::new();
    let mut idx: usize = 0;
    while idx < n
        invariant
            n == inputs@.len(),
            0 <= idx <= n,
            outcomes@.len() == idx,
            forall|j: int|
                0 <= j < inputs@.len() ==> (#[trigger] inputs@[j]).snapshot.capacity > 0
                    && 0 <= inputs@[j].snapshot.local_balance <= inputs@[j].snapshot.capacity,
            forall|j: int|
                0 <= j < idx ==> (#[trigger] outcomes@[j])@ == spec_plan_channel(
                    *tiers,
                    our_id@,
                    inputs@[j]@,
                ),
        decreases n - idx,
    {
        let o = plan_channel(tiers, our_id, &inputs[idx]);
        outcomes.push(o);
        idx = idx + 1;
    }
    outcomes
}

/// Law (isolation): a channel's outcome is a function of that channel's input
/// alone; whatever happens to the other channels of a sweep, among them any
/// failure, a channel with the same input gets the same outcome.
pub proof fn lemma_isolation(
    tiers: Tiers,
    our_id: Seq<char>,
    a: Seq<ChannelInputV>,
    b: Seq<ChannelInputV>,
    j: int,
)
    requires
        0 <= j < a.len(),
        0 <= j < b.len(),
        a[j] == b[j],
    ensures
        spec_plan_sweep(tiers, our_id, a)[j] == spec_plan_sweep(tiers, our_id, b)[j],
{
}

/// The policy pair as the node's graph view reads once this node's side has
/// applied `target`: the matched side advertises the target's fields, the
/// peer's side is untouched.
pub open spec fn spec_edge_after_update(
    edge: ChannelEdgeV,
    our_id: Seq<char>,
    target: TargetPolicy,
) -> ChannelEdgeV {
    if edge.node1_pub == our_id {
        ChannelEdgeV { node1_policy: Some(spec_applied(target)), ..edge }
    } else if edge.node2_pub == our_id {
        ChannelEdgeV { node2_policy: Some(spec_applied(target)), ..edge }
    } else {
        edge
    }
}

/// Law (idempotence): once the update a sweep issued for a channel has been
/// applied, a second sweep that reads the same snapshot finds the advertised
/// policy equal to the target it recomputes, and issues nothing.
pub proof fn lemma_idempotent(
    tiers: Tiers,
    our_id: Seq<char>,
    snap: ChannelSnapshotV,
    edge: ChannelEdgeV,
    u: PolicyUpdateV,
)
    requires
        spec_plan_channel(tiers, our_id, ChannelInputV { snapshot: snap, edge: Some(edge) })
            == ChannelOutcomeV::Update(u),
    ensures
        spec_plan_channel(
            tiers,
            our_id,
            ChannelInputV {
                snapshot: snap,
                edge: Some(spec_edge_after_update(edge, our_id, u.policy)),
            },
        ) == ChannelOutcomeV::NoUpdate,
{
}

/// Law (field preservation): every update a sweep issues carries the
/// time-lock delta and the max-HTLC of the policy this node currently
/// advertises for that channel, unchanged.
pub proof fn lemma_field_preservation(
    tiers: Tiers,
    our_id: Seq<char>,
    snap: ChannelSnapshotV,
    edge: ChannelEdgeV,
    u: PolicyUpdateV,
)
    requires
        spec_plan_channel(tiers, our_id, ChannelInputV { snapshot: snap, edge: Some(edge) })
            == ChannelOutcomeV::Update(u),
    ensures
        spec_select_policy(edge, our_id) matches Ok(current)
            && u.policy.time_lock_delta == current.time_lock_delta
            && u.policy.max_htlc_msat == current.max_htlc_msat,
{
}

} // verus!
