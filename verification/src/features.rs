//! Feature-bit negotiation.
//!
//! On every process start the node's announcement must come to advertise the
//! onion-messaging feature bit, because the node does not persist custom
//! feature bits across restarts. Negotiation is a two-phase verified write:
//! query the advertised capability set, submit an "add feature bit" update if
//! the bit is absent, then re-query to confirm the update actually took
//! effect rather than trusting the update response.
//!
//! The remote capability and announcement services are reached through the
//! [`NodeInfoRetriever`] and [`UpdateNodeAnnouncement`] traits; the transport
//! that implements them lives outside the library. Every decision the
//! negotiator takes is a function of the values those calls return, stated by
//! [`set_feature_bit_outcome`] and [`negotiation_outcome`] and proved of the
//! executable steps.

use vstd::prelude::*;

use crate::status::{Status, CODE_UNIMPLEMENTED};

verus! {

/// The feature bit that advertises optional onion-messaging support.
pub const ONION_MESSAGES_OPTIONAL: u32 = 39;

/// The action value that asks the announcement service to add a feature bit
/// (as opposed to removing one).
pub const UPDATE_ACTION_ADD: i32 = 0;

/// A capability query carries no parameters.
pub struct GetInfoRequest {}

/// What the library reads of a capability query's answer: the set of feature
/// bits the node currently advertises.
pub struct NodeInfo {
    pub features: Vec<u32>,
}

/// One change to the advertised feature set: an action applied to one bit.
pub struct UpdateFeatureAction {
    pub action: i32,
    pub feature_bit: i32,
}

/// An announcement update: the feature changes to apply.
pub struct NodeAnnouncementUpdateRequest {
    pub feature_updates: Vec<UpdateFeatureAction>,
}

/// Why negotiation failed. The kinds need different operator remediation,
/// so each failure names its step: the announcement service not being
/// enabled at all, an update that was accepted but not reflected, an update
/// the service rejected, and a capability query that failed.
#[derive(Debug)]
pub enum SetOnionBitError {
    UnimplementedPeersService,
    SetBitFail,
    UpdateAnnouncementErr(Status),
    GetInfoErr(Status),
}

impl SetOnionBitError {
    /// A human-readable description of the failure kind.
    pub fn message(&self) -> (r: &'static str)
        ensures
            *self is UnimplementedPeersService ==> r@
                == "peer service is unimplemented, remember to enable the peerrpc services when building LND with make tags='peerrpc signrpc'"@,
            *self is SetBitFail ==> r@ == "onion messaging feature bit failed to be set"@,
            *self is UpdateAnnouncementErr ==> r@ == "error setting update announcement"@,
            *self is GetInfoErr ==> r@ == "get_info error"@,
    {
        match self {
            SetOnionBitError::UnimplementedPeersService => "peer service is unimplemented, remember to enable the peerrpc services when building LND with make tags='peerrpc signrpc'",
            SetOnionBitError::SetBitFail => "onion messaging feature bit failed to be set",
            SetOnionBitError::UpdateAnnouncementErr(_) => "error setting update announcement",
            SetOnionBitError::GetInfoErr(_) => "get_info error",
        }
    }
}

/// The node's capability query service: answers with the advertised feature
/// set, or with the transport's failure status. Implemented outside the
/// library over the node's RPC connection, and by test doubles.
pub trait NodeInfoRetriever {
    fn get_info(&mut self, request: GetInfoRequest) -> Result<NodeInfo, Status>;
}

/// The node's announcement-management service: applies a feature update, or
/// answers with the transport's failure status. Implemented outside the
/// library over the node's RPC connection, and by test doubles.
pub trait UpdateNodeAnnouncement {
    fn update_node_announcement(&mut self, request: NodeAnnouncementUpdateRequest) -> Result<
        (),
        Status,
    >;
}

/// How a failed update call is diagnosed: an unimplemented service is its
/// own kind, anything else keeps its status as a generic update failure.
pub open spec fn spec_classify_update_status(status: Status) -> SetOnionBitError {
    if status.code == CODE_UNIMPLEMENTED {
        SetOnionBitError::UnimplementedPeersService
    } else {
        SetOnionBitError::UpdateAnnouncementErr(status)
    }
}

/// What the verification step concludes from a re-queried feature set.
pub open spec fn spec_verify_outcome(features: Seq<u32>) -> Result<(), SetOnionBitError> {
    if features.contains(ONION_MESSAGES_OPTIONAL) {
        Ok(())
    } else {
        Err(SetOnionBitError::SetBitFail)
    }
}

/// The outcome of the update-then-verify sequence as a function of what the
/// two remote calls returned: a failed update is classified and terminal (the
/// verification query is never reached), a failed verification query is a
/// query failure, and otherwise the re-queried feature set decides.
pub open spec fn set_feature_bit_outcome(
    update_result: Result<(), Status>,
    verify_result: Result<NodeInfo, Status>,
) -> Result<(), SetOnionBitError> {
    match update_result {
        Err(status) => Err(spec_classify_update_status(status)),
        Ok(_) => match verify_result {
            Err(status) => Err(SetOnionBitError::GetInfoErr(status)),
            Ok(info) => spec_verify_outcome(info.features@),
        },
    }
}

/// The outcome of a whole negotiation as a function of what the remote calls
/// returned: if the initial query already shows the bit, negotiation is a
/// no-op success and the update and verification steps never run; otherwise
/// the update-then-verify sequence decides.
pub open spec fn negotiation_outcome(
    initial_result: Result<NodeInfo, Status>,
    update_result: Result<(), Status>,
    verify_result: Result<NodeInfo, Status>,
) -> Result<(), SetOnionBitError> {
    match initial_result {
        Err(status) => Err(SetOnionBitError::GetInfoErr(status)),
        Ok(info) => if info.features@.contains(ONION_MESSAGES_OPTIONAL) {
            Ok(())
        } else {
            set_feature_bit_outcome(update_result, verify_result)
        },
    }
}

/// Whether a feature set contains a given bit.
pub fn contains_bit(features: &Vec<u32>, bit: u32) -> (r: bool)
    ensures
        r == features@.contains(bit),
{
    let mut i: usize = 0;
    while i < features.len()
        invariant
            i <= features@.len(),
            forall|j: int| 0 <= j < i ==> features@[j] != bit,
        decreases features@.len() - i,
    {
        if features[i] == bit {
            assert(features@[i as int] == bit);
            return true;
        }
        i += 1;
    }
    false
}

/// Whether a capability query's answer already advertises onion messaging.
pub fn onion_bit_set(info: &NodeInfo) -> (r: bool)
    ensures
        r == info.features@.contains(ONION_MESSAGES_OPTIONAL),
{
    contains_bit(&info.features, ONION_MESSAGES_OPTIONAL)
}

/// Diagnose a failed update call; see [`spec_classify_update_status`].
pub fn classify_update_status(status: Status) -> (r: SetOnionBitError)
    ensures
        r == spec_classify_update_status(status),
{
    if status.code == CODE_UNIMPLEMENTED {
        SetOnionBitError::UnimplementedPeersService
    } else {
        SetOnionBitError::UpdateAnnouncementErr(status)
    }
}

/// The one announcement update this library ever submits: add the
/// onion-messaging feature bit.
pub fn feature_update_request() -> (r: NodeAnnouncementUpdateRequest)
    ensures
        r.feature_updates@.len() == 1,
        r.feature_updates@[0].action == UPDATE_ACTION_ADD,
        r.feature_updates@[0].feature_bit == ONION_MESSAGES_OPTIONAL as i32,
{
    let mut feature_updates: Vec<UpdateFeatureAction> = Vec::new();
    feature_updates.push(
        UpdateFeatureAction {
            action: UPDATE_ACTION_ADD,
            feature_bit: ONION_MESSAGES_OPTIONAL as i32,
        },
    );
    NodeAnnouncementUpdateRequest { feature_updates }
}

/// The verification step: conclude from a re-queried feature set whether the
/// update took effect; see [`spec_verify_outcome`].
pub fn verify_feature_bit(info: &NodeInfo) -> (r: Result<(), SetOnionBitError>)
    ensures
        r == spec_verify_outcome(info.features@),
{
    if onion_bit_set(info) {
        Ok(())
    } else {
        Err(SetOnionBitError::SetBitFail)
    }
}

/// Submit the "add feature bit" update, then re-query the capability set to
/// confirm the bit is now advertised. Success is reported only after the
/// second, independent query observes the bit; an update failure is terminal
/// and the verification query is then never issued. The result is always the
/// decision table [`set_feature_bit_outcome`] applied to what the two remote
/// calls returned.
pub fn set_feature_bit<C: NodeInfoRetriever, U: UpdateNodeAnnouncement>(
    client: &mut C,
    peers_client: &mut U,
) -> (r: Result<(), SetOnionBitError>)
    ensures
        exists|u: Result<(), Status>, q: Result<NodeInfo, Status>|
            r == #[trigger] set_feature_bit_outcome(u, q),
{
    match peers_client.update_node_announcement(feature_update_request()) {
        Err(status) => {
            let ghost witness_update: Result<(), Status> = Err(status);
            let ghost witness_verify: Result<NodeInfo, Status> = Err(status);
            let diagnosed = classify_update_status(status);
            proof {
                assert(Err::<(), SetOnionBitError>(diagnosed) == set_feature_bit_outcome(
                    witness_update,
                    witness_verify,
                ));
            }
            Err(diagnosed)
        },
        Ok(_) => match client.get_info(GetInfoRequest {}) {
            Err(status) => {
                let ghost witness_verify: Result<NodeInfo, Status> = Err(status);
                proof {
                    assert(Err::<(), SetOnionBitError>(SetOnionBitError::GetInfoErr(status))
                        == set_feature_bit_outcome(Ok(()), witness_verify));
                }
                Err(SetOnionBitError::GetInfoErr(status))
            },
            Ok(info) => {
                let outcome = verify_feature_bit(&info);
                proof {
                    assert(outcome == set_feature_bit_outcome(Ok(()), Ok(info)));
                }
                outcome
            },
        },
    }
}

/// Run a whole negotiation: query the capability set, stop successfully if
/// the bit is already advertised, and otherwise run the update-then-verify
/// sequence. The result is always the decision table [`negotiation_outcome`]
/// applied to what the remote calls returned.
pub fn ensure_onion_messaging_bit<C: NodeInfoRetriever, U: UpdateNodeAnnouncement>(
    client: &mut C,
    peers_client: &mut U,
) -> (r: Result<(), SetOnionBitError>)
    ensures
        exists|
            q1: Result<NodeInfo, Status>,
            u: Result<(), Status>,
            q2: Result<NodeInfo, Status>,
        | r == #[trigger] negotiation_outcome(q1, u, q2),
{
    match client.get_info(GetInfoRequest {}) {
        Err(status) => {
            let ghost witness_initial: Result<NodeInfo, Status> = Err(status);
            proof {
                assert(Err::<(), SetOnionBitError>(SetOnionBitError::GetInfoErr(status))
                    == negotiation_outcome(witness_initial, Ok(()), witness_initial));
            }
            Err(SetOnionBitError::GetInfoErr(status))
        },
        Ok(info) => {
            let ghost witness_initial: Result<NodeInfo, Status> = Ok(info);
            if onion_bit_set(&info) {
                proof {
                    assert(Ok::<(), SetOnionBitError>(()) == negotiation_outcome(
                        witness_initial,
                        Ok(()),
                        witness_initial,
                    ));
                }
                Ok(())
            } else {
                let rest = set_feature_bit(client, peers_client);
                proof {
                    let (u, q) = choose|u: Result<(), Status>, q: Result<NodeInfo, Status>|
                        rest == #[trigger] set_feature_bit_outcome(u, q);
                    assert(rest == negotiation_outcome(witness_initial, u, q));
                }
                rest
            }
        },
    }
}

/// Law: a capability set that already advertises the bit makes negotiation a
/// no-op success — the outcome is `Ok` whatever the update and verification
/// steps would have returned, so no update call is needed at all.
pub proof fn lemma_negotiation_noop_when_bit_present(
    info: NodeInfo,
    update_result: Result<(), Status>,
    verify_result: Result<NodeInfo, Status>,
)
    requires
        info.features@.contains(ONION_MESSAGES_OPTIONAL),
    ensures
        negotiation_outcome(Ok(info), update_result, verify_result) == Ok::<
            (),
            SetOnionBitError,
        >(()),
{
}

/// Law: an update success followed by a verification query whose answer
/// contains the bit makes negotiation succeed.
pub proof fn lemma_negotiation_success_when_verified(info: NodeInfo)
    requires
        info.features@.contains(ONION_MESSAGES_OPTIONAL),
    ensures
        set_feature_bit_outcome(Ok(()), Ok(info)) == Ok::<(), SetOnionBitError>(()),
{
}

/// Law: an update success whose verification query does not show the bit
/// fails with the dedicated "did not take effect" kind, guarding against a
/// service that accepts writes it does not apply.
pub proof fn lemma_negotiation_bit_did_not_take_effect(info: NodeInfo)
    requires
        !info.features@.contains(ONION_MESSAGES_OPTIONAL),
    ensures
        set_feature_bit_outcome(Ok(()), Ok(info)) == Err::<(), SetOnionBitError>(
            SetOnionBitError::SetBitFail,
        ),
{
}

/// Law: an update call rejected as unimplemented fails with the "service
/// not enabled" kind, and any other rejection keeps its status as a generic
/// update failure — the two kinds never coincide. In either case the
/// verification query does not matter.
pub proof fn lemma_update_failure_classified(
    status: Status,
    verify_result: Result<NodeInfo, Status>,
)
    ensures
        status.code == CODE_UNIMPLEMENTED ==> set_feature_bit_outcome(Err(status), verify_result)
            == Err::<(), SetOnionBitError>(SetOnionBitError::UnimplementedPeersService),
        status.code != CODE_UNIMPLEMENTED ==> set_feature_bit_outcome(Err(status), verify_result)
            == Err::<(), SetOnionBitError>(SetOnionBitError::UpdateAnnouncementErr(status)),
        SetOnionBitError::UnimplementedPeersService != SetOnionBitError::UpdateAnnouncementErr(
            status,
        ),
{
}

} // verus!
