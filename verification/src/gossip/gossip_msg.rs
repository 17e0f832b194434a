//! The message choice of the effects record.
use vstd::prelude::*;
use crate::gossip::effects::{
    GossipPing, GossipPong, GossipPruneMessage, GossipPullRequest, GossipPullResponse,
    GossipPushMessage, SpecGossipPruneMessage, SpecGossipPullRequest, SpecGossipValuesMessage,
};
use crate::gossip::protocol::{SpecPing, SpecPong};

verus! {

/// Model of the message choice of the effects record.
pub enum SpecMsg {
    Ping(SpecPing),
    Pong(SpecPong),
    PullRequest(SpecGossipPullRequest),
    PullResponse(SpecGossipValuesMessage),
    PushMessage(SpecGossipValuesMessage),
    PruneMessage(SpecGossipPruneMessage),
}

#[derive(Debug)]
pub enum Msg {
    Ping(GossipPing),
    Pong(GossipPong),
    PullRequest(GossipPullRequest),
    PullResponse(GossipPullResponse),
    PushMessage(GossipPushMessage),
    PruneMessage(GossipPruneMessage),
}

impl View for Msg {
    type V = SpecMsg;

    open spec fn view(&self) -> SpecMsg {
        match self {
            Msg::Ping(p) => SpecMsg::Ping(p@),
            Msg::Pong(p) => SpecMsg::Pong(p@),
            Msg::PullRequest(m) => SpecMsg::PullRequest(m@),
            Msg::PullResponse(m) => SpecMsg::PullResponse(m@),
            Msg::PushMessage(m) => SpecMsg::PushMessage(m@),
            Msg::PruneMessage(m) => SpecMsg::PruneMessage(m@),
        }
    }
}

} // verus!
