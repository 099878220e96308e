//! The request that deletes a traffic-control filter chain.

use vstd::prelude::*;

use crate::traffic_control::add_chain::ChainRequestView;
use crate::traffic_control::message::{
    message_with_index, nlm_f_ack, nlm_f_request, ChainResponse, ChainStep, TcAttribute,
    TcAttributeView, TcHandle, TcMessage,
};

verus! {

/// A request that deletes a filter chain (`RTM_DELCHAIN`).
///
/// It holds the traffic-control message to send and the flags of the
/// netlink header; whoever executes it sends `into_request`'s message and
/// passes the first reply to `next_step`.
#[derive(Debug, Clone)]
pub struct TrafficChainDelRequest {
    message: TcMessage,
    flags: u16,
}

/// The header flags of a request that deletes a chain:
/// `NLM_F_REQUEST | NLM_F_ACK`.
pub open spec fn del_chain_flags() -> u16 {
    1u16 | 4u16
}

impl View for TrafficChainDelRequest {
    type V = ChainRequestView;

    closed spec fn view(&self) -> ChainRequestView {
        ChainRequestView { message: self.message@, flags: self.flags }
    }
}

impl TrafficChainDelRequest {
    /// A request that deletes a chain of the interface `ifindex`.
    pub fn new(ifindex: i32) -> (res: Self)
        ensures
            res@.message == message_with_index(ifindex),
            res@.flags == del_chain_flags(),
    {
        let flags: u16 = nlm_f_request() | nlm_f_ack();
        TrafficChainDelRequest { message: TcMessage::with_index(ifindex), flags }
    }

    /// Sets the interface index. Equivalent to `dev STRING`; dev and block
    /// are mutually exclusive.
    pub fn index(self, index: i32) -> (res: Self)
        ensures
            res@.message == self@.message.set_index(index),
            res@.flags == self@.flags,
    {
        let mut res = self;
        res.message.set_index(index);
        res
    }

    /// Sets the block index. Equivalent to `block BLOCK_INDEX`.
    pub fn block(self, block_index: u32) -> (res: Self)
        ensures
            res@.message == self@.message.set_block(block_index),
            res@.flags == self@.flags,
    {
        let mut res = self;
        res.message.set_block(block_index);
        res
    }

    /// The same request with the chain `chain` added.
    pub fn chain(self, chain: u32) -> (res: Self)
        ensures
            res@.message == self@.message.push_attribute(TcAttributeView::Chain(chain)),
            res@.flags == self@.flags,
    {
        let mut res = self;
        res.message.push_attribute(TcAttribute::Chain(chain));
        res
    }

    /// Sets the parent qdisc.
    pub fn parent(self, parent: TcHandle) -> (res: Self)
        ensures
            res@.message == self@.message.set_parent(parent),
            res@.flags == self@.flags,
    {
        let mut res = self;
        res.message.set_parent(parent);
        res
    }

    /// The message to send and the flags of its netlink header, which are
    /// the request's flags.
    pub fn into_request(self) -> (res: (TcMessage, u16))
        ensures
            res.0@ == self@.message,
            res.1 == self@.flags,
    {
        (self.message, self.flags)
    }

    /// What the request does after the reply `response`, the first one: it
    /// fails on an error report and succeeds otherwise, without waiting for
    /// more replies.
    pub fn next_step(response: ChainResponse) -> (res: ChainStep)
        ensures
            res == (match response {
                ChainResponse::Message { is_error: true } => ChainStep::Fail,
                _ => ChainStep::Succeed,
            }),
    {
        match response {
            ChainResponse::Message { is_error } => {
                if is_error {
                    ChainStep::Fail
                } else {
                    ChainStep::Succeed
                }
            },
            ChainResponse::End => ChainStep::Succeed,
        }
    }
}

} // verus!
