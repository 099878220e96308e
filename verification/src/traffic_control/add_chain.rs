//! The request that creates a traffic-control filter chain.

use vstd::prelude::*;

use crate::traffic_control::message::{
    message_with_index, nlm_f_ack, nlm_f_create, nlm_f_excl, nlm_f_request, ChainResponse,
    ChainStep, Error, TcHandle, TcMessage, TcMessageView, TcAttribute, TcAttributeView,
    tc_handle_min_ingress, ingress_handle,
};

verus! {

/// A request that creates a filter chain (`RTM_NEWCHAIN`).
///
/// It holds the traffic-control message to send and the flags of the
/// netlink header. The connection that sends it is not part of it: whoever
/// executes the request sends `into_request`'s message with its flags and
/// passes each reply to `next_step`.
#[derive(Debug)]
pub struct TrafficChainNewRequest {
    message: TcMessage,
    flags: u16,
}

/// What a chain request holds.
#[verifier::ext_equal]
pub struct ChainRequestView {
    pub message: TcMessageView,
    pub flags: u16,
}

/// The header flags of a request that creates a chain:
/// `NLM_F_REQUEST | NLM_F_ACK | NLM_F_EXCL | NLM_F_CREATE`.
pub open spec fn new_chain_flags() -> u16 {
    1u16 | 4u16 | 512u16 | 1024u16
}

/// The header flags of a request that creates a chain are the request,
/// acknowledge, exclusive and create flags (`1`, `4`, `0x200`, `0x400`) and
/// no others; those of a request that deletes one are the request and
/// acknowledge flags alone.
pub proof fn lemma_chain_flags()
    ensures
        new_chain_flags() == 0x0605u16,
        crate::traffic_control::del_chain::del_chain_flags() == 0x0005u16,
{
    assert(1u16 | 4u16 | 512u16 | 1024u16 == 0x0605u16) by (bit_vector);
    assert(1u16 | 4u16 == 0x0005u16) by (bit_vector);
}

impl View for TrafficChainNewRequest {
    type V = ChainRequestView;

    closed spec fn view(&self) -> ChainRequestView {
        ChainRequestView { message: self.message@, flags: self.flags }
    }
}

impl TrafficChainNewRequest {
    /// A request that creates a chain on the interface `ifindex`.
    pub fn new(ifindex: i32) -> (res: Self)
        ensures
            res@.message == message_with_index(ifindex),
            res@.flags == new_chain_flags(),
    {
        let flags: u16 = nlm_f_request() | nlm_f_ack() | nlm_f_excl() | nlm_f_create();
        TrafficChainNewRequest { message: TcMessage::with_index(ifindex), flags }
    }

    /// The message to send and the flags of its netlink header: the
    /// request's flags together with
    /// `NLM_F_REQUEST | NLM_F_ACK | NLM_F_EXCL | NLM_F_CREATE`.
    pub fn into_request(self) -> (res: (TcMessage, u16))
        ensures
            res.0@ == self@.message,
            res.1 == (new_chain_flags() | self@.flags),
    {
        let flags: u16 = nlm_f_request() | nlm_f_ack() | nlm_f_excl() | nlm_f_create()
            | self.flags;
        (self.message, flags)
    }

    /// What the request does after the reply `response`: it fails on an
    /// error report, waits for the next reply after any other message, and
    /// succeeds when the replies end.
    pub fn next_step(response: ChainResponse) -> (res: ChainStep)
        ensures
            res == (match response {
                ChainResponse::Message { is_error: true } => ChainStep::Fail,
                ChainResponse::Message { is_error: false } => ChainStep::AwaitNext,
                ChainResponse::End => ChainStep::Succeed,
            }),
    {
        match response {
            ChainResponse::Message { is_error } => {
                if is_error {
                    ChainStep::Fail
                } else {
                    ChainStep::AwaitNext
                }
            },
            ChainResponse::End => ChainStep::Succeed,
        }
    }

    /// The same request with the chain `chain` added.
    pub fn chain(self, chain: u32) -> (res: Self)
        ensures
            res@.message == self@.message.push_attribute(TcAttributeView::Chain(chain)),
            res@.flags == self@.flags,
    {
        let mut res = self;
        res.message.push_attribute(TcAttribute::Chain(chain));
        res
    }

    /// Sets the interface index. Equivalent to `dev STRING`; dev and block
    /// are mutually exclusive.
    pub fn index(self, index: i32) -> (res: Self)
        ensures
            res@.message == self@.message.set_index(index),
            res@.flags == self@.flags,
    {
        let mut res = self;
        res.message.set_index(index);
        res
    }

    /// Sets the block index. Equivalent to `block BLOCK_INDEX`.
    pub fn block(self, block_index: u32) -> (res: Self)
        ensures
            res@.message == self@.message.set_block(block_index),
            res@.flags == self@.flags,
    {
        let mut res = self;
        res.message.set_block(block_index);
        res
    }

    /// The same request for a flower filter chain, with the flower options
    /// `options`; an error when the message carries a kind already.
    pub fn flower(self, options: &[netlink_packet_route::tc::TcFilterFlowerOption]) -> (res: Result<Self, Error>)
        ensures
            match res {
                Ok(r) => !self@.message.has_kind() && r@.message == self@.message.add_flower(options@)
                    && r@.flags == self@.flags,
                Err(Error::InvalidNla(message)) => self@.message.has_kind() && message@
                    == crate::traffic_control::message::kind_already_set_message(),
            },
    {
        let mut res = self;
        match res.message.add_flower(options) {
            Ok(()) => Ok(res),
            Err(e) => Err(e),
        }
    }

    /// Sets the parent to the ingress hook.
    pub fn ingress(self) -> (res: Self)
        ensures
            res@.message == self@.message.set_parent(ingress_handle()),
            res@.flags == self@.flags,
    {
        let mut res = self;
        res.message.set_parent(TcHandle { major: 0xffff, minor: tc_handle_min_ingress() });
        res
    }

    /// Sets the parent qdisc.
    pub fn parent(self, parent: TcHandle) -> (res: Self)
        ensures
            res@.message == self@.message.set_parent(parent),
            res@.flags == self@.flags,
    {
        let mut res = self;
        res.message.set_parent(parent);
        res
    }
}

} // verus!
