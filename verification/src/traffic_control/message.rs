//! Traffic-control messages, and what the route and core netlink crates
//! define for them.

use vstd::prelude::*;

verus! {

/// The route crate's flower filter option, which requests carry through
/// without reading it.
#[verifier::external_type_specification]
#[verifier::external_body]
pub struct ExTcFilterFlowerOption(netlink_packet_route::tc::TcFilterFlowerOption);

/// A traffic-control handle: a major and a minor number.
#[derive(Debug, Clone, Copy, PartialEq, Eq)]
pub struct TcHandle {
    pub major: u16,
    pub minor: u16,
}

/// The handle that the number `d` stands for: its high 16 bits are the
/// major number, its low 16 bits the minor number.
pub open spec fn tc_handle_of(d: u32) -> TcHandle {
    TcHandle { major: (d >> 16u32) as u16, minor: (d & 0xFFFFu32) as u16 }
}

/// The header of a traffic-control message.
#[derive(Debug, Clone, Copy, PartialEq, Eq)]
pub struct TcHeader {
    /// The interface index, or the block marker.
    pub index: i32,
    /// The handle of the object.
    pub handle: TcHandle,
    /// The handle of the parent.
    pub parent: TcHandle,
    /// Kind-specific information, such as a filter's priority and protocol.
    pub info: u32,
}

/// An option of a traffic-control attribute.
#[derive(Debug, Clone)]
pub enum TcOption {
    /// An option of a flower filter.
    Flower(netlink_packet_route::tc::TcFilterFlowerOption),
}

/// An attribute of a traffic-control message.
#[derive(Debug, Clone)]
pub enum TcAttribute {
    /// The kind of the object (`TCA_KIND`).
    Kind(String),
    /// Its kind-specific options (`TCA_OPTIONS`).
    Options(Vec<TcOption>),
    /// The filter chain (`TCA_CHAIN`).
    Chain(u32),
}

/// What a `TcAttribute` holds, with its string and list as sequences.
pub enum TcAttributeView {
    Kind(Seq<char>),
    Options(Seq<TcOption>),
    Chain(u32),
}

impl View for TcAttribute {
    type V = TcAttributeView;

    open spec fn view(&self) -> TcAttributeView {
        match self {
            TcAttribute::Kind(kind) => TcAttributeView::Kind(kind@),
            TcAttribute::Options(options) => TcAttributeView::Options(options@),
            TcAttribute::Chain(chain) => TcAttributeView::Chain(*chain),
        }
    }
}

/// A traffic-control message: its header and its attributes, in order.
#[derive(Debug, Clone)]
pub struct TcMessage {
    pub header: TcHeader,
    pub attributes: Vec<TcAttribute>,
}

/// What a `TcMessage` holds.
#[verifier::ext_equal]
pub struct TcMessageView {
    pub header: TcHeader,
    pub attributes: Seq<TcAttributeView>,
}

impl View for TcMessage {
    type V = TcMessageView;

    open spec fn view(&self) -> TcMessageView {
        TcMessageView {
            header: self.header,
            attributes: self.attributes@.map_values(|a: TcAttribute| a@),
        }
    }
}

/// The handle with both numbers zero.
pub open spec fn unspec_handle() -> TcHandle {
    TcHandle { major: 0, minor: 0 }
}

/// The message that `TcMessage::with_index(index)` makes: a header with the
/// interface index `index` and every other field zero, and no attributes.
pub open spec fn message_with_index(index: i32) -> TcMessageView {
    TcMessageView {
        header: TcHeader { index: index, handle: unspec_handle(), parent: unspec_handle(), info: 0 },
        attributes: Seq::empty(),
    }
}

/// The options that `flower` hands over, each as a flower option.
pub open spec fn flower_options(options: Seq<netlink_packet_route::tc::TcFilterFlowerOption>) -> Seq<TcOption> {
    options.map_values(|o: netlink_packet_route::tc::TcFilterFlowerOption| TcOption::Flower(o))
}

impl TcMessageView {
    /// The same message for the interface `index`.
    pub open spec fn set_index(self, index: i32) -> TcMessageView {
        TcMessageView { header: TcHeader { index: index, ..self.header }, ..self }
    }

    /// The same message with the parent `parent`.
    pub open spec fn set_parent(self, parent: TcHandle) -> TcMessageView {
        TcMessageView { header: TcHeader { parent: parent, ..self.header }, ..self }
    }

    /// The same message for the block `block`: the interface index is the
    /// block marker, `0xFFFFFFFF` read as an `i32`, that is `-1`, and the
    /// parent is the handle that the block number stands for.
    pub open spec fn set_block(self, block: u32) -> TcMessageView {
        TcMessageView {
            header: TcHeader { index: -1i32, parent: tc_handle_of(block), ..self.header },
            ..self
        }
    }

    /// The same message with the attribute `attribute` appended.
    pub open spec fn push_attribute(self, attribute: TcAttributeView) -> TcMessageView {
        TcMessageView { attributes: self.attributes.push(attribute), ..self }
    }

    /// Whether the message carries a kind attribute.
    pub open spec fn has_kind(self) -> bool {
        exists|i: int| 0 <= i < self.attributes.len() && #[trigger] self.attributes[i] is Kind
    }

    /// The same message with the kind `flower` appended, then the flower
    /// options `options`.
    pub open spec fn add_flower(self, options: Seq<netlink_packet_route::tc::TcFilterFlowerOption>) -> TcMessageView {
        self.push_attribute(TcAttributeView::Kind("flower"@)).push_attribute(
            TcAttributeView::Options(flower_options(options)),
        )
    }
}

/// The handle of the ingress hook: major `0xFFFF`, minor `0xFFF2`.
pub open spec fn ingress_handle() -> TcHandle {
    TcHandle { major: 0xFFFFu16, minor: 0xFFF2u16 }
}

/// The error message of a request that sets the kind of a message twice.
pub open spec fn kind_already_set_message() -> Seq<char> {
    "message kind has already been set."@
}

impl TcMessage {
    /// A message for the interface `index`, with no attributes.
    pub fn with_index(index: i32) -> (res: Self)
        ensures
            res@ == message_with_index(index),
    {
        let res = TcMessage {
            header: TcHeader {
                index,
                handle: TcHandle { major: 0, minor: 0 },
                parent: TcHandle { major: 0, minor: 0 },
                info: 0,
            },
            attributes: Vec::new(),
        };
        proof {
            assert(res@.attributes =~= Seq::<TcAttributeView>::empty());
        }
        res
    }
}

impl TcMessage {
    /// Sets the interface index.
    pub(crate) fn set_index(&mut self, index: i32)
        ensures
            final(self)@ == old(self)@.set_index(index),
    {
        self.header.index = index;
        proof {
            assert(self@ =~= old(self)@.set_index(index));
        }
    }

    /// Sets the parent.
    pub(crate) fn set_parent(&mut self, parent: TcHandle)
        ensures
            final(self)@ == old(self)@.set_parent(parent),
    {
        self.header.parent = parent;
        proof {
            assert(self@ =~= old(self)@.set_parent(parent));
        }
    }

    /// Addresses the block `block` in place of an interface.
    pub(crate) fn set_block(&mut self, block: u32)
        ensures
            final(self)@ == old(self)@.set_block(block),
    {
        let magic: u32 = tcm_ifindex_magic_block();
        let index: i32 = magic as i32;
        assert(index == -1i32) by (bit_vector)
            requires
                magic == 0xFFFF_FFFFu32,
                index == magic as i32,
        ;
        self.header.index = index;
        self.header.parent = tc_handle_from_u32(block);
        proof {
            assert(self@ =~= old(self)@.set_block(block));
        }
    }

    /// Appends the attribute `attribute`.
    pub(crate) fn push_attribute(&mut self, attribute: TcAttribute)
        ensures
            final(self)@ == old(self)@.push_attribute(attribute@),
    {
        self.attributes.push(attribute);
        proof {
            assert(self@.attributes =~= old(self)@.attributes.push(attribute@));
            assert(self@ =~= old(self)@.push_attribute(attribute@));
        }
    }

    /// Whether the message carries a kind attribute.
    pub(crate) fn has_kind(&self) -> (res: bool)
        ensures
            res == self@.has_kind(),
    {
        let n: usize = self.attributes.len();
        let mut i: usize = 0;
        while i < n
            invariant
                n == self.attributes.len(),
                i <= n,
                forall|j: int| 0 <= j < i ==> !(#[trigger] self@.attributes[j] is Kind),
            decreases n - i,
        {
            let is_kind = match &self.attributes[i] {
                TcAttribute::Kind(_) => true,
                _ => false,
            };
            if is_kind {
                assert(self@.attributes[i as int] is Kind);
                return true;
            }
            i = i + 1;
        }
        false
    }

    /// Appends the kind `flower`, then the flower options `options`; fails,
    /// leaving the message as it was, when it carries a kind already.
    pub(crate) fn add_flower(&mut self, options: &[netlink_packet_route::tc::TcFilterFlowerOption]) -> (res: Result<(), Error>)
        ensures
            match res {
                Ok(()) => !old(self)@.has_kind() && final(self)@ == old(self)@.add_flower(options@),
                Err(Error::InvalidNla(message)) => old(self)@.has_kind() && *final(self) == *old(self)
                    && message@ == kind_already_set_message(),
            },
    {
        if self.has_kind() {
            return Err(Error::InvalidNla("message kind has already been set.".to_owned()));
        }
        self.push_attribute(TcAttribute::Kind(flower_kind()));
        let mut nla_opts: Vec<TcOption> = Vec::new();
        let n: usize = options.len();
        let mut i: usize = 0;
        while i < n
            invariant
                n == options@.len(),
                i <= n,
                nla_opts@.len() == i,
                forall|j: int| 0 <= j < i ==> #[trigger] nla_opts@[j] == TcOption::Flower(options@[j]),
            decreases n - i,
        {
            let option = options[i].clone();
            nla_opts.push(TcOption::Flower(option));
            i = i + 1;
        }
        proof {
            assert(nla_opts@ =~= flower_options(options@));
        }
        self.push_attribute(TcAttribute::Options(nla_opts));
        Ok(())
    }
}

/// An error of a request.
#[derive(Debug)]
pub enum Error {
    /// The request would carry an invalid attribute.
    InvalidNla(String),
}

/// The route crate's `TcHandle::from(u32)`, converted to the library's
/// handle. Its source splits the big-endian bytes of `d`: the high two bytes
/// give the major number, the low two the minor number.
#[verifier::external_body]
pub(crate) fn tc_handle_from_u32(d: u32) -> (res: TcHandle)
    ensures
        res == tc_handle_of(d),
{
    let handle = netlink_packet_route::tc::TcHandle::from(d);
    TcHandle { major: handle.major, minor: handle.minor }
}

/// The route crate's `TcHeader::TCM_IFINDEX_MAGIC_BLOCK`, the interface
/// index that marks a block; its source defines it as `0xFFFFFFFF`.
#[verifier::external_body]
pub(crate) fn tcm_ifindex_magic_block() -> (res: u32)
    ensures
        res == 0xFFFF_FFFFu32,
{
    netlink_packet_route::tc::TcHeader::TCM_IFINDEX_MAGIC_BLOCK
}

/// The route crate's `TcHandle::MIN_INGRESS`, the minor number of the
/// ingress hook; its source defines it as `0xFFF2`.
#[verifier::external_body]
pub(crate) fn tc_handle_min_ingress() -> (res: u16)
    ensures
        res == 0xFFF2u16,
{
    netlink_packet_route::tc::TcHandle::MIN_INGRESS
}

/// The route crate's `TcFilterFlower::KIND` as a `String`; its source
/// defines it as `"flower"`.
#[verifier::external_body]
pub(crate) fn flower_kind() -> (res: String)
    ensures
        res@ == "flower"@,
{
    netlink_packet_route::tc::TcFilterFlower::KIND.to_string()
}

/// The route crate's `Clone` of a flower option, which that crate derives:
/// the copy is equal to the original.
pub assume_specification[ <netlink_packet_route::tc::TcFilterFlowerOption as Clone>::clone ](
    option: &netlink_packet_route::tc::TcFilterFlowerOption,
) -> (res: netlink_packet_route::tc::TcFilterFlowerOption)
    ensures
        res == *option,
;

/// The core crate's `NLM_F_REQUEST`, defined there as `1`.
#[verifier::external_body]
pub(crate) fn nlm_f_request() -> (res: u16)
    ensures
        res == 1u16,
{
    netlink_packet_core::NLM_F_REQUEST
}

/// The core crate's `NLM_F_ACK`, defined there as `4`.
#[verifier::external_body]
pub(crate) fn nlm_f_ack() -> (res: u16)
    ensures
        res == 4u16,
{
    netlink_packet_core::NLM_F_ACK
}

/// The core crate's `NLM_F_EXCL`, defined there as `512`.
#[verifier::external_body]
pub(crate) fn nlm_f_excl() -> (res: u16)
    ensures
        res == 512u16,
{
    netlink_packet_core::NLM_F_EXCL
}

/// The core crate's `NLM_F_CREATE`, defined there as `1024`.
#[verifier::external_body]
pub(crate) fn nlm_f_create() -> (res: u16)
    ensures
        res == 1024u16,
{
    netlink_packet_core::NLM_F_CREATE
}

/// Once a message carries the flower kind, it carries a kind: a second
/// `flower` on the same request fails.
pub proof fn lemma_flower_sets_kind(
    message: TcMessageView,
    options: Seq<netlink_packet_route::tc::TcFilterFlowerOption>,
)
    ensures
        message.add_flower(options).has_kind(),
{
    let m = message.add_flower(options);
    assert(m.attributes[message.attributes.len() as int] is Kind);
}

/// Dev and block are mutually exclusive: whichever of `index` and `block`
/// comes last decides the interface index. A block set after an index
/// replaces it entirely; an index set after a block keeps the block's
/// parent.
pub proof fn lemma_index_block_last_wins(message: TcMessageView, index: i32, block: u32)
    ensures
        message.set_index(index).set_block(block) == message.set_block(block),
        message.set_block(block).set_index(index).header.index == index,
        message.set_block(block).set_index(index).header.parent == tc_handle_of(block),
{
}

/// Setting the interface index, the block or the parent leaves the
/// attributes as they were, and appending an attribute leaves the header as
/// it was.
pub proof fn lemma_header_and_attributes_apart(
    message: TcMessageView,
    index: i32,
    block: u32,
    parent: TcHandle,
    attribute: TcAttributeView,
)
    ensures
        message.set_index(index).attributes == message.attributes,
        message.set_block(block).attributes == message.attributes,
        message.set_parent(parent).attributes == message.attributes,
        message.push_attribute(attribute).header == message.header,
{
}

/// The options that `flower` hands over hold exactly one flower option per
/// option given, in the same order.
pub proof fn lemma_flower_options(options: Seq<netlink_packet_route::tc::TcFilterFlowerOption>)
    ensures
        flower_options(options).len() == options.len(),
        forall|j: int|
            0 <= j < options.len() ==> #[trigger] flower_options(options)[j] == TcOption::Flower(
                options[j],
            ),
{
}

/// `flower` appends exactly two attributes after those the message carries:
/// the kind `flower`, then the options, one flower option per option given,
/// in order; the header stays as it was.
pub proof fn lemma_add_flower(
    message: TcMessageView,
    options: Seq<netlink_packet_route::tc::TcFilterFlowerOption>,
)
    ensures
        message.add_flower(options).header == message.header,
        message.add_flower(options).attributes.len() == message.attributes.len() + 2,
        forall|j: int|
            0 <= j < message.attributes.len() ==> #[trigger] message.add_flower(
                options,
            ).attributes[j] == message.attributes[j],
        message.add_flower(options).attributes[message.attributes.len() as int]
            == TcAttributeView::Kind("flower"@),
        match message.add_flower(options).attributes[message.attributes.len() + 1int] {
            TcAttributeView::Options(opts) => {
                &&& opts.len() == options.len()
                &&& forall|j: int|
                    0 <= j < options.len() ==> #[trigger] opts[j] == TcOption::Flower(options[j])
            },
            _ => false,
        },
{
    lemma_flower_options(options);
}

/// Setting the interface index changes the index alone: the parent, the
/// handle, the information and the attributes stay as they were, whatever
/// the message was addressed to before.
pub proof fn lemma_set_index(message: TcMessageView, index: i32)
    ensures
        message.set_index(index).header.index == index,
        message.set_index(index).header.parent == message.header.parent,
        message.set_index(index).header.handle == message.header.handle,
        message.set_index(index).header.info == message.header.info,
        message.set_index(index).attributes == message.attributes,
{
}

/// Setting the parent makes the parent exactly the handle given, whatever
/// it is, and changes nothing else.
pub proof fn lemma_set_parent(message: TcMessageView, parent: TcHandle)
    ensures
        message.set_parent(parent).header.parent == parent,
        message.set_parent(parent).header.index == message.header.index,
        message.set_parent(parent).header.handle == message.header.handle,
        message.set_parent(parent).header.info == message.header.info,
        message.set_parent(parent).attributes == message.attributes,
{
}

/// Appending an attribute adds it at the end, whatever the message already
/// carries: the attributes grow by exactly one, the earlier ones stay where
/// they were, the last is the attribute given, and the header is unchanged.
pub proof fn lemma_push_attribute(message: TcMessageView, attribute: TcAttributeView)
    ensures
        message.push_attribute(attribute).attributes == message.attributes.push(attribute),
        message.push_attribute(attribute).attributes.len() == message.attributes.len() + 1,
        message.push_attribute(attribute).attributes[message.attributes.len() as int]
            == attribute,
        forall|j: int|
            0 <= j < message.attributes.len() ==> #[trigger] message.push_attribute(
                attribute,
            ).attributes[j] == message.attributes[j],
        message.push_attribute(attribute).header == message.header,
{
}

/// Addressing a block sets the interface index to the block marker, `-1`,
/// and the parent to the handle whose major and minor numbers put the block
/// number back together; the handle, the information and the attributes
/// stay as they were.
pub proof fn lemma_set_block(message: TcMessageView, block: u32)
    ensures
        message.set_block(block).header.index == -1i32,
        ((message.set_block(block).header.parent.major as u32) << 16u32)
            | (message.set_block(block).header.parent.minor as u32) == block,
        message.set_block(block).header.handle == message.header.handle,
        message.set_block(block).header.info == message.header.info,
        message.set_block(block).attributes == message.attributes,
{
    lemma_tc_handle_of_round_trip(block);
}

/// A message made for an interface carries that interface index, zero
/// handles and information, and no attributes.
pub proof fn lemma_message_with_index(index: i32)
    ensures
        message_with_index(index).header.index == index,
        message_with_index(index).header.parent == (TcHandle { major: 0, minor: 0 }),
        message_with_index(index).header.handle == (TcHandle { major: 0, minor: 0 }),
        message_with_index(index).header.info == 0,
        message_with_index(index).attributes.len() == 0,
{
}

/// The handle that a number stands for gives that number back when its
/// major number is taken as the high 16 bits and its minor number as the
/// low 16 bits.
pub proof fn lemma_tc_handle_of_round_trip(d: u32)
    ensures
        ((tc_handle_of(d).major as u32) << 16u32) | (tc_handle_of(d).minor as u32) == d,
{
    let major: u16 = tc_handle_of(d).major;
    let minor: u16 = tc_handle_of(d).minor;
    assert(((major as u32) << 16u32) | (minor as u32) == d) by (bit_vector)
        requires
            major == (d >> 16u32) as u16,
            minor == (d & 0xFFFFu32) as u16,
    ;
}

/// A reply that a request gets from the kernel, as the request sees it:
/// a message, which is or is not an error report, or the end of the replies.
#[derive(Debug, Clone, Copy, PartialEq, Eq)]
pub enum ChainResponse {
    Message { is_error: bool },
    End,
}

/// What a request does after a reply: wait for the next one, finish with
/// success, or fail with the error that the reply reports.
#[derive(Debug, Clone, Copy, PartialEq, Eq)]
pub enum ChainStep {
    AwaitNext,
    Succeed,
    Fail,
}

} // verus!
