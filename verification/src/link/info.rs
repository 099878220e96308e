//! The link attributes that a link message builder carries.

use vstd::prelude::*;

verus! {

/// A bridge identifier: its priority and its MAC address.
#[derive(Debug, Clone, Copy, PartialEq, Eq)]
pub struct BridgeId {
    pub priority: u16,
    pub address: [u8; 6],
}

/// One bridge attribute (`IFLA_BR_*`) of the link-info data of a bridge.
///
/// Flags that the kernel takes as a byte (`0` or `1`) are carried as `u8`;
/// `MultiBoolOpt` carries the packed boolean options (see `bool_opt`);
/// `Other` carries an attribute by its number and raw payload.
#[derive(Debug, Clone, PartialEq, Eq)]
pub enum InfoBridge {
    GroupAddr([u8; 6]),
    FdbFlush,
    HelloTimer(u64),
    TcnTimer(u64),
    TopologyChangeTimer(u64),
    GcTimer(u64),
    MulticastMembershipInterval(u64),
    MulticastQuerierInterval(u64),
    MulticastQueryInterval(u64),
    MulticastQueryResponseInterval(u64),
    MulticastLastMemberInterval(u64),
    MulticastStartupQueryInterval(u64),
    ForwardDelay(u32),
    HelloTime(u32),
    MaxAge(u32),
    AgeingTime(u32),
    StpState(u32),
    MulticastHashElasticity(u32),
    MulticastHashMax(u32),
    MulticastLastMemberCount(u32),
    MulticastStartupQueryCount(u32),
    RootPathCost(u32),
    Priority(u16),
    VlanProtocol(u16),
    GroupFwdMask(u16),
    RootId(BridgeId),
    BridgeId(BridgeId),
    RootPort(u16),
    VlanDefaultPvid(u16),
    VlanFiltering(bool),
    TopologyChange(u8),
    TopologyChangeDetected(u8),
    MulticastRouter(u8),
    MulticastSnooping(u8),
    MulticastQueryUseIfaddr(u8),
    MulticastQuerier(u8),
    NfCallIpTables(u8),
    NfCallIp6Tables(u8),
    NfCallArpTables(u8),
    VlanStatsEnabled(u8),
    MulticastStatsEnabled(u8),
    MulticastIgmpVersion(u8),
    MulticastMldVersion(u8),
    VlanStatsPerHost(u8),
    MultiBoolOpt(u64),
    Other(u16, Vec<u8>),
}

/// The kind of a link (`IFLA_INFO_KIND`).
#[derive(Debug, Clone, PartialEq, Eq)]
pub enum InfoKind {
    Bridge,
    Other(String),
}

/// The kind-specific data of a link (`IFLA_INFO_DATA`).
#[derive(Debug, Clone, PartialEq, Eq)]
pub enum InfoData {
    Bridge(Vec<InfoBridge>),
    Other(Vec<u8>),
}

/// What an `InfoData` holds, with its sequences as `Seq`.
#[verifier::ext_equal]
pub enum InfoDataView {
    Bridge(Seq<InfoBridge>),
    Other(Seq<u8>),
}

impl View for InfoData {
    type V = InfoDataView;

    open spec fn view(&self) -> InfoDataView {
        match self {
            InfoData::Bridge(infos) => InfoDataView::Bridge(infos@),
            InfoData::Other(bytes) => InfoDataView::Other(bytes@),
        }
    }
}

/// A further attribute of a link message.
#[derive(Debug, Clone, PartialEq, Eq)]
pub enum LinkAttribute {
    /// The interface name (`IFLA_IFNAME`).
    IfName(String),
}

/// What a `LinkAttribute` holds, with its string as a `Seq<char>`.
pub enum LinkAttributeView {
    IfName(Seq<char>),
}

impl View for LinkAttribute {
    type V = LinkAttributeView;

    open spec fn view(&self) -> LinkAttributeView {
        match self {
            LinkAttribute::IfName(name) => LinkAttributeView::IfName(name@),
        }
    }
}

/// The VLAN protocol of a VLAN-aware bridge.
#[derive(Debug, Clone, Copy, PartialEq, Eq)]
pub enum VlanProtocol {
    Ieee8021Q,
    Ieee8021Ad,
}

/// The EtherType of a VLAN protocol: `0x8100` for 802.1Q, `0x88A8` for
/// 802.1ad.
pub open spec fn vlan_ethertype(protocol: VlanProtocol) -> u16 {
    match protocol {
        VlanProtocol::Ieee8021Q => 0x8100u16,
        VlanProtocol::Ieee8021Ad => 0x88A8u16,
    }
}

/// The EtherType of `protocol`, as `u16::from` of the route crate's
/// `VlanProtocol` gives it. The contract states what that crate's source
/// returns: `ETH_P_8021Q` (`0x8100`) and `ETH_P_8021AD` (`0x88A8`).
#[verifier::external_body]
pub(crate) fn vlan_protocol_ethertype(protocol: VlanProtocol) -> (res: u16)
    ensures
        res == vlan_ethertype(protocol),
{
    let outside = match protocol {
        VlanProtocol::Ieee8021Q => netlink_packet_route::link::VlanProtocol::Ieee8021Q,
        VlanProtocol::Ieee8021Ad => netlink_packet_route::link::VlanProtocol::Ieee8021Ad,
    };
    u16::from(outside)
}

} // verus!
