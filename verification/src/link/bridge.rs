//! Linux bridge links.

use vstd::prelude::*;

use crate::link::bool_opt::{
    bool_opt_marked, bool_opt_value, lemma_bool_opt_commute, lemma_bool_opt_frame,
    lemma_bool_opt_overwrite, lemma_bool_opt_read_back, update_bool_opt, with_bool_opt,
};
use crate::link::builder::{LinkMessageBuilder, LinkMessageView};
use crate::link::info::{
    vlan_ethertype, vlan_protocol_ethertype, InfoBridge, InfoData, InfoDataView, InfoKind,
    LinkAttributeView, VlanProtocol,
};

verus! {

// Bit indices into the `IFLA_BR_MULTI_BOOLOPT` option value and mask, as
// the kernel numbers them in `enum br_boolopt_id` (uapi/linux/if_bridge.h).
/// The option that turns off learning from link-local packets.
pub const BR_BOOLOPT_NO_LL_LEARN: u8 = 0;

/// The option that turns on per-VLAN multicast snooping.
pub const BR_BOOLOPT_MCAST_VLAN_SNOOPING: u8 = 1;

/// The option that turns on multiple spanning trees.
pub const BR_BOOLOPT_MST_ENABLE: u8 = 2;

/// The option that turns on notifications of failed MDB offloads.
pub const BR_BOOLOPT_MDB_OFFLOAD_FAIL_NOTIFICATION: u8 = 3;

/// The option that keeps local FDB entries on VLAN 0 only.
pub const BR_BOOLOPT_FDB_LOCAL_VLAN_0: u8 = 4;

/// A Linux bridge interface: the kind of link that a
/// `LinkMessageBuilder<LinkBridge>` builds.
#[derive(Debug)]
pub struct LinkBridge;

/// The message that `LinkMessageBuilder::<LinkBridge>::new(name)` starts:
/// a bridge named `name`, with no bridge data yet, not brought up.
pub open spec fn new_bridge_message(name: Seq<char>) -> LinkMessageView {
    LinkMessageView {
        up: false,
        info_kind: Some(InfoKind::Bridge),
        info_data: None,
        attributes: seq![LinkAttributeView::IfName(name)],
    }
}

/// A new bridge message names the bridge and nothing else: its only
/// attribute is the interface name given, its kind is bridge, it has no
/// bridge data yet, and it does not bring the link up.
pub proof fn lemma_new_bridge_message(name: Seq<char>)
    ensures
        !new_bridge_message(name).up,
        new_bridge_message(name).info_kind == Some(InfoKind::Bridge),
        new_bridge_message(name).info_data.is_none(),
        new_bridge_message(name).attributes.len() == 1,
        new_bridge_message(name).attributes[0] == LinkAttributeView::IfName(name),
{
}

/// The link-info data with the bridge attribute `info` appended: data that
/// is not yet there becomes bridge data holding `info` alone; data of
/// another kind is left as it is.
pub open spec fn appended_info(data: Option<InfoDataView>, info: InfoBridge) -> Option<InfoDataView> {
    match data {
        None => Some(InfoDataView::Bridge(seq![info])),
        Some(InfoDataView::Bridge(infos)) => Some(InfoDataView::Bridge(infos.push(info))),
        Some(InfoDataView::Other(bytes)) => Some(InfoDataView::Other(bytes)),
    }
}

/// The packed options that a bridge attribute carries, if it carries any.
pub open spec fn bool_opt_payload(info: InfoBridge) -> u64 {
    match info {
        InfoBridge::MultiBoolOpt(opt) => opt,
        _ => 0u64,
    }
}

/// Whether `infos[i]` is the first packed-options attribute of `infos`.
pub open spec fn is_first_bool_opt(infos: Seq<InfoBridge>, i: int) -> bool {
    &&& 0 <= i < infos.len()
    &&& infos[i] is MultiBoolOpt
    &&& forall|j: int| 0 <= j < i ==> !(#[trigger] infos[j] is MultiBoolOpt)
}

/// Whether `infos` holds a packed-options attribute.
pub open spec fn has_bool_opt(infos: Seq<InfoBridge>) -> bool {
    exists|i: int| 0 <= i < infos.len() && #[trigger] infos[i] is MultiBoolOpt
}

/// The position of the first packed-options attribute of `infos`.
pub open spec fn first_bool_opt(infos: Seq<InfoBridge>) -> int {
    choose|i: int| is_first_bool_opt(infos, i)
}

/// The bridge attributes with option `bit` set to `value`: merged into the
/// first packed-options attribute, or appended as a fresh one that sets
/// this option alone when there is none.
pub open spec fn merged_bool_opt(infos: Seq<InfoBridge>, bit: u8, value: bool) -> Seq<InfoBridge> {
    if has_bool_opt(infos) {
        let k: int = first_bool_opt(infos);
        infos.update(k, InfoBridge::MultiBoolOpt(with_bool_opt(bool_opt_payload(infos[k]), bit, value)))
    } else {
        infos.push(InfoBridge::MultiBoolOpt(with_bool_opt(0u64, bit, value)))
    }
}

/// The link-info data with option `bit` set to `value`, as
/// `merged_bool_opt` does it; data of another kind is left as it is.
pub open spec fn merged_bool_opt_data(data: Option<InfoDataView>, bit: u8, value: bool) -> Option<InfoDataView> {
    match data {
        None => Some(InfoDataView::Bridge(merged_bool_opt(Seq::empty(), bit, value))),
        Some(InfoDataView::Bridge(infos)) => Some(InfoDataView::Bridge(merged_bool_opt(infos, bit, value))),
        Some(InfoDataView::Other(bytes)) => Some(InfoDataView::Other(bytes)),
    }
}

/// A bridge has a first packed-options attribute whenever it has one.
pub proof fn lemma_first_bool_opt(infos: Seq<InfoBridge>)
    requires
        has_bool_opt(infos),
    ensures
        is_first_bool_opt(infos, first_bool_opt(infos)),
{
    let i: int = choose|i: int| 0 <= i < infos.len() && #[trigger] infos[i] is MultiBoolOpt;
    lemma_first_bool_opt_below(infos, i);
}

proof fn lemma_first_bool_opt_below(infos: Seq<InfoBridge>, i: int)
    requires
        0 <= i < infos.len(),
        infos[i] is MultiBoolOpt,
    ensures
        exists|k: int| is_first_bool_opt(infos, k),
    decreases i,
{
    if forall|j: int| 0 <= j < i ==> !(#[trigger] infos[j] is MultiBoolOpt) {
        assert(is_first_bool_opt(infos, i));
    } else {
        let j: int = choose|j: int| 0 <= j < i && #[trigger] infos[j] is MultiBoolOpt;
        lemma_first_bool_opt_below(infos, j);
    }
}

/// The packed options of the first packed-options attribute of `infos`, or
/// no options at all when there is none.
pub open spec fn first_bool_opts(infos: Seq<InfoBridge>) -> u64 {
    if has_bool_opt(infos) {
        bool_opt_payload(infos[first_bool_opt(infos)])
    } else {
        0u64
    }
}

/// Where the merged options stand, and what they hold.
proof fn lemma_merged_shape(infos: Seq<InfoBridge>, bit: u8, value: bool)
    ensures
        has_bool_opt(merged_bool_opt(infos, bit, value)),
        first_bool_opt(merged_bool_opt(infos, bit, value)) == (if has_bool_opt(infos) {
            first_bool_opt(infos)
        } else {
            infos.len() as int
        }),
        first_bool_opts(merged_bool_opt(infos, bit, value)) == with_bool_opt(
            first_bool_opts(infos),
            bit,
            value,
        ),
        merged_bool_opt(infos, bit, value).len() == infos.len() + (if has_bool_opt(infos) {
            0int
        } else {
            1int
        }),
        merged_bool_opt(infos, bit, value)[first_bool_opt(merged_bool_opt(infos, bit, value))]
            == InfoBridge::MultiBoolOpt(with_bool_opt(first_bool_opts(infos), bit, value)),
        forall|j: int|
            0 <= j < infos.len() && j != first_bool_opt(merged_bool_opt(infos, bit, value))
                ==> #[trigger] merged_bool_opt(infos, bit, value)[j] == infos[j],
{
    let m = merged_bool_opt(infos, bit, value);
    if has_bool_opt(infos) {
        lemma_first_bool_opt(infos);
        let k: int = first_bool_opt(infos);
        assert(is_first_bool_opt(m, k));
        assert(has_bool_opt(m));
        lemma_first_bool_opt(m);
    } else {
        let k: int = infos.len() as int;
        assert(m[k] is MultiBoolOpt);
        assert forall|j: int| 0 <= j < k implies !(#[trigger] m[j] is MultiBoolOpt) by {
            assert(m[j] == infos[j]);
        }
        assert(is_first_bool_opt(m, k));
        assert(has_bool_opt(m));
        lemma_first_bool_opt(m);
    }
}

/// Setting a bridge option and reading the first packed options back gives
/// the value that was set, with the option marked in the mask.
pub proof fn lemma_set_option_read_back(infos: Seq<InfoBridge>, bit: u8, value: bool)
    requires
        bit < 32,
    ensures
        bool_opt_value(first_bool_opts(merged_bool_opt(infos, bit, value)), bit) == value,
        bool_opt_marked(first_bool_opts(merged_bool_opt(infos, bit, value)), bit),
{
    lemma_merged_shape(infos, bit, value);
    lemma_bool_opt_read_back(first_bool_opts(infos), bit, value);
}

/// Setting a bridge option leaves the value and the mark of every other
/// option as they were.
pub proof fn lemma_set_option_frame(infos: Seq<InfoBridge>, bit: u8, value: bool, other: u8)
    requires
        bit < 32,
        other < 32,
        other != bit,
    ensures
        bool_opt_value(first_bool_opts(merged_bool_opt(infos, bit, value)), other)
            == bool_opt_value(first_bool_opts(infos), other),
        bool_opt_marked(first_bool_opts(merged_bool_opt(infos, bit, value)), other)
            == bool_opt_marked(first_bool_opts(infos), other),
{
    lemma_merged_shape(infos, bit, value);
    lemma_bool_opt_frame(first_bool_opts(infos), bit, value, other);
}

/// Setting a bridge option never adds a second packed-options attribute:
/// every other attribute stays where it was, unchanged, and a packed-options
/// attribute is appended only when there was none.
pub proof fn lemma_set_option_keeps_others(infos: Seq<InfoBridge>, bit: u8, value: bool)
    ensures
        merged_bool_opt(infos, bit, value).len() == infos.len() + (if has_bool_opt(infos) {
            0int
        } else {
            1int
        }),
        forall|j: int|
            0 <= j < infos.len() && j != first_bool_opt(merged_bool_opt(infos, bit, value))
                ==> #[trigger] merged_bool_opt(infos, bit, value)[j] == infos[j],
        forall|j: int|
            0 <= j < merged_bool_opt(infos, bit, value).len() ==> ((#[trigger] merged_bool_opt(
                infos,
                bit,
                value,
            )[j] is MultiBoolOpt) <==> ((j < infos.len() && infos[j] is MultiBoolOpt) || (
            !has_bool_opt(infos) && j == infos.len()))),
{
    lemma_merged_shape(infos, bit, value);
    if has_bool_opt(infos) {
        lemma_first_bool_opt(infos);
    }
}

/// Setting the same bridge option twice is the same as setting it once, to
/// the second value.
pub proof fn lemma_set_option_overwrite(infos: Seq<InfoBridge>, bit: u8, first: bool, second: bool)
    requires
        bit < 32,
    ensures
        merged_bool_opt(merged_bool_opt(infos, bit, first), bit, second) == merged_bool_opt(
            infos,
            bit,
            second,
        ),
{
    let m1 = merged_bool_opt(infos, bit, first);
    lemma_merged_shape(infos, bit, first);
    lemma_merged_shape(infos, bit, second);
    lemma_merged_shape(m1, bit, second);
    lemma_bool_opt_overwrite(first_bool_opts(infos), bit, first, second);
    assert(merged_bool_opt(m1, bit, second) =~= merged_bool_opt(infos, bit, second));
}

/// Setting two different bridge options gives the same bridge data in
/// either order.
pub proof fn lemma_set_options_commute(infos: Seq<InfoBridge>, b1: u8, v1: bool, b2: u8, v2: bool)
    requires
        b1 < 32,
        b2 < 32,
        b1 != b2,
    ensures
        merged_bool_opt(merged_bool_opt(infos, b1, v1), b2, v2) == merged_bool_opt(
            merged_bool_opt(infos, b2, v2),
            b1,
            v1,
        ),
{
    let m1 = merged_bool_opt(infos, b1, v1);
    let m2 = merged_bool_opt(infos, b2, v2);
    lemma_merged_shape(infos, b1, v1);
    lemma_merged_shape(infos, b2, v2);
    lemma_merged_shape(m1, b2, v2);
    lemma_merged_shape(m2, b1, v1);
    lemma_bool_opt_commute(first_bool_opts(infos), b1, v1, b2, v2);
    assert(merged_bool_opt(m1, b2, v2) =~= merged_bool_opt(m2, b1, v1));
}

/// Appending a bridge attribute other than packed options leaves the packed
/// options as they were.
pub proof fn lemma_append_keeps_options(infos: Seq<InfoBridge>, info: InfoBridge)
    requires
        !(info is MultiBoolOpt),
    ensures
        has_bool_opt(infos.push(info)) == has_bool_opt(infos),
        first_bool_opts(infos.push(info)) == first_bool_opts(infos),
{
    let s = infos.push(info);
    if has_bool_opt(infos) {
        lemma_first_bool_opt(infos);
        let k: int = first_bool_opt(infos);
        assert(is_first_bool_opt(s, k));
        lemma_first_bool_opt(s);
    } else {
        assert forall|i: int| 0 <= i < s.len() implies !(#[trigger] s[i] is MultiBoolOpt) by {
            if i < infos.len() {
                assert(s[i] == infos[i]);
            }
        }
    }
}

/// Setting option `b` of the link-info data twice is the same as setting
/// it once, to the second value; setting two different options commutes.
pub proof fn lemma_set_option_data(data: Option<InfoDataView>, b1: u8, v1: bool, b2: u8, v2: bool)
    requires
        b1 < 32,
        b2 < 32,
    ensures
        b1 == b2 ==> merged_bool_opt_data(merged_bool_opt_data(data, b1, v1), b2, v2)
            == merged_bool_opt_data(data, b2, v2),
        b1 != b2 ==> merged_bool_opt_data(merged_bool_opt_data(data, b1, v1), b2, v2)
            == merged_bool_opt_data(merged_bool_opt_data(data, b2, v2), b1, v1),
{
    let infos = match data {
        Some(InfoDataView::Bridge(infos)) => infos,
        _ => Seq::empty(),
    };
    if b1 == b2 {
        lemma_set_option_overwrite(infos, b1, v1, v2);
    } else {
        lemma_set_options_commute(infos, b1, v1, b2, v2);
    }
}

/// On a bridge message, setting option `bit` and reading the first packed
/// options of its bridge data back gives the value that was set, marked in
/// the mask; link-info data of another kind is left as it was.
pub proof fn lemma_set_option_data_read_back(data: Option<InfoDataView>, bit: u8, value: bool)
    requires
        bit < 32,
    ensures
        match merged_bool_opt_data(data, bit, value) {
            Some(InfoDataView::Bridge(infos)) => bool_opt_value(first_bool_opts(infos), bit) == value
                && bool_opt_marked(first_bool_opts(infos), bit),
            Some(InfoDataView::Other(bytes)) => data == Some(InfoDataView::Other(bytes)),
            None => false,
        },
{
    match data {
        Some(InfoDataView::Bridge(infos)) => lemma_set_option_read_back(infos, bit, value),
        Some(InfoDataView::Other(_)) => {},
        None => lemma_set_option_read_back(Seq::empty(), bit, value),
    }
}

/// Appending a bridge attribute adds it at the end of the bridge data,
/// whatever that data already holds: the data grows by exactly one
/// attribute, every earlier attribute stays where it was, and the last one
/// is the attribute appended. Data that is not there yet becomes bridge data
/// holding that attribute alone; data of another kind is left as it was.
pub proof fn lemma_append_info_data(data: Option<InfoDataView>, info: InfoBridge)
    ensures
        match data {
            Some(InfoDataView::Bridge(infos)) => appended_info(data, info) == Some(
                InfoDataView::Bridge(infos.push(info)),
            ),
            Some(InfoDataView::Other(bytes)) => appended_info(data, info) == data,
            None => appended_info(data, info) == Some(InfoDataView::Bridge(seq![info])),
        },
        match (data, appended_info(data, info)) {
            (Some(InfoDataView::Bridge(infos)), Some(InfoDataView::Bridge(after))) => {
                &&& after.len() == infos.len() + 1
                &&& after[infos.len() as int] == info
                &&& forall|j: int| 0 <= j < infos.len() ==> #[trigger] after[j] == infos[j]
            },
            (None, Some(InfoDataView::Bridge(after))) => after.len() == 1 && after[0] == info,
            (Some(InfoDataView::Other(_)), after) => after == data,
            _ => false,
        },
{
}

/// Sets option `bit` to `value` in the first packed-options attribute of
/// `infos`, or appends a fresh packed-options attribute when there is none.
fn merge_bool_opt(infos: &mut Vec<InfoBridge>, bit: u8, value: bool)
    requires
        bit < 32,
    ensures
        final(infos)@ == merged_bool_opt(old(infos)@, bit, value),
{
    let n: usize = infos.len();
    let mut i: usize = 0;
    while i < n
        invariant
            bit < 32,
            n == infos.len(),
            i <= n,
            infos@ == old(infos)@,
            forall|j: int| 0 <= j < i ==> !(#[trigger] infos@[j] is MultiBoolOpt),
        decreases n - i,
    {
        let found: Option<u64> = match &infos[i] {
            InfoBridge::MultiBoolOpt(opt) => Some(*opt),
            _ => None,
        };
        if let Some(opt) = found {
            let ghost before = infos@;
            proof {
                assert(is_first_bool_opt(before, i as int));
                assert(has_bool_opt(before));
                lemma_first_bool_opt(before);
                assert(first_bool_opt(before) == i as int);
            }
            let updated: u64 = update_bool_opt(opt, bit, value);
            infos.set(i, InfoBridge::MultiBoolOpt(updated));
            return;
        }
        i = i + 1;
    }
    let fresh: u64 = update_bool_opt(0u64, bit, value);
    infos.push(InfoBridge::MultiBoolOpt(fresh));
}

/// The byte that a flag attribute carries: `1` for true, `0` for false.
fn flag_byte(value: bool) -> (res: u8)
    ensures
        res == (if value { 1u8 } else { 0u8 }),
{
    if value {
        1
    } else {
        0
    }
}

impl LinkBridge {
    /// A message that creates the bridge `name` and brings it up: the
    /// message of `LinkMessageBuilder::<LinkBridge>::new(name).up()`.
    pub fn new(name: &str) -> (res: LinkMessageBuilder<Self>)
        ensures
            res@ == (LinkMessageView { up: true, ..new_bridge_message(name@) }),
    {
        LinkMessageBuilder::<LinkBridge>::new(name).up()
    }
}

impl LinkMessageBuilder<LinkBridge> {
    /// A message that creates the bridge `name`.
    pub fn new(name: &str) -> (res: Self)
        ensures
            res@ == new_bridge_message(name@),
    {
        let res = LinkMessageBuilder::<LinkBridge>::new_with_info_kind(InfoKind::Bridge).name(
            name.to_owned(),
        );
        proof {
            assert(res@.attributes =~= seq![LinkAttributeView::IfName(name@)]);
        }
        res
    }

    /// The same message with the bridge attribute `info` appended to its
    /// bridge data.
    pub fn append_info_data(self, info: InfoBridge) -> (res: Self)
        ensures
            res@ == self@.with_info_data(appended_info(self@.info_data, info)),
    {
        let (taken, data) = self.swap_info_data(None);
        let new_data = match data {
            None => {
                let mut infos: Vec<InfoBridge> = Vec::new();
                infos.push(info);
                proof {
                    assert(infos@ =~= seq![info]);
                }
                InfoData::Bridge(infos)
            },
            Some(InfoData::Bridge(infos)) => {
                let mut infos = infos;
                infos.push(info);
                InfoData::Bridge(infos)
            },
            Some(other) => other,
        };
        let (res, _) = taken.swap_info_data(Some(new_data));
        res
    }

    /// The same message with bridge option `bit` set to `value`, merged into
    /// the packed options of its bridge data.
    fn set_boolean_opt(self, bit: u8, value: bool) -> (res: Self)
        requires
            bit < 32,
        ensures
            res@ == self@.with_info_data(merged_bool_opt_data(self@.info_data, bit, value)),
    {
        let (taken, data) = self.swap_info_data(None);
        let new_data = match data {
            None => {
                let mut infos: Vec<InfoBridge> = Vec::new();
                proof {
                    assert(infos@ =~= Seq::<InfoBridge>::empty());
                }
                merge_bool_opt(&mut infos, bit, value);
                InfoData::Bridge(infos)
            },
            Some(InfoData::Bridge(infos)) => {
                let mut infos = infos;
                merge_bool_opt(&mut infos, bit, value);
                InfoData::Bridge(infos)
            },
            Some(other) => other,
        };
        let (res, _) = taken.swap_info_data(Some(new_data));
        res
    }

    /// Sets the ageing time of learned addresses, in hundredths of a second.
    pub fn ageing_time(self, value: u32) -> (res: Self)
        ensures
            res@ == self@.with_info_data(appended_info(self@.info_data, InfoBridge::AgeingTime(value))),
    {
        self.append_info_data(InfoBridge::AgeingTime(value))
    }

    /// Sets the mask of link-local group addresses that the bridge forwards.
    pub fn group_fwd_mask(self, value: u16) -> (res: Self)
        ensures
            res@ == self@.with_info_data(appended_info(self@.info_data, InfoBridge::GroupFwdMask(value))),
    {
        self.append_info_data(InfoBridge::GroupFwdMask(value))
    }

    /// Sets the group MAC address that STP uses.
    pub fn group_address(self, value: [u8; 6]) -> (res: Self)
        ensures
            res@ == self@.with_info_data(appended_info(self@.info_data, InfoBridge::GroupAddr(value))),
    {
        self.append_info_data(InfoBridge::GroupAddr(value))
    }

    /// Sets the STP forward delay, in hundredths of a second.
    pub fn forward_delay(self, value: u32) -> (res: Self)
        ensures
            res@ == self@.with_info_data(appended_info(self@.info_data, InfoBridge::ForwardDelay(value))),
    {
        self.append_info_data(InfoBridge::ForwardDelay(value))
    }

    /// Sets the STP hello time, in hundredths of a second.
    pub fn hello_time(self, value: u32) -> (res: Self)
        ensures
            res@ == self@.with_info_data(appended_info(self@.info_data, InfoBridge::HelloTime(value))),
    {
        self.append_info_data(InfoBridge::HelloTime(value))
    }

    /// Sets the STP max age, in hundredths of a second.
    pub fn max_age(self, value: u32) -> (res: Self)
        ensures
            res@ == self@.with_info_data(appended_info(self@.info_data, InfoBridge::MaxAge(value))),
    {
        self.append_info_data(InfoBridge::MaxAge(value))
    }

    /// Sets the STP state.
    pub fn stp_state(self, value: u32) -> (res: Self)
        ensures
            res@ == self@.with_info_data(appended_info(self@.info_data, InfoBridge::StpState(value))),
    {
        self.append_info_data(InfoBridge::StpState(value))
    }

    /// Turns multiple spanning trees on or off.
    pub fn mst_enabled(self, value: bool) -> (res: Self)
        ensures
            res@ == self@.with_info_data(merged_bool_opt_data(self@.info_data, BR_BOOLOPT_MST_ENABLE, value)),
    {
        self.set_boolean_opt(BR_BOOLOPT_MST_ENABLE, value)
    }

    /// Sets the bridge priority.
    pub fn priority(self, value: u16) -> (res: Self)
        ensures
            res@ == self@.with_info_data(appended_info(self@.info_data, InfoBridge::Priority(value))),
    {
        self.append_info_data(InfoBridge::Priority(value))
    }

    /// Turns learning from link-local packets off (`true`) or on.
    pub fn no_linklocal_learn(self, value: bool) -> (res: Self)
        ensures
            res@ == self@.with_info_data(merged_bool_opt_data(self@.info_data, BR_BOOLOPT_NO_LL_LEARN, value)),
    {
        self.set_boolean_opt(BR_BOOLOPT_NO_LL_LEARN, value)
    }

    /// Keeps local FDB entries on VLAN 0 only, or not.
    pub fn fdb_local_vlan_0(self, value: bool) -> (res: Self)
        ensures
            res@ == self@.with_info_data(merged_bool_opt_data(self@.info_data, BR_BOOLOPT_FDB_LOCAL_VLAN_0, value)),
    {
        self.set_boolean_opt(BR_BOOLOPT_FDB_LOCAL_VLAN_0, value)
    }

    /// Turns VLAN filtering on or off.
    pub fn vlan_filtering(self, value: bool) -> (res: Self)
        ensures
            res@ == self@.with_info_data(appended_info(self@.info_data, InfoBridge::VlanFiltering(value))),
    {
        self.append_info_data(InfoBridge::VlanFiltering(value))
    }

    /// Sets the VLAN protocol, carried as its EtherType.
    pub fn vlan_protocol(self, value: VlanProtocol) -> (res: Self)
        ensures
            res@ == self@.with_info_data(appended_info(self@.info_data, InfoBridge::VlanProtocol(vlan_ethertype(value)))),
    {
        self.append_info_data(InfoBridge::VlanProtocol(vlan_protocol_ethertype(value)))
    }

    /// Sets the default port VLAN id.
    pub fn vlan_default_pvid(self, value: u16) -> (res: Self)
        ensures
            res@ == self@.with_info_data(appended_info(self@.info_data, InfoBridge::VlanDefaultPvid(value))),
    {
        self.append_info_data(InfoBridge::VlanDefaultPvid(value))
    }

    /// Turns per-VLAN statistics on or off.
    pub fn vlan_stats_enabled(self, value: bool) -> (res: Self)
        ensures
            res@ == self@.with_info_data(appended_info(self@.info_data, InfoBridge::VlanStatsEnabled(if value { 1u8 } else { 0u8 }))),
    {
        self.append_info_data(InfoBridge::VlanStatsEnabled(flag_byte(value)))
    }

    /// Turns per-port VLAN statistics on or off.
    pub fn vlan_stats_per_port(self, value: bool) -> (res: Self)
        ensures
            res@ == self@.with_info_data(appended_info(self@.info_data, InfoBridge::VlanStatsPerHost(if value { 1u8 } else { 0u8 }))),
    {
        self.append_info_data(InfoBridge::VlanStatsPerHost(flag_byte(value)))
    }

    /// Turns multicast snooping on or off.
    pub fn mcast_snooping(self, value: bool) -> (res: Self)
        ensures
            res@ == self@.with_info_data(appended_info(self@.info_data, InfoBridge::MulticastSnooping(if value { 1u8 } else { 0u8 }))),
    {
        self.append_info_data(InfoBridge::MulticastSnooping(flag_byte(value)))
    }

    /// Turns per-VLAN multicast snooping on or off.
    pub fn mcast_vlan_snooping(self, value: bool) -> (res: Self)
        ensures
            res@ == self@.with_info_data(merged_bool_opt_data(self@.info_data, BR_BOOLOPT_MCAST_VLAN_SNOOPING, value)),
    {
        self.set_boolean_opt(BR_BOOLOPT_MCAST_VLAN_SNOOPING, value)
    }

    /// Sets the multicast router mode.
    pub fn mcast_router(self, value: u8) -> (res: Self)
        ensures
            res@ == self@.with_info_data(appended_info(self@.info_data, InfoBridge::MulticastRouter(value))),
    {
        self.append_info_data(InfoBridge::MulticastRouter(value))
    }

    /// Makes multicast queries use the interface address, or not.
    pub fn mcast_query_use_ifaddr(self, value: bool) -> (res: Self)
        ensures
            res@ == self@.with_info_data(appended_info(self@.info_data, InfoBridge::MulticastQueryUseIfaddr(if value { 1u8 } else { 0u8 }))),
    {
        self.append_info_data(InfoBridge::MulticastQueryUseIfaddr(flag_byte(value)))
    }

    /// Turns the multicast querier on or off.
    pub fn mcast_querier(self, value: bool) -> (res: Self)
        ensures
            res@ == self@.with_info_data(appended_info(self@.info_data, InfoBridge::MulticastQuerier(if value { 1u8 } else { 0u8 }))),
    {
        self.append_info_data(InfoBridge::MulticastQuerier(flag_byte(value)))
    }

    /// Sets the size of the multicast database hash table.
    pub fn mcast_hash_max(self, value: u32) -> (res: Self)
        ensures
            res@ == self@.with_info_data(appended_info(self@.info_data, InfoBridge::MulticastHashMax(value))),
    {
        self.append_info_data(InfoBridge::MulticastHashMax(value))
    }

    /// Sets the multicast last member count.
    pub fn mcast_last_member_count(self, value: u32) -> (res: Self)
        ensures
            res@ == self@.with_info_data(appended_info(self@.info_data, InfoBridge::MulticastLastMemberCount(value))),
    {
        self.append_info_data(InfoBridge::MulticastLastMemberCount(value))
    }

    /// Sets the multicast startup query count.
    pub fn mcast_startup_query_count(self, value: u32) -> (res: Self)
        ensures
            res@ == self@.with_info_data(appended_info(self@.info_data, InfoBridge::MulticastStartupQueryCount(value))),
    {
        self.append_info_data(InfoBridge::MulticastStartupQueryCount(value))
    }

    /// Sets the multicast last member interval.
    pub fn mcast_last_member_interval(self, value: u64) -> (res: Self)
        ensures
            res@ == self@.with_info_data(appended_info(self@.info_data, InfoBridge::MulticastLastMemberInterval(value))),
    {
        self.append_info_data(InfoBridge::MulticastLastMemberInterval(value))
    }

    /// Sets the multicast membership interval.
    pub fn mcast_membership_interval(self, value: u64) -> (res: Self)
        ensures
            res@ == self@.with_info_data(appended_info(self@.info_data, InfoBridge::MulticastMembershipInterval(value))),
    {
        self.append_info_data(InfoBridge::MulticastMembershipInterval(value))
    }

    /// Sets the multicast querier interval.
    pub fn mcast_querier_interval(self, value: u64) -> (res: Self)
        ensures
            res@ == self@.with_info_data(appended_info(self@.info_data, InfoBridge::MulticastQuerierInterval(value))),
    {
        self.append_info_data(InfoBridge::MulticastQuerierInterval(value))
    }

    /// Sets the multicast query interval.
    pub fn mcast_query_interval(self, value: u64) -> (res: Self)
        ensures
            res@ == self@.with_info_data(appended_info(self@.info_data, InfoBridge::MulticastQueryInterval(value))),
    {
        self.append_info_data(InfoBridge::MulticastQueryInterval(value))
    }

    /// Sets the multicast query response interval.
    pub fn mcast_query_response_interval(self, value: u64) -> (res: Self)
        ensures
            res@ == self@.with_info_data(appended_info(self@.info_data, InfoBridge::MulticastQueryResponseInterval(value))),
    {
        self.append_info_data(InfoBridge::MulticastQueryResponseInterval(value))
    }

    /// Sets the multicast startup query interval.
    pub fn mcast_startup_query_interval(self, value: u64) -> (res: Self)
        ensures
            res@ == self@.with_info_data(appended_info(self@.info_data, InfoBridge::MulticastStartupQueryInterval(value))),
    {
        self.append_info_data(InfoBridge::MulticastStartupQueryInterval(value))
    }

    /// Turns multicast statistics on or off.
    pub fn mcast_stats_enabled(self, value: bool) -> (res: Self)
        ensures
            res@ == self@.with_info_data(appended_info(self@.info_data, InfoBridge::MulticastStatsEnabled(if value { 1u8 } else { 0u8 }))),
    {
        self.append_info_data(InfoBridge::MulticastStatsEnabled(flag_byte(value)))
    }

    /// Sets the IGMP version.
    pub fn mcast_igmp_version(self, value: u8) -> (res: Self)
        ensures
            res@ == self@.with_info_data(appended_info(self@.info_data, InfoBridge::MulticastIgmpVersion(value))),
    {
        self.append_info_data(InfoBridge::MulticastIgmpVersion(value))
    }

    /// Sets the MLD version.
    pub fn mcast_mld_version(self, value: u8) -> (res: Self)
        ensures
            res@ == self@.with_info_data(appended_info(self@.info_data, InfoBridge::MulticastMldVersion(value))),
    {
        self.append_info_data(InfoBridge::MulticastMldVersion(value))
    }

    /// Passes bridged IPv4 traffic to iptables, or not.
    pub fn nf_call_iptables(self, value: bool) -> (res: Self)
        ensures
            res@ == self@.with_info_data(appended_info(self@.info_data, InfoBridge::NfCallIpTables(if value { 1u8 } else { 0u8 }))),
    {
        self.append_info_data(InfoBridge::NfCallIpTables(flag_byte(value)))
    }

    /// Passes bridged IPv6 traffic to ip6tables, or not.
    pub fn nf_call_ip6tables(self, value: bool) -> (res: Self)
        ensures
            res@ == self@.with_info_data(appended_info(self@.info_data, InfoBridge::NfCallIp6Tables(if value { 1u8 } else { 0u8 }))),
    {
        self.append_info_data(InfoBridge::NfCallIp6Tables(flag_byte(value)))
    }

    /// Passes bridged ARP traffic to arptables, or not.
    pub fn nf_call_arptables(self, value: bool) -> (res: Self)
        ensures
            res@ == self@.with_info_data(appended_info(self@.info_data, InfoBridge::NfCallArpTables(if value { 1u8 } else { 0u8 }))),
    {
        self.append_info_data(InfoBridge::NfCallArpTables(flag_byte(value)))
    }

    /// Turns notifications of failed MDB offloads on or off.
    pub fn mdb_offload_fail_notification(self, value: bool) -> (res: Self)
        ensures
            res@ == self@.with_info_data(merged_bool_opt_data(self@.info_data, BR_BOOLOPT_MDB_OFFLOAD_FAIL_NOTIFICATION, value)),
    {
        self.set_boolean_opt(BR_BOOLOPT_MDB_OFFLOAD_FAIL_NOTIFICATION, value)
    }
}

} // verus!
