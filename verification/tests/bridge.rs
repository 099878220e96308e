use rtnetlink::link::bool_opt::update_bool_opt;
use rtnetlink::link::bridge::LinkBridge;
use rtnetlink::link::builder::LinkMessageBuilder;
use rtnetlink::link::info::{InfoBridge, InfoData, InfoKind, LinkAttribute, VlanProtocol};

fn bridge_infos(builder: LinkMessageBuilder<LinkBridge>) -> Vec<InfoBridge> {
    match builder.into_parts().2 {
        Some(InfoData::Bridge(infos)) => infos,
        other => panic!("no bridge data: {:?}", other),
    }
}

#[test]
fn link_bridge_new_names_and_brings_up() {
    let (up, kind, data, attributes) = LinkBridge::new("br0").into_parts();
    assert!(up);
    assert_eq!(kind, Some(InfoKind::Bridge));
    assert_eq!(data, None);
    assert_eq!(attributes, vec![LinkAttribute::IfName("br0".to_string())]);
}

#[test]
fn builder_new_does_not_bring_up() {
    let (up, kind, data, attributes) = LinkMessageBuilder::<LinkBridge>::new("br1").into_parts();
    assert!(!up);
    assert_eq!(kind, Some(InfoKind::Bridge));
    assert_eq!(data, None);
    assert_eq!(attributes, vec![LinkAttribute::IfName("br1".to_string())]);
}

#[test]
fn setters_append_in_order() {
    let infos = bridge_infos(
        LinkBridge::new("br0")
            .ageing_time(300)
            .priority(10)
            .group_address([1, 2, 3, 4, 5, 6])
            .mcast_last_member_interval(7),
    );
    assert_eq!(
        infos,
        vec![
            InfoBridge::AgeingTime(300),
            InfoBridge::Priority(10),
            InfoBridge::GroupAddr([1, 2, 3, 4, 5, 6]),
            InfoBridge::MulticastLastMemberInterval(7),
        ]
    );
}

#[test]
fn flag_setters_carry_bytes() {
    let infos = bridge_infos(
        LinkBridge::new("br0")
            .vlan_stats_enabled(true)
            .vlan_stats_per_port(false)
            .mcast_snooping(true)
            .nf_call_arptables(false)
            .vlan_filtering(true),
    );
    assert_eq!(
        infos,
        vec![
            InfoBridge::VlanStatsEnabled(1),
            InfoBridge::VlanStatsPerHost(0),
            InfoBridge::MulticastSnooping(1),
            InfoBridge::NfCallArpTables(0),
            InfoBridge::VlanFiltering(true),
        ]
    );
}

#[test]
fn vlan_protocol_carries_ethertype() {
    let infos = bridge_infos(
        LinkBridge::new("br0")
            .vlan_protocol(VlanProtocol::Ieee8021Ad)
            .vlan_protocol(VlanProtocol::Ieee8021Q),
    );
    assert_eq!(
        infos,
        vec![InfoBridge::VlanProtocol(0x88A8), InfoBridge::VlanProtocol(0x8100)]
    );
}

#[test]
fn boolean_option_packs_value_and_mask() {
    let infos = bridge_infos(LinkBridge::new("br0").mst_enabled(true));
    assert_eq!(infos, vec![InfoBridge::MultiBoolOpt(0x0000_0004_0000_0004)]);
}

#[test]
fn boolean_options_merge_into_one_attribute() {
    let infos = bridge_infos(
        LinkBridge::new("br0")
            .ageing_time(1)
            .mst_enabled(true)
            .priority(2)
            .no_linklocal_learn(false)
            .fdb_local_vlan_0(true),
    );
    assert_eq!(
        infos,
        vec![
            InfoBridge::AgeingTime(1),
            InfoBridge::MultiBoolOpt(0x0000_0015_0000_0014),
            InfoBridge::Priority(2),
        ]
    );
}

#[test]
fn boolean_option_set_twice_keeps_last_value() {
    let infos = bridge_infos(LinkBridge::new("br0").mcast_vlan_snooping(true).mcast_vlan_snooping(false));
    assert_eq!(infos, vec![InfoBridge::MultiBoolOpt(0x0000_0002_0000_0000)]);
}

#[test]
fn boolean_options_commute() {
    let a = bridge_infos(LinkBridge::new("br0").mdb_offload_fail_notification(true).mst_enabled(false));
    let b = bridge_infos(LinkBridge::new("br0").mst_enabled(false).mdb_offload_fail_notification(true));
    assert_eq!(a, b);
    assert_eq!(a, vec![InfoBridge::MultiBoolOpt(0x0000_000C_0000_0008)]);
}

#[test]
fn boolean_option_merges_into_first_existing() {
    let infos = bridge_infos(
        LinkBridge::new("br0")
            .append_info_data(InfoBridge::MultiBoolOpt(0x0000_0001_0000_0001))
            .append_info_data(InfoBridge::MultiBoolOpt(0))
            .mst_enabled(true),
    );
    assert_eq!(
        infos,
        vec![
            InfoBridge::MultiBoolOpt(0x0000_0005_0000_0005),
            InfoBridge::MultiBoolOpt(0),
        ]
    );
}

#[test]
fn other_info_data_is_left_alone() {
    let (_, _, data, _) = LinkBridge::new("br0")
        .set_info_data(InfoData::Other(vec![9, 9]))
        .ageing_time(5)
        .mst_enabled(true)
        .into_parts();
    assert_eq!(data, Some(InfoData::Other(vec![9, 9])));
}

#[test]
fn update_bool_opt_exact_values() {
    assert_eq!(update_bool_opt(0, 0, true), 0x0000_0001_0000_0001);
    assert_eq!(update_bool_opt(0, 31, true), 0x8000_0000_8000_0000);
    assert_eq!(update_bool_opt(0xFFFF_FFFF_FFFF_FFFF, 3, false), 0xFFFF_FFFF_FFFF_FFF7);
    assert_eq!(update_bool_opt(0x0000_0010_0000_0010, 1, false), 0x0000_0012_0000_0010);
}
