use countersyncd::sai_buffer::{SaiBufferPoolStat, SaiIngressPriorityGroupStat};
use countersyncd::sai_port::SaiPortStat;
use countersyncd::sai_queue::SaiQueueStat;


#[test]
fn saibuffer_test_from_u32() {
    assert_eq!(
        SaiBufferPoolStat::from_u32(0x00000000),
        Some(SaiBufferPoolStat::CurrOccupancyBytes)
    );
    assert_eq!(
        SaiBufferPoolStat::from_u32(0x00000001),
        Some(SaiBufferPoolStat::WatermarkBytes)
    );
    assert_eq!(
        SaiBufferPoolStat::from_u32(0x00000018),
        Some(SaiBufferPoolStat::WatermarkCells)
    );
    assert_eq!(
        SaiBufferPoolStat::from_u32(0x10000000),
        Some(SaiBufferPoolStat::CustomRangeBase)
    );
    assert_eq!(SaiBufferPoolStat::from_u32(0xFFFFFFFF), None);
}

#[test]
fn saibuffer_test_to_u32() {
    assert_eq!(SaiBufferPoolStat::CurrOccupancyBytes.to_u32(), 0x00000000);
    assert_eq!(SaiBufferPoolStat::WatermarkBytes.to_u32(), 0x00000001);
    assert_eq!(SaiBufferPoolStat::WatermarkCells.to_u32(), 0x00000018);
    assert_eq!(SaiBufferPoolStat::CustomRangeBase.to_u32(), 0x10000000);
}

#[test]
fn saibuffer_test_string_conversion() {
    let stat = SaiBufferPoolStat::CurrOccupancyBytes;
    let c_name = stat.to_c_name();
    assert_eq!(c_name, "SAI_BUFFER_POOL_STAT_CURR_OCCUPANCY_BYTES");

    let parsed: SaiBufferPoolStat = c_name.parse::<SaiBufferPoolStat>().unwrap();
    assert_eq!(parsed, stat);

    assert_eq!(stat.to_c_name(), c_name);
}

#[test]
fn saibuffer_test_wred_stats() {
    // Test WRED drop stats
    assert_eq!(
        SaiBufferPoolStat::GreenWredDroppedPackets.to_u32(),
        0x00000003
    );
    assert_eq!(
        SaiBufferPoolStat::YellowWredDroppedBytes.to_u32(),
        0x00000006
    );
    assert_eq!(
        SaiBufferPoolStat::RedWredDroppedPackets.to_u32(),
        0x00000007
    );

    // Test WRED ECN mark stats
    assert_eq!(
        SaiBufferPoolStat::GreenWredEcnMarkedPackets.to_u32(),
        0x0000000b
    );
    assert_eq!(SaiBufferPoolStat::WredEcnMarkedBytes.to_u32(), 0x00000012);
}

#[test]
fn test_xoff_room_stats() {
    assert_eq!(
        SaiBufferPoolStat::XoffRoomCurrOccupancyBytes.to_u32(),
        0x00000013
    );
    assert_eq!(
        SaiBufferPoolStat::XoffRoomWatermarkCells.to_u32(),
        0x00000016
    );
}



#[test]
fn test_ipg_from_u32() {
    assert_eq!(
        SaiIngressPriorityGroupStat::from_u32(0x00000000),
        Some(SaiIngressPriorityGroupStat::Packets)
    );
    assert_eq!(
        SaiIngressPriorityGroupStat::from_u32(0x00000001),
        Some(SaiIngressPriorityGroupStat::Bytes)
    );
    assert_eq!(
        SaiIngressPriorityGroupStat::from_u32(0x00000008),
        Some(SaiIngressPriorityGroupStat::DroppedPackets)
    );
    assert_eq!(
        SaiIngressPriorityGroupStat::from_u32(0x0000000e),
        Some(SaiIngressPriorityGroupStat::XoffRoomWatermarkCells)
    );
    assert_eq!(
        SaiIngressPriorityGroupStat::from_u32(0x10000000),
        Some(SaiIngressPriorityGroupStat::CustomRangeBase)
    );
    assert_eq!(SaiIngressPriorityGroupStat::from_u32(0xFFFFFFFF), None);
}

#[test]
fn test_ipg_to_u32() {
    assert_eq!(SaiIngressPriorityGroupStat::Packets.to_u32(), 0x00000000);
    assert_eq!(SaiIngressPriorityGroupStat::Bytes.to_u32(), 0x00000001);
    assert_eq!(
        SaiIngressPriorityGroupStat::DroppedPackets.to_u32(),
        0x00000008
    );
    assert_eq!(
        SaiIngressPriorityGroupStat::XoffRoomWatermarkCells.to_u32(),
        0x0000000e
    );
    assert_eq!(
        SaiIngressPriorityGroupStat::CustomRangeBase.to_u32(),
        0x10000000
    );
}

#[test]
fn test_ipg_string_conversion() {
    let stat = SaiIngressPriorityGroupStat::CurrOccupancyBytes;
    let c_name = stat.to_c_name();
    assert_eq!(
        c_name,
        "SAI_INGRESS_PRIORITY_GROUP_STAT_CURR_OCCUPANCY_BYTES"
    );

    let parsed: SaiIngressPriorityGroupStat = c_name.parse::<SaiIngressPriorityGroupStat>().unwrap();
    assert_eq!(parsed, stat);

    assert_eq!(stat.to_c_name(), c_name);
}

#[test]
fn test_ipg_occupancy_stats() {
    // Test byte-based occupancy stats
    assert_eq!(
        SaiIngressPriorityGroupStat::CurrOccupancyBytes.to_u32(),
        0x00000002
    );
    assert_eq!(
        SaiIngressPriorityGroupStat::WatermarkBytes.to_u32(),
        0x00000003
    );
    assert_eq!(
        SaiIngressPriorityGroupStat::SharedCurrOccupancyBytes.to_u32(),
        0x00000004
    );
    assert_eq!(
        SaiIngressPriorityGroupStat::SharedWatermarkBytes.to_u32(),
        0x00000005
    );

    // Test cell-based occupancy stats
    assert_eq!(
        SaiIngressPriorityGroupStat::CurrOccupancyCells.to_u32(),
        0x00000009
    );
    assert_eq!(
        SaiIngressPriorityGroupStat::WatermarkCells.to_u32(),
        0x0000000a
    );
    assert_eq!(
        SaiIngressPriorityGroupStat::SharedCurrOccupancyCells.to_u32(),
        0x0000000b
    );
    assert_eq!(
        SaiIngressPriorityGroupStat::SharedWatermarkCells.to_u32(),
        0x0000000c
    );
}

#[test]
fn test_ipg_xoff_room_stats() {
    // Test XOFF room byte stats
    assert_eq!(
        SaiIngressPriorityGroupStat::XoffRoomCurrOccupancyBytes.to_u32(),
        0x00000006
    );
    assert_eq!(
        SaiIngressPriorityGroupStat::XoffRoomWatermarkBytes.to_u32(),
        0x00000007
    );

    // Test XOFF room cell stats
    assert_eq!(
        SaiIngressPriorityGroupStat::XoffRoomCurrOccupancyCells.to_u32(),
        0x0000000d
    );
    assert_eq!(
        SaiIngressPriorityGroupStat::XoffRoomWatermarkCells.to_u32(),
        0x0000000e
    );
}



#[test]
fn test_basic_conversion() {
    assert_eq!(SaiPortStat::IfInOctets.to_u32(), 0);
    assert_eq!(SaiPortStat::IfInUcastPkts.to_u32(), 1);
    assert_eq!(SaiPortStat::Pfc0RxPkts.to_u32(), 103);
    assert_eq!(SaiPortStat::End.to_u32(), 0x00002010);
}

#[test]
fn saiport_test_from_u32() {
    assert_eq!(SaiPortStat::from_u32(0), Some(SaiPortStat::IfInOctets));
    assert_eq!(SaiPortStat::from_u32(1), Some(SaiPortStat::IfInUcastPkts));
    assert_eq!(SaiPortStat::from_u32(103), Some(SaiPortStat::Pfc0RxPkts));
    assert_eq!(
        SaiPortStat::from_u32(0x00001000),
        Some(SaiPortStat::InConfiguredDropReasons0DroppedPkts)
    );
    assert_eq!(SaiPortStat::from_u32(0x00002010), Some(SaiPortStat::End));
    assert_eq!(SaiPortStat::from_u32(999999), None);
}

#[test]
fn saiport_test_string_conversion() {
    let stat = SaiPortStat::IfInOctets;
    assert_eq!(stat.to_c_name(), "SAI_PORT_STAT_IF_IN_OCTETS");
    assert_eq!(
        "SAI_PORT_STAT_IF_IN_OCTETS".parse::<SaiPortStat>().unwrap(),
        stat
    );

    let pfc_stat = SaiPortStat::Pfc0RxPkts;
    assert_eq!(pfc_stat.to_c_name(), "SAI_PORT_STAT_PFC_0_RX_PKTS");
    assert_eq!(
        "SAI_PORT_STAT_PFC_0_RX_PKTS"
            .parse::<SaiPortStat>()
            .unwrap(),
        pfc_stat
    );

    // Test that both START and IF_IN_OCTETS parse to the same enum value
    assert_eq!(
        "SAI_PORT_STAT_START".parse::<SaiPortStat>().unwrap(),
        SaiPortStat::IfInOctets
    );
}



#[test]
fn saiqueue_test_from_u32() {
    assert_eq!(
        SaiQueueStat::from_u32(0x00000000),
        Some(SaiQueueStat::Packets)
    );
    assert_eq!(
        SaiQueueStat::from_u32(0x00000001),
        Some(SaiQueueStat::Bytes)
    );
    assert_eq!(
        SaiQueueStat::from_u32(0x00000002),
        Some(SaiQueueStat::DroppedPackets)
    );
    assert_eq!(
        SaiQueueStat::from_u32(0x0000002e),
        Some(SaiQueueStat::TxTrimPackets)
    );
    assert_eq!(
        SaiQueueStat::from_u32(0x10000000),
        Some(SaiQueueStat::CustomRangeBase)
    );
    assert_eq!(SaiQueueStat::from_u32(0xFFFFFFFF), None);
}

#[test]
fn saiqueue_test_to_u32() {
    assert_eq!(SaiQueueStat::Packets.to_u32(), 0x00000000);
    assert_eq!(SaiQueueStat::Bytes.to_u32(), 0x00000001);
    assert_eq!(SaiQueueStat::DroppedPackets.to_u32(), 0x00000002);
    assert_eq!(SaiQueueStat::TxTrimPackets.to_u32(), 0x0000002e);
    assert_eq!(SaiQueueStat::CustomRangeBase.to_u32(), 0x10000000);
}

#[test]
fn saiqueue_test_string_conversion() {
    let stat = SaiQueueStat::CurrOccupancyBytes;
    let c_name = stat.to_c_name();
    assert_eq!(c_name, "SAI_QUEUE_STAT_CURR_OCCUPANCY_BYTES");

    let parsed: SaiQueueStat = c_name.parse::<SaiQueueStat>().unwrap();
    assert_eq!(parsed, stat);

    assert_eq!(stat.to_c_name(), c_name);
}

#[test]
fn test_color_based_stats() {
    // Test green color stats
    assert_eq!(SaiQueueStat::GreenPackets.to_u32(), 0x00000004);
    assert_eq!(SaiQueueStat::GreenBytes.to_u32(), 0x00000005);
    assert_eq!(SaiQueueStat::GreenDroppedPackets.to_u32(), 0x00000006);

    // Test yellow color stats
    assert_eq!(SaiQueueStat::YellowPackets.to_u32(), 0x00000008);
    assert_eq!(SaiQueueStat::YellowDroppedBytes.to_u32(), 0x0000000b);

    // Test red color stats
    assert_eq!(SaiQueueStat::RedPackets.to_u32(), 0x0000000c);
    assert_eq!(SaiQueueStat::RedDroppedBytes.to_u32(), 0x0000000f);
}

#[test]
fn saiqueue_test_wred_stats() {
    // Test WRED drop stats
    assert_eq!(SaiQueueStat::GreenWredDroppedPackets.to_u32(), 0x00000010);
    assert_eq!(SaiQueueStat::YellowWredDroppedBytes.to_u32(), 0x00000013);
    assert_eq!(SaiQueueStat::RedWredDroppedPackets.to_u32(), 0x00000014);
    assert_eq!(SaiQueueStat::WredDroppedBytes.to_u32(), 0x00000017);

    // Test WRED ECN mark stats
    assert_eq!(SaiQueueStat::GreenWredEcnMarkedPackets.to_u32(), 0x0000001c);
    assert_eq!(SaiQueueStat::WredEcnMarkedBytes.to_u32(), 0x00000023);
}

#[test]
fn test_occupancy_stats() {
    // Test byte-based occupancy stats
    assert_eq!(SaiQueueStat::CurrOccupancyBytes.to_u32(), 0x00000018);
    assert_eq!(SaiQueueStat::WatermarkBytes.to_u32(), 0x00000019);
    assert_eq!(SaiQueueStat::SharedCurrOccupancyBytes.to_u32(), 0x0000001a);
    assert_eq!(SaiQueueStat::SharedWatermarkBytes.to_u32(), 0x0000001b);

    // Test cell-based occupancy stats
    assert_eq!(SaiQueueStat::CurrOccupancyCells.to_u32(), 0x00000029);
    assert_eq!(SaiQueueStat::WatermarkCells.to_u32(), 0x0000002a);
    assert_eq!(SaiQueueStat::SharedCurrOccupancyCells.to_u32(), 0x0000002b);
    assert_eq!(SaiQueueStat::SharedWatermarkCells.to_u32(), 0x0000002c);

    // Test occupancy level stats
    assert_eq!(SaiQueueStat::CurrOccupancyLevel.to_u32(), 0x00000024);
    assert_eq!(SaiQueueStat::WatermarkLevel.to_u32(), 0x00000025);
}

#[test]
fn test_special_stats() {
    // Test specialized queue statistics
    assert_eq!(SaiQueueStat::CreditWdDeletedPackets.to_u32(), 0x00000026);
    assert_eq!(SaiQueueStat::DelayWatermarkNs.to_u32(), 0x00000027);
    assert_eq!(SaiQueueStat::TrimPackets.to_u32(), 0x00000028);
    assert_eq!(SaiQueueStat::DroppedTrimPackets.to_u32(), 0x0000002d);
    assert_eq!(SaiQueueStat::TxTrimPackets.to_u32(), 0x0000002e);
}
