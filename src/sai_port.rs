//! SAI port statistics (`sai_port_stat_t`).

use vstd::prelude::*;
use crate::text::str_eq;

verus! {

/// SAI port statistics.
#[derive(Debug, Clone, Copy, PartialEq, Eq, Structural, Hash)]
pub enum SaiPortStat {
    IfInOctets,
    IfInUcastPkts,
    IfInNonUcastPkts,
    IfInDiscards,
    IfInErrors,
    IfInUnknownProtos,
    IfInBroadcastPkts,
    IfInMulticastPkts,
    IfInVlanDiscards,
    IfOutOctets,
    IfOutUcastPkts,
    IfOutNonUcastPkts,
    IfOutDiscards,
    IfOutErrors,
    IfOutQlen,
    IfOutBroadcastPkts,
    IfOutMulticastPkts,
    EtherStatsDropEvents,
    EtherStatsMulticastPkts,
    EtherStatsBroadcastPkts,
    EtherStatsUndersizePkts,
    EtherStatsFragments,
    EtherStatsPkts64Octets,
    EtherStatsPkts65To127Octets,
    EtherStatsPkts128To255Octets,
    EtherStatsPkts256To511Octets,
    EtherStatsPkts512To1023Octets,
    EtherStatsPkts1024To1518Octets,
    EtherStatsPkts1519To2047Octets,
    EtherStatsPkts2048To4095Octets,
    EtherStatsPkts4096To9216Octets,
    EtherStatsPkts9217To16383Octets,
    EtherStatsOversizePkts,
    EtherRxOversizePkts,
    EtherTxOversizePkts,
    EtherStatsJabbers,
    EtherStatsOctets,
    EtherStatsPkts,
    EtherStatsCollisions,
    EtherStatsCrcAlignErrors,
    EtherStatsTxNoErrors,
    EtherStatsRxNoErrors,
    IpInReceives,
    IpInOctets,
    IpInUcastPkts,
    IpInNonUcastPkts,
    IpInDiscards,
    IpOutOctets,
    IpOutUcastPkts,
    IpOutNonUcastPkts,
    IpOutDiscards,
    Ipv6InReceives,
    Ipv6InOctets,
    Ipv6InUcastPkts,
    Ipv6InNonUcastPkts,
    Ipv6InMcastPkts,
    Ipv6InDiscards,
    Ipv6OutOctets,
    Ipv6OutUcastPkts,
    Ipv6OutNonUcastPkts,
    Ipv6OutMcastPkts,
    Ipv6OutDiscards,
    GreenWredDroppedPackets,
    GreenWredDroppedBytes,
    YellowWredDroppedPackets,
    YellowWredDroppedBytes,
    RedWredDroppedPackets,
    RedWredDroppedBytes,
    WredDroppedPackets,
    WredDroppedBytes,
    EcnMarkedPackets,
    EtherInPkts64Octets,
    EtherInPkts65To127Octets,
    EtherInPkts128To255Octets,
    EtherInPkts256To511Octets,
    EtherInPkts512To1023Octets,
    EtherInPkts1024To1518Octets,
    EtherInPkts1519To2047Octets,
    EtherInPkts2048To4095Octets,
    EtherInPkts4096To9216Octets,
    EtherInPkts9217To16383Octets,
    EtherOutPkts64Octets,
    EtherOutPkts65To127Octets,
    EtherOutPkts128To255Octets,
    EtherOutPkts256To511Octets,
    EtherOutPkts512To1023Octets,
    EtherOutPkts1024To1518Octets,
    EtherOutPkts1519To2047Octets,
    EtherOutPkts2048To4095Octets,
    EtherOutPkts4096To9216Octets,
    EtherOutPkts9217To16383Octets,
    InCurrOccupancyBytes,
    InWatermarkBytes,
    InSharedCurrOccupancyBytes,
    InSharedWatermarkBytes,
    OutCurrOccupancyBytes,
    OutWatermarkBytes,
    OutSharedCurrOccupancyBytes,
    OutSharedWatermarkBytes,
    InDroppedPkts,
    OutDroppedPkts,
    PauseRxPkts,
    PauseTxPkts,
    Pfc0RxPkts,
    Pfc0TxPkts,
    Pfc1RxPkts,
    Pfc1TxPkts,
    Pfc2RxPkts,
    Pfc2TxPkts,
    Pfc3RxPkts,
    Pfc3TxPkts,
    Pfc4RxPkts,
    Pfc4TxPkts,
    Pfc5RxPkts,
    Pfc5TxPkts,
    Pfc6RxPkts,
    Pfc6TxPkts,
    Pfc7RxPkts,
    Pfc7TxPkts,
    Pfc0RxPauseDuration,
    Pfc0TxPauseDuration,
    Pfc1RxPauseDuration,
    Pfc1TxPauseDuration,
    Pfc2RxPauseDuration,
    Pfc2TxPauseDuration,
    Pfc3RxPauseDuration,
    Pfc3TxPauseDuration,
    Pfc4RxPauseDuration,
    Pfc4TxPauseDuration,
    Pfc5RxPauseDuration,
    Pfc5TxPauseDuration,
    Pfc6RxPauseDuration,
    Pfc6TxPauseDuration,
    Pfc7RxPauseDuration,
    Pfc7TxPauseDuration,
    Pfc0RxPauseDurationUs,
    Pfc0TxPauseDurationUs,
    Pfc1RxPauseDurationUs,
    Pfc1TxPauseDurationUs,
    Pfc2RxPauseDurationUs,
    Pfc2TxPauseDurationUs,
    Pfc3RxPauseDurationUs,
    Pfc3TxPauseDurationUs,
    Pfc4RxPauseDurationUs,
    Pfc4TxPauseDurationUs,
    Pfc5RxPauseDurationUs,
    Pfc5TxPauseDurationUs,
    Pfc6RxPauseDurationUs,
    Pfc6TxPauseDurationUs,
    Pfc7RxPauseDurationUs,
    Pfc7TxPauseDurationUs,
    Pfc0On2OffRxPkts,
    Pfc1On2OffRxPkts,
    Pfc2On2OffRxPkts,
    Pfc3On2OffRxPkts,
    Pfc4On2OffRxPkts,
    Pfc5On2OffRxPkts,
    Pfc6On2OffRxPkts,
    Pfc7On2OffRxPkts,
    Dot3StatsAlignmentErrors,
    Dot3StatsFcsErrors,
    Dot3StatsSingleCollisionFrames,
    Dot3StatsMultipleCollisionFrames,
    Dot3StatsSqeTestErrors,
    Dot3StatsDeferredTransmissions,
    Dot3StatsLateCollisions,
    Dot3StatsExcessiveCollisions,
    Dot3StatsInternalMacTransmitErrors,
    Dot3StatsCarrierSenseErrors,
    Dot3StatsFrameTooLongs,
    Dot3StatsInternalMacReceiveErrors,
    Dot3StatsSymbolErrors,
    Dot3ControlInUnknownOpcodes,
    EeeTxEventCount,
    EeeRxEventCount,
    EeeTxDuration,
    EeeRxDuration,
    PrbsErrorCount,
    IfInFecCorrectableFrames,
    IfInFecNotCorrectableFrames,
    IfInFecSymbolErrors,
    IfInFabricDataUnits,
    IfOutFabricDataUnits,
    IfInFecCodewordErrorsS0,
    IfInFecCodewordErrorsS1,
    IfInFecCodewordErrorsS2,
    IfInFecCodewordErrorsS3,
    IfInFecCodewordErrorsS4,
    IfInFecCodewordErrorsS5,
    IfInFecCodewordErrorsS6,
    IfInFecCodewordErrorsS7,
    IfInFecCodewordErrorsS8,
    IfInFecCodewordErrorsS9,
    IfInFecCodewordErrorsS10,
    IfInFecCodewordErrorsS11,
    IfInFecCodewordErrorsS12,
    IfInFecCodewordErrorsS13,
    IfInFecCodewordErrorsS14,
    IfInFecCodewordErrorsS15,
    IfInFecCodewordErrorsS16,
    IfInFecCorrectedBits,
    TrimPackets,
    DroppedTrimPackets,
    TxTrimPackets,
    InConfiguredDropReasons0DroppedPkts,
    InConfiguredDropReasons1DroppedPkts,
    InConfiguredDropReasons2DroppedPkts,
    InConfiguredDropReasons3DroppedPkts,
    InConfiguredDropReasons4DroppedPkts,
    InConfiguredDropReasons5DroppedPkts,
    InConfiguredDropReasons6DroppedPkts,
    InConfiguredDropReasons7DroppedPkts,
    InConfiguredDropReasons8DroppedPkts,
    InConfiguredDropReasons9DroppedPkts,
    InConfiguredDropReasons10DroppedPkts,
    InConfiguredDropReasons11DroppedPkts,
    InConfiguredDropReasons12DroppedPkts,
    InConfiguredDropReasons13DroppedPkts,
    InConfiguredDropReasons14DroppedPkts,
    InConfiguredDropReasons15DroppedPkts,
    OutConfiguredDropReasons0DroppedPkts,
    OutConfiguredDropReasons1DroppedPkts,
    OutConfiguredDropReasons2DroppedPkts,
    OutConfiguredDropReasons3DroppedPkts,
    OutConfiguredDropReasons4DroppedPkts,
    OutConfiguredDropReasons5DroppedPkts,
    OutConfiguredDropReasons6DroppedPkts,
    OutConfiguredDropReasons7DroppedPkts,
    IfInHwProtectionSwitchoverEvents,
    IfInHwProtectionSwitchoverDropPkts,
    EtherInPkts1519To2500Octets,
    EtherInPkts2501To9000Octets,
    EtherInPkts9001To16383Octets,
    EtherOutPkts1519To2500Octets,
    EtherOutPkts2501To9000Octets,
    EtherOutPkts9001To16383Octets,
    End,
}

impl SaiPortStat {
    /// Numeric identifier of the statistic.
    pub open spec fn spec_id(self) -> u32 {
        match self {
            Self::IfInOctets => 0x00000000,
            Self::IfInUcastPkts => 0x00000001,
            Self::IfInNonUcastPkts => 0x00000002,
            Self::IfInDiscards => 0x00000003,
            Self::IfInErrors => 0x00000004,
            Self::IfInUnknownProtos => 0x00000005,
            Self::IfInBroadcastPkts => 0x00000006,
            Self::IfInMulticastPkts => 0x00000007,
            Self::IfInVlanDiscards => 0x00000008,
            Self::IfOutOctets => 0x00000009,
            Self::IfOutUcastPkts => 0x0000000a,
            Self::IfOutNonUcastPkts => 0x0000000b,
            Self::IfOutDiscards => 0x0000000c,
            Self::IfOutErrors => 0x0000000d,
            Self::IfOutQlen => 0x0000000e,
            Self::IfOutBroadcastPkts => 0x0000000f,
            Self::IfOutMulticastPkts => 0x00000010,
            Self::EtherStatsDropEvents => 0x00000011,
            Self::EtherStatsMulticastPkts => 0x00000012,
            Self::EtherStatsBroadcastPkts => 0x00000013,
            Self::EtherStatsUndersizePkts => 0x00000014,
            Self::EtherStatsFragments => 0x00000015,
            Self::EtherStatsPkts64Octets => 0x00000016,
            Self::EtherStatsPkts65To127Octets => 0x00000017,
            Self::EtherStatsPkts128To255Octets => 0x00000018,
            Self::EtherStatsPkts256To511Octets => 0x00000019,
            Self::EtherStatsPkts512To1023Octets => 0x0000001a,
            Self::EtherStatsPkts1024To1518Octets => 0x0000001b,
            Self::EtherStatsPkts1519To2047Octets => 0x0000001c,
            Self::EtherStatsPkts2048To4095Octets => 0x0000001d,
            Self::EtherStatsPkts4096To9216Octets => 0x0000001e,
            Self::EtherStatsPkts9217To16383Octets => 0x0000001f,
            Self::EtherStatsOversizePkts => 0x00000020,
            Self::EtherRxOversizePkts => 0x00000021,
            Self::EtherTxOversizePkts => 0x00000022,
            Self::EtherStatsJabbers => 0x00000023,
            Self::EtherStatsOctets => 0x00000024,
            Self::EtherStatsPkts => 0x00000025,
            Self::EtherStatsCollisions => 0x00000026,
            Self::EtherStatsCrcAlignErrors => 0x00000027,
            Self::EtherStatsTxNoErrors => 0x00000028,
            Self::EtherStatsRxNoErrors => 0x00000029,
            Self::IpInReceives => 0x0000002a,
            Self::IpInOctets => 0x0000002b,
            Self::IpInUcastPkts => 0x0000002c,
            Self::IpInNonUcastPkts => 0x0000002d,
            Self::IpInDiscards => 0x0000002e,
            Self::IpOutOctets => 0x0000002f,
            Self::IpOutUcastPkts => 0x00000030,
            Self::IpOutNonUcastPkts => 0x00000031,
            Self::IpOutDiscards => 0x00000032,
            Self::Ipv6InReceives => 0x00000033,
            Self::Ipv6InOctets => 0x00000034,
            Self::Ipv6InUcastPkts => 0x00000035,
            Self::Ipv6InNonUcastPkts => 0x00000036,
            Self::Ipv6InMcastPkts => 0x00000037,
            Self::Ipv6InDiscards => 0x00000038,
            Self::Ipv6OutOctets => 0x00000039,
            Self::Ipv6OutUcastPkts => 0x0000003a,
            Self::Ipv6OutNonUcastPkts => 0x0000003b,
            Self::Ipv6OutMcastPkts => 0x0000003c,
            Self::Ipv6OutDiscards => 0x0000003d,
            Self::GreenWredDroppedPackets => 0x0000003e,
            Self::GreenWredDroppedBytes => 0x0000003f,
            Self::YellowWredDroppedPackets => 0x00000040,
            Self::YellowWredDroppedBytes => 0x00000041,
            Self::RedWredDroppedPackets => 0x00000042,
            Self::RedWredDroppedBytes => 0x00000043,
            Self::WredDroppedPackets => 0x00000044,
            Self::WredDroppedBytes => 0x00000045,
            Self::EcnMarkedPackets => 0x00000046,
            Self::EtherInPkts64Octets => 0x00000047,
            Self::EtherInPkts65To127Octets => 0x00000048,
            Self::EtherInPkts128To255Octets => 0x00000049,
            Self::EtherInPkts256To511Octets => 0x0000004a,
            Self::EtherInPkts512To1023Octets => 0x0000004b,
            Self::EtherInPkts1024To1518Octets => 0x0000004c,
            Self::EtherInPkts1519To2047Octets => 0x0000004d,
            Self::EtherInPkts2048To4095Octets => 0x0000004e,
            Self::EtherInPkts4096To9216Octets => 0x0000004f,
            Self::EtherInPkts9217To16383Octets => 0x00000050,
            Self::EtherOutPkts64Octets => 0x00000051,
            Self::EtherOutPkts65To127Octets => 0x00000052,
            Self::EtherOutPkts128To255Octets => 0x00000053,
            Self::EtherOutPkts256To511Octets => 0x00000054,
            Self::EtherOutPkts512To1023Octets => 0x00000055,
            Self::EtherOutPkts1024To1518Octets => 0x00000056,
            Self::EtherOutPkts1519To2047Octets => 0x00000057,
            Self::EtherOutPkts2048To4095Octets => 0x00000058,
            Self::EtherOutPkts4096To9216Octets => 0x00000059,
            Self::EtherOutPkts9217To16383Octets => 0x0000005a,
            Self::InCurrOccupancyBytes => 0x0000005b,
            Self::InWatermarkBytes => 0x0000005c,
            Self::InSharedCurrOccupancyBytes => 0x0000005d,
            Self::InSharedWatermarkBytes => 0x0000005e,
            Self::OutCurrOccupancyBytes => 0x0000005f,
            Self::OutWatermarkBytes => 0x00000060,
            Self::OutSharedCurrOccupancyBytes => 0x00000061,
            Self::OutSharedWatermarkBytes => 0x00000062,
            Self::InDroppedPkts => 0x00000063,
            Self::OutDroppedPkts => 0x00000064,
            Self::PauseRxPkts => 0x00000065,
            Self::PauseTxPkts => 0x00000066,
            Self::Pfc0RxPkts => 0x00000067,
            Self::Pfc0TxPkts => 0x00000068,
            Self::Pfc1RxPkts => 0x00000069,
            Self::Pfc1TxPkts => 0x0000006a,
            Self::Pfc2RxPkts => 0x0000006b,
            Self::Pfc2TxPkts => 0x0000006c,
            Self::Pfc3RxPkts => 0x0000006d,
            Self::Pfc3TxPkts => 0x0000006e,
            Self::Pfc4RxPkts => 0x0000006f,
            Self::Pfc4TxPkts => 0x00000070,
            Self::Pfc5RxPkts => 0x00000071,
            Self::Pfc5TxPkts => 0x00000072,
            Self::Pfc6RxPkts => 0x00000073,
            Self::Pfc6TxPkts => 0x00000074,
            Self::Pfc7RxPkts => 0x00000075,
            Self::Pfc7TxPkts => 0x00000076,
            Self::Pfc0RxPauseDuration => 0x00000077,
            Self::Pfc0TxPauseDuration => 0x00000078,
            Self::Pfc1RxPauseDuration => 0x00000079,
            Self::Pfc1TxPauseDuration => 0x0000007a,
            Self::Pfc2RxPauseDuration => 0x0000007b,
            Self::Pfc2TxPauseDuration => 0x0000007c,
            Self::Pfc3RxPauseDuration => 0x0000007d,
            Self::Pfc3TxPauseDuration => 0x0000007e,
            Self::Pfc4RxPauseDuration => 0x0000007f,
            Self::Pfc4TxPauseDuration => 0x00000080,
            Self::Pfc5RxPauseDuration => 0x00000081,
            Self::Pfc5TxPauseDuration => 0x00000082,
            Self::Pfc6RxPauseDuration => 0x00000083,
            Self::Pfc6TxPauseDuration => 0x00000084,
            Self::Pfc7RxPauseDuration => 0x00000085,
            Self::Pfc7TxPauseDuration => 0x00000086,
            Self::Pfc0RxPauseDurationUs => 0x00000087,
            Self::Pfc0TxPauseDurationUs => 0x00000088,
            Self::Pfc1RxPauseDurationUs => 0x00000089,
            Self::Pfc1TxPauseDurationUs => 0x0000008a,
            Self::Pfc2RxPauseDurationUs => 0x0000008b,
            Self::Pfc2TxPauseDurationUs => 0x0000008c,
            Self::Pfc3RxPauseDurationUs => 0x0000008d,
            Self::Pfc3TxPauseDurationUs => 0x0000008e,
            Self::Pfc4RxPauseDurationUs => 0x0000008f,
            Self::Pfc4TxPauseDurationUs => 0x00000090,
            Self::Pfc5RxPauseDurationUs => 0x00000091,
            Self::Pfc5TxPauseDurationUs => 0x00000092,
            Self::Pfc6RxPauseDurationUs => 0x00000093,
            Self::Pfc6TxPauseDurationUs => 0x00000094,
            Self::Pfc7RxPauseDurationUs => 0x00000095,
            Self::Pfc7TxPauseDurationUs => 0x00000096,
            Self::Pfc0On2OffRxPkts => 0x00000097,
            Self::Pfc1On2OffRxPkts => 0x00000098,
            Self::Pfc2On2OffRxPkts => 0x00000099,
            Self::Pfc3On2OffRxPkts => 0x0000009a,
            Self::Pfc4On2OffRxPkts => 0x0000009b,
            Self::Pfc5On2OffRxPkts => 0x0000009c,
            Self::Pfc6On2OffRxPkts => 0x0000009d,
            Self::Pfc7On2OffRxPkts => 0x0000009e,
            Self::Dot3StatsAlignmentErrors => 0x0000009f,
            Self::Dot3StatsFcsErrors => 0x000000a0,
            Self::Dot3StatsSingleCollisionFrames => 0x000000a1,
            Self::Dot3StatsMultipleCollisionFrames => 0x000000a2,
            Self::Dot3StatsSqeTestErrors => 0x000000a3,
            Self::Dot3StatsDeferredTransmissions => 0x000000a4,
            Self::Dot3StatsLateCollisions => 0x000000a5,
            Self::Dot3StatsExcessiveCollisions => 0x000000a6,
            Self::Dot3StatsInternalMacTransmitErrors => 0x000000a7,
            Self::Dot3StatsCarrierSenseErrors => 0x000000a8,
            Self::Dot3StatsFrameTooLongs => 0x000000a9,
            Self::Dot3StatsInternalMacReceiveErrors => 0x000000aa,
            Self::Dot3StatsSymbolErrors => 0x000000ab,
            Self::Dot3ControlInUnknownOpcodes => 0x000000ac,
            Self::EeeTxEventCount => 0x000000ad,
            Self::EeeRxEventCount => 0x000000ae,
            Self::EeeTxDuration => 0x000000af,
            Self::EeeRxDuration => 0x000000b0,
            Self::PrbsErrorCount => 0x000000b1,
            Self::IfInFecCorrectableFrames => 0x000000b2,
            Self::IfInFecNotCorrectableFrames => 0x000000b3,
            Self::IfInFecSymbolErrors => 0x000000b4,
            Self::IfInFabricDataUnits => 0x000000b5,
            Self::IfOutFabricDataUnits => 0x000000b6,
            Self::IfInFecCodewordErrorsS0 => 0x000000b7,
            Self::IfInFecCodewordErrorsS1 => 0x000000b8,
            Self::IfInFecCodewordErrorsS2 => 0x000000b9,
            Self::IfInFecCodewordErrorsS3 => 0x000000ba,
            Self::IfInFecCodewordErrorsS4 => 0x000000bb,
            Self::IfInFecCodewordErrorsS5 => 0x000000bc,
            Self::IfInFecCodewordErrorsS6 => 0x000000bd,
            Self::IfInFecCodewordErrorsS7 => 0x000000be,
            Self::IfInFecCodewordErrorsS8 => 0x000000bf,
            Self::IfInFecCodewordErrorsS9 => 0x000000c0,
            Self::IfInFecCodewordErrorsS10 => 0x000000c1,
            Self::IfInFecCodewordErrorsS11 => 0x000000c2,
            Self::IfInFecCodewordErrorsS12 => 0x000000c3,
            Self::IfInFecCodewordErrorsS13 => 0x000000c4,
            Self::IfInFecCodewordErrorsS14 => 0x000000c5,
            Self::IfInFecCodewordErrorsS15 => 0x000000c6,
            Self::IfInFecCodewordErrorsS16 => 0x000000c7,
            Self::IfInFecCorrectedBits => 0x000000c8,
            Self::TrimPackets => 0x000000c9,
            Self::DroppedTrimPackets => 0x000000ca,
            Self::TxTrimPackets => 0x000000cb,
            Self::InConfiguredDropReasons0DroppedPkts => 0x00001000,
            Self::InConfiguredDropReasons1DroppedPkts => 0x00001001,
            Self::InConfiguredDropReasons2DroppedPkts => 0x00001002,
            Self::InConfiguredDropReasons3DroppedPkts => 0x00001003,
            Self::InConfiguredDropReasons4DroppedPkts => 0x00001004,
            Self::InConfiguredDropReasons5DroppedPkts => 0x00001005,
            Self::InConfiguredDropReasons6DroppedPkts => 0x00001006,
            Self::InConfiguredDropReasons7DroppedPkts => 0x00001007,
            Self::InConfiguredDropReasons8DroppedPkts => 0x00001008,
            Self::InConfiguredDropReasons9DroppedPkts => 0x00001009,
            Self::InConfiguredDropReasons10DroppedPkts => 0x0000100a,
            Self::InConfiguredDropReasons11DroppedPkts => 0x0000100b,
            Self::InConfiguredDropReasons12DroppedPkts => 0x0000100c,
            Self::InConfiguredDropReasons13DroppedPkts => 0x0000100d,
            Self::InConfiguredDropReasons14DroppedPkts => 0x0000100e,
            Self::InConfiguredDropReasons15DroppedPkts => 0x0000100f,
            Self::OutConfiguredDropReasons0DroppedPkts => 0x00002000,
            Self::OutConfiguredDropReasons1DroppedPkts => 0x00002001,
            Self::OutConfiguredDropReasons2DroppedPkts => 0x00002002,
            Self::OutConfiguredDropReasons3DroppedPkts => 0x00002003,
            Self::OutConfiguredDropReasons4DroppedPkts => 0x00002004,
            Self::OutConfiguredDropReasons5DroppedPkts => 0x00002005,
            Self::OutConfiguredDropReasons6DroppedPkts => 0x00002006,
            Self::OutConfiguredDropReasons7DroppedPkts => 0x00002007,
            Self::IfInHwProtectionSwitchoverEvents => 0x00002008,
            Self::IfInHwProtectionSwitchoverDropPkts => 0x00002009,
            Self::EtherInPkts1519To2500Octets => 0x0000200a,
            Self::EtherInPkts2501To9000Octets => 0x0000200b,
            Self::EtherInPkts9001To16383Octets => 0x0000200c,
            Self::EtherOutPkts1519To2500Octets => 0x0000200d,
            Self::EtherOutPkts2501To9000Octets => 0x0000200e,
            Self::EtherOutPkts9001To16383Octets => 0x0000200f,
            Self::End => 0x00002010,
        }
    }

    /// Name of the statistic in the C headers.
    pub open spec fn spec_c_name(self) -> Seq<char> {
        match self {
            Self::IfInOctets => "SAI_PORT_STAT_IF_IN_OCTETS"@,
            Self::IfInUcastPkts => "SAI_PORT_STAT_IF_IN_UCAST_PKTS"@,
            Self::IfInNonUcastPkts => "SAI_PORT_STAT_IF_IN_NON_UCAST_PKTS"@,
            Self::IfInDiscards => "SAI_PORT_STAT_IF_IN_DISCARDS"@,
            Self::IfInErrors => "SAI_PORT_STAT_IF_IN_ERRORS"@,
            Self::IfInUnknownProtos => "SAI_PORT_STAT_IF_IN_UNKNOWN_PROTOS"@,
            Self::IfInBroadcastPkts => "SAI_PORT_STAT_IF_IN_BROADCAST_PKTS"@,
            Self::IfInMulticastPkts => "SAI_PORT_STAT_IF_IN_MULTICAST_PKTS"@,
            Self::IfInVlanDiscards => "SAI_PORT_STAT_IF_IN_VLAN_DISCARDS"@,
            Self::IfOutOctets => "SAI_PORT_STAT_IF_OUT_OCTETS"@,
            Self::IfOutUcastPkts => "SAI_PORT_STAT_IF_OUT_UCAST_PKTS"@,
            Self::IfOutNonUcastPkts => "SAI_PORT_STAT_IF_OUT_NON_UCAST_PKTS"@,
            Self::IfOutDiscards => "SAI_PORT_STAT_IF_OUT_DISCARDS"@,
            Self::IfOutErrors => "SAI_PORT_STAT_IF_OUT_ERRORS"@,
            Self::IfOutQlen => "SAI_PORT_STAT_IF_OUT_QLEN"@,
            Self::IfOutBroadcastPkts => "SAI_PORT_STAT_IF_OUT_BROADCAST_PKTS"@,
            Self::IfOutMulticastPkts => "SAI_PORT_STAT_IF_OUT_MULTICAST_PKTS"@,
            Self::EtherStatsDropEvents => "SAI_PORT_STAT_ETHER_STATS_DROP_EVENTS"@,
            Self::EtherStatsMulticastPkts => "SAI_PORT_STAT_ETHER_STATS_MULTICAST_PKTS"@,
            Self::EtherStatsBroadcastPkts => "SAI_PORT_STAT_ETHER_STATS_BROADCAST_PKTS"@,
            Self::EtherStatsUndersizePkts => "SAI_PORT_STAT_ETHER_STATS_UNDERSIZE_PKTS"@,
            Self::EtherStatsFragments => "SAI_PORT_STAT_ETHER_STATS_FRAGMENTS"@,
            Self::EtherStatsPkts64Octets => "SAI_PORT_STAT_ETHER_STATS_PKTS_64_OCTETS"@,
            Self::EtherStatsPkts65To127Octets => "SAI_PORT_STAT_ETHER_STATS_PKTS_65_TO_127_OCTETS"@,
            Self::EtherStatsPkts128To255Octets => "SAI_PORT_STAT_ETHER_STATS_PKTS_128_TO_255_OCTETS"@,
            Self::EtherStatsPkts256To511Octets => "SAI_PORT_STAT_ETHER_STATS_PKTS_256_TO_511_OCTETS"@,
            Self::EtherStatsPkts512To1023Octets => "SAI_PORT_STAT_ETHER_STATS_PKTS_512_TO_1023_OCTETS"@,
            Self::EtherStatsPkts1024To1518Octets => "SAI_PORT_STAT_ETHER_STATS_PKTS_1024_TO_1518_OCTETS"@,
            Self::EtherStatsPkts1519To2047Octets => "SAI_PORT_STAT_ETHER_STATS_PKTS_1519_TO_2047_OCTETS"@,
            Self::EtherStatsPkts2048To4095Octets => "SAI_PORT_STAT_ETHER_STATS_PKTS_2048_TO_4095_OCTETS"@,
            Self::EtherStatsPkts4096To9216Octets => "SAI_PORT_STAT_ETHER_STATS_PKTS_4096_TO_9216_OCTETS"@,
            Self::EtherStatsPkts9217To16383Octets => "SAI_PORT_STAT_ETHER_STATS_PKTS_9217_TO_16383_OCTETS"@,
            Self::EtherStatsOversizePkts => "SAI_PORT_STAT_ETHER_STATS_OVERSIZE_PKTS"@,
            Self::EtherRxOversizePkts => "SAI_PORT_STAT_ETHER_RX_OVERSIZE_PKTS"@,
            Self::EtherTxOversizePkts => "SAI_PORT_STAT_ETHER_TX_OVERSIZE_PKTS"@,
            Self::EtherStatsJabbers => "SAI_PORT_STAT_ETHER_STATS_JABBERS"@,
            Self::EtherStatsOctets => "SAI_PORT_STAT_ETHER_STATS_OCTETS"@,
            Self::EtherStatsPkts => "SAI_PORT_STAT_ETHER_STATS_PKTS"@,
            Self::EtherStatsCollisions => "SAI_PORT_STAT_ETHER_STATS_COLLISIONS"@,
            Self::EtherStatsCrcAlignErrors => "SAI_PORT_STAT_ETHER_STATS_CRC_ALIGN_ERRORS"@,
            Self::EtherStatsTxNoErrors => "SAI_PORT_STAT_ETHER_STATS_TX_NO_ERRORS"@,
            Self::EtherStatsRxNoErrors => "SAI_PORT_STAT_ETHER_STATS_RX_NO_ERRORS"@,
            Self::IpInReceives => "SAI_PORT_STAT_IP_IN_RECEIVES"@,
            Self::IpInOctets => "SAI_PORT_STAT_IP_IN_OCTETS"@,
            Self::IpInUcastPkts => "SAI_PORT_STAT_IP_IN_UCAST_PKTS"@,
            Self::IpInNonUcastPkts => "SAI_PORT_STAT_IP_IN_NON_UCAST_PKTS"@,
            Self::IpInDiscards => "SAI_PORT_STAT_IP_IN_DISCARDS"@,
            Self::IpOutOctets => "SAI_PORT_STAT_IP_OUT_OCTETS"@,
            Self::IpOutUcastPkts => "SAI_PORT_STAT_IP_OUT_UCAST_PKTS"@,
            Self::IpOutNonUcastPkts => "SAI_PORT_STAT_IP_OUT_NON_UCAST_PKTS"@,
            Self::IpOutDiscards => "SAI_PORT_STAT_IP_OUT_DISCARDS"@,
            Self::Ipv6InReceives => "SAI_PORT_STAT_IPV6_IN_RECEIVES"@,
            Self::Ipv6InOctets => "SAI_PORT_STAT_IPV6_IN_OCTETS"@,
            Self::Ipv6InUcastPkts => "SAI_PORT_STAT_IPV6_IN_UCAST_PKTS"@,
            Self::Ipv6InNonUcastPkts => "SAI_PORT_STAT_IPV6_IN_NON_UCAST_PKTS"@,
            Self::Ipv6InMcastPkts => "SAI_PORT_STAT_IPV6_IN_MCAST_PKTS"@,
            Self::Ipv6InDiscards => "SAI_PORT_STAT_IPV6_IN_DISCARDS"@,
            Self::Ipv6OutOctets => "SAI_PORT_STAT_IPV6_OUT_OCTETS"@,
            Self::Ipv6OutUcastPkts => "SAI_PORT_STAT_IPV6_OUT_UCAST_PKTS"@,
            Self::Ipv6OutNonUcastPkts => "SAI_PORT_STAT_IPV6_OUT_NON_UCAST_PKTS"@,
            Self::Ipv6OutMcastPkts => "SAI_PORT_STAT_IPV6_OUT_MCAST_PKTS"@,
            Self::Ipv6OutDiscards => "SAI_PORT_STAT_IPV6_OUT_DISCARDS"@,
            Self::GreenWredDroppedPackets => "SAI_PORT_STAT_GREEN_WRED_DROPPED_PACKETS"@,
            Self::GreenWredDroppedBytes => "SAI_PORT_STAT_GREEN_WRED_DROPPED_BYTES"@,
            Self::YellowWredDroppedPackets => "SAI_PORT_STAT_YELLOW_WRED_DROPPED_PACKETS"@,
            Self::YellowWredDroppedBytes => "SAI_PORT_STAT_YELLOW_WRED_DROPPED_BYTES"@,
            Self::RedWredDroppedPackets => "SAI_PORT_STAT_RED_WRED_DROPPED_PACKETS"@,
            Self::RedWredDroppedBytes => "SAI_PORT_STAT_RED_WRED_DROPPED_BYTES"@,
            Self::WredDroppedPackets => "SAI_PORT_STAT_WRED_DROPPED_PACKETS"@,
            Self::WredDroppedBytes => "SAI_PORT_STAT_WRED_DROPPED_BYTES"@,
            Self::EcnMarkedPackets => "SAI_PORT_STAT_ECN_MARKED_PACKETS"@,
            Self::EtherInPkts64Octets => "SAI_PORT_STAT_ETHER_IN_PKTS_64_OCTETS"@,
            Self::EtherInPkts65To127Octets => "SAI_PORT_STAT_ETHER_IN_PKTS_65_TO_127_OCTETS"@,
            Self::EtherInPkts128To255Octets => "SAI_PORT_STAT_ETHER_IN_PKTS_128_TO_255_OCTETS"@,
            Self::EtherInPkts256To511Octets => "SAI_PORT_STAT_ETHER_IN_PKTS_256_TO_511_OCTETS"@,
            Self::EtherInPkts512To1023Octets => "SAI_PORT_STAT_ETHER_IN_PKTS_512_TO_1023_OCTETS"@,
            Self::EtherInPkts1024To1518Octets => "SAI_PORT_STAT_ETHER_IN_PKTS_1024_TO_1518_OCTETS"@,
            Self::EtherInPkts1519To2047Octets => "SAI_PORT_STAT_ETHER_IN_PKTS_1519_TO_2047_OCTETS"@,
            Self::EtherInPkts2048To4095Octets => "SAI_PORT_STAT_ETHER_IN_PKTS_2048_TO_4095_OCTETS"@,
            Self::EtherInPkts4096To9216Octets => "SAI_PORT_STAT_ETHER_IN_PKTS_4096_TO_9216_OCTETS"@,
            Self::EtherInPkts9217To16383Octets => "SAI_PORT_STAT_ETHER_IN_PKTS_9217_TO_16383_OCTETS"@,
            Self::EtherOutPkts64Octets => "SAI_PORT_STAT_ETHER_OUT_PKTS_64_OCTETS"@,
            Self::EtherOutPkts65To127Octets => "SAI_PORT_STAT_ETHER_OUT_PKTS_65_TO_127_OCTETS"@,
            Self::EtherOutPkts128To255Octets => "SAI_PORT_STAT_ETHER_OUT_PKTS_128_TO_255_OCTETS"@,
            Self::EtherOutPkts256To511Octets => "SAI_PORT_STAT_ETHER_OUT_PKTS_256_TO_511_OCTETS"@,
            Self::EtherOutPkts512To1023Octets => "SAI_PORT_STAT_ETHER_OUT_PKTS_512_TO_1023_OCTETS"@,
            Self::EtherOutPkts1024To1518Octets => "SAI_PORT_STAT_ETHER_OUT_PKTS_1024_TO_1518_OCTETS"@,
            Self::EtherOutPkts1519To2047Octets => "SAI_PORT_STAT_ETHER_OUT_PKTS_1519_TO_2047_OCTETS"@,
            Self::EtherOutPkts2048To4095Octets => "SAI_PORT_STAT_ETHER_OUT_PKTS_2048_TO_4095_OCTETS"@,
            Self::EtherOutPkts4096To9216Octets => "SAI_PORT_STAT_ETHER_OUT_PKTS_4096_TO_9216_OCTETS"@,
            Self::EtherOutPkts9217To16383Octets => "SAI_PORT_STAT_ETHER_OUT_PKTS_9217_TO_16383_OCTETS"@,
            Self::InCurrOccupancyBytes => "SAI_PORT_STAT_IN_CURR_OCCUPANCY_BYTES"@,
            Self::InWatermarkBytes => "SAI_PORT_STAT_IN_WATERMARK_BYTES"@,
            Self::InSharedCurrOccupancyBytes => "SAI_PORT_STAT_IN_SHARED_CURR_OCCUPANCY_BYTES"@,
            Self::InSharedWatermarkBytes => "SAI_PORT_STAT_IN_SHARED_WATERMARK_BYTES"@,
            Self::OutCurrOccupancyBytes => "SAI_PORT_STAT_OUT_CURR_OCCUPANCY_BYTES"@,
            Self::OutWatermarkBytes => "SAI_PORT_STAT_OUT_WATERMARK_BYTES"@,
            Self::OutSharedCurrOccupancyBytes => "SAI_PORT_STAT_OUT_SHARED_CURR_OCCUPANCY_BYTES"@,
            Self::OutSharedWatermarkBytes => "SAI_PORT_STAT_OUT_SHARED_WATERMARK_BYTES"@,
            Self::InDroppedPkts => "SAI_PORT_STAT_IN_DROPPED_PKTS"@,
            Self::OutDroppedPkts => "SAI_PORT_STAT_OUT_DROPPED_PKTS"@,
            Self::PauseRxPkts => "SAI_PORT_STAT_PAUSE_RX_PKTS"@,
            Self::PauseTxPkts => "SAI_PORT_STAT_PAUSE_TX_PKTS"@,
            Self::Pfc0RxPkts => "SAI_PORT_STAT_PFC_0_RX_PKTS"@,
            Self::Pfc0TxPkts => "SAI_PORT_STAT_PFC_0_TX_PKTS"@,
            Self::Pfc1RxPkts => "SAI_PORT_STAT_PFC_1_RX_PKTS"@,
            Self::Pfc1TxPkts => "SAI_PORT_STAT_PFC_1_TX_PKTS"@,
            Self::Pfc2RxPkts => "SAI_PORT_STAT_PFC_2_RX_PKTS"@,
            Self::Pfc2TxPkts => "SAI_PORT_STAT_PFC_2_TX_PKTS"@,
            Self::Pfc3RxPkts => "SAI_PORT_STAT_PFC_3_RX_PKTS"@,
            Self::Pfc3TxPkts => "SAI_PORT_STAT_PFC_3_TX_PKTS"@,
            Self::Pfc4RxPkts => "SAI_PORT_STAT_PFC_4_RX_PKTS"@,
            Self::Pfc4TxPkts => "SAI_PORT_STAT_PFC_4_TX_PKTS"@,
            Self::Pfc5RxPkts => "SAI_PORT_STAT_PFC_5_RX_PKTS"@,
            Self::Pfc5TxPkts => "SAI_PORT_STAT_PFC_5_TX_PKTS"@,
            Self::Pfc6RxPkts => "SAI_PORT_STAT_PFC_6_RX_PKTS"@,
            Self::Pfc6TxPkts => "SAI_PORT_STAT_PFC_6_TX_PKTS"@,
            Self::Pfc7RxPkts => "SAI_PORT_STAT_PFC_7_RX_PKTS"@,
            Self::Pfc7TxPkts => "SAI_PORT_STAT_PFC_7_TX_PKTS"@,
            Self::Pfc0RxPauseDuration => "SAI_PORT_STAT_PFC_0_RX_PAUSE_DURATION"@,
            Self::Pfc0TxPauseDuration => "SAI_PORT_STAT_PFC_0_TX_PAUSE_DURATION"@,
            Self::Pfc1RxPauseDuration => "SAI_PORT_STAT_PFC_1_RX_PAUSE_DURATION"@,
            Self::Pfc1TxPauseDuration => "SAI_PORT_STAT_PFC_1_TX_PAUSE_DURATION"@,
            Self::Pfc2RxPauseDuration => "SAI_PORT_STAT_PFC_2_RX_PAUSE_DURATION"@,
            Self::Pfc2TxPauseDuration => "SAI_PORT_STAT_PFC_2_TX_PAUSE_DURATION"@,
            Self::Pfc3RxPauseDuration => "SAI_PORT_STAT_PFC_3_RX_PAUSE_DURATION"@,
            Self::Pfc3TxPauseDuration => "SAI_PORT_STAT_PFC_3_TX_PAUSE_DURATION"@,
            Self::Pfc4RxPauseDuration => "SAI_PORT_STAT_PFC_4_RX_PAUSE_DURATION"@,
            Self::Pfc4TxPauseDuration => "SAI_PORT_STAT_PFC_4_TX_PAUSE_DURATION"@,
            Self::Pfc5RxPauseDuration => "SAI_PORT_STAT_PFC_5_RX_PAUSE_DURATION"@,
            Self::Pfc5TxPauseDuration => "SAI_PORT_STAT_PFC_5_TX_PAUSE_DURATION"@,
            Self::Pfc6RxPauseDuration => "SAI_PORT_STAT_PFC_6_RX_PAUSE_DURATION"@,
            Self::Pfc6TxPauseDuration => "SAI_PORT_STAT_PFC_6_TX_PAUSE_DURATION"@,
            Self::Pfc7RxPauseDuration => "SAI_PORT_STAT_PFC_7_RX_PAUSE_DURATION"@,
            Self::Pfc7TxPauseDuration => "SAI_PORT_STAT_PFC_7_TX_PAUSE_DURATION"@,
            Self::Pfc0RxPauseDurationUs => "SAI_PORT_STAT_PFC_0_RX_PAUSE_DURATION_US"@,
            Self::Pfc0TxPauseDurationUs => "SAI_PORT_STAT_PFC_0_TX_PAUSE_DURATION_US"@,
            Self::Pfc1RxPauseDurationUs => "SAI_PORT_STAT_PFC_1_RX_PAUSE_DURATION_US"@,
            Self::Pfc1TxPauseDurationUs => "SAI_PORT_STAT_PFC_1_TX_PAUSE_DURATION_US"@,
            Self::Pfc2RxPauseDurationUs => "SAI_PORT_STAT_PFC_2_RX_PAUSE_DURATION_US"@,
            Self::Pfc2TxPauseDurationUs => "SAI_PORT_STAT_PFC_2_TX_PAUSE_DURATION_US"@,
            Self::Pfc3RxPauseDurationUs => "SAI_PORT_STAT_PFC_3_RX_PAUSE_DURATION_US"@,
            Self::Pfc3TxPauseDurationUs => "SAI_PORT_STAT_PFC_3_TX_PAUSE_DURATION_US"@,
            Self::Pfc4RxPauseDurationUs => "SAI_PORT_STAT_PFC_4_RX_PAUSE_DURATION_US"@,
            Self::Pfc4TxPauseDurationUs => "SAI_PORT_STAT_PFC_4_TX_PAUSE_DURATION_US"@,
            Self::Pfc5RxPauseDurationUs => "SAI_PORT_STAT_PFC_5_RX_PAUSE_DURATION_US"@,
            Self::Pfc5TxPauseDurationUs => "SAI_PORT_STAT_PFC_5_TX_PAUSE_DURATION_US"@,
            Self::Pfc6RxPauseDurationUs => "SAI_PORT_STAT_PFC_6_RX_PAUSE_DURATION_US"@,
            Self::Pfc6TxPauseDurationUs => "SAI_PORT_STAT_PFC_6_TX_PAUSE_DURATION_US"@,
            Self::Pfc7RxPauseDurationUs => "SAI_PORT_STAT_PFC_7_RX_PAUSE_DURATION_US"@,
            Self::Pfc7TxPauseDurationUs => "SAI_PORT_STAT_PFC_7_TX_PAUSE_DURATION_US"@,
            Self::Pfc0On2OffRxPkts => "SAI_PORT_STAT_PFC_0_ON2OFF_RX_PKTS"@,
            Self::Pfc1On2OffRxPkts => "SAI_PORT_STAT_PFC_1_ON2OFF_RX_PKTS"@,
            Self::Pfc2On2OffRxPkts => "SAI_PORT_STAT_PFC_2_ON2OFF_RX_PKTS"@,
            Self::Pfc3On2OffRxPkts => "SAI_PORT_STAT_PFC_3_ON2OFF_RX_PKTS"@,
            Self::Pfc4On2OffRxPkts => "SAI_PORT_STAT_PFC_4_ON2OFF_RX_PKTS"@,
            Self::Pfc5On2OffRxPkts => "SAI_PORT_STAT_PFC_5_ON2OFF_RX_PKTS"@,
            Self::Pfc6On2OffRxPkts => "SAI_PORT_STAT_PFC_6_ON2OFF_RX_PKTS"@,
            Self::Pfc7On2OffRxPkts => "SAI_PORT_STAT_PFC_7_ON2OFF_RX_PKTS"@,
            Self::Dot3StatsAlignmentErrors => "SAI_PORT_STAT_DOT3_STATS_ALIGNMENT_ERRORS"@,
            Self::Dot3StatsFcsErrors => "SAI_PORT_STAT_DOT3_STATS_FCS_ERRORS"@,
            Self::Dot3StatsSingleCollisionFrames => "SAI_PORT_STAT_DOT3_STATS_SINGLE_COLLISION_FRAMES"@,
            Self::Dot3StatsMultipleCollisionFrames => "SAI_PORT_STAT_DOT3_STATS_MULTIPLE_COLLISION_FRAMES"@,
            Self::Dot3StatsSqeTestErrors => "SAI_PORT_STAT_DOT3_STATS_SQE_TEST_ERRORS"@,
            Self::Dot3StatsDeferredTransmissions => "SAI_PORT_STAT_DOT3_STATS_DEFERRED_TRANSMISSIONS"@,
            Self::Dot3StatsLateCollisions => "SAI_PORT_STAT_DOT3_STATS_LATE_COLLISIONS"@,
            Self::Dot3StatsExcessiveCollisions => "SAI_PORT_STAT_DOT3_STATS_EXCESSIVE_COLLISIONS"@,
            Self::Dot3StatsInternalMacTransmitErrors => "SAI_PORT_STAT_DOT3_STATS_INTERNAL_MAC_TRANSMIT_ERRORS"@,
            Self::Dot3StatsCarrierSenseErrors => "SAI_PORT_STAT_DOT3_STATS_CARRIER_SENSE_ERRORS"@,
            Self::Dot3StatsFrameTooLongs => "SAI_PORT_STAT_DOT3_STATS_FRAME_TOO_LONGS"@,
            Self::Dot3StatsInternalMacReceiveErrors => "SAI_PORT_STAT_DOT3_STATS_INTERNAL_MAC_RECEIVE_ERRORS"@,
            Self::Dot3StatsSymbolErrors => "SAI_PORT_STAT_DOT3_STATS_SYMBOL_ERRORS"@,
            Self::Dot3ControlInUnknownOpcodes => "SAI_PORT_STAT_DOT3_CONTROL_IN_UNKNOWN_OPCODES"@,
            Self::EeeTxEventCount => "SAI_PORT_STAT_EEE_TX_EVENT_COUNT"@,
            Self::EeeRxEventCount => "SAI_PORT_STAT_EEE_RX_EVENT_COUNT"@,
            Self::EeeTxDuration => "SAI_PORT_STAT_EEE_TX_DURATION"@,
            Self::EeeRxDuration => "SAI_PORT_STAT_EEE_RX_DURATION"@,
            Self::PrbsErrorCount => "SAI_PORT_STAT_PRBS_ERROR_COUNT"@,
            Self::IfInFecCorrectableFrames => "SAI_PORT_STAT_IF_IN_FEC_CORRECTABLE_FRAMES"@,
            Self::IfInFecNotCorrectableFrames => "SAI_PORT_STAT_IF_IN_FEC_NOT_CORRECTABLE_FRAMES"@,
            Self::IfInFecSymbolErrors => "SAI_PORT_STAT_IF_IN_FEC_SYMBOL_ERRORS"@,
            Self::IfInFabricDataUnits => "SAI_PORT_STAT_IF_IN_FABRIC_DATA_UNITS"@,
            Self::IfOutFabricDataUnits => "SAI_PORT_STAT_IF_OUT_FABRIC_DATA_UNITS"@,
            Self::IfInFecCodewordErrorsS0 => "SAI_PORT_STAT_IF_IN_FEC_CODEWORD_ERRORS_S0"@,
            Self::IfInFecCodewordErrorsS1 => "SAI_PORT_STAT_IF_IN_FEC_CODEWORD_ERRORS_S1"@,
            Self::IfInFecCodewordErrorsS2 => "SAI_PORT_STAT_IF_IN_FEC_CODEWORD_ERRORS_S2"@,
            Self::IfInFecCodewordErrorsS3 => "SAI_PORT_STAT_IF_IN_FEC_CODEWORD_ERRORS_S3"@,
            Self::IfInFecCodewordErrorsS4 => "SAI_PORT_STAT_IF_IN_FEC_CODEWORD_ERRORS_S4"@,
            Self::IfInFecCodewordErrorsS5 => "SAI_PORT_STAT_IF_IN_FEC_CODEWORD_ERRORS_S5"@,
            Self::IfInFecCodewordErrorsS6 => "SAI_PORT_STAT_IF_IN_FEC_CODEWORD_ERRORS_S6"@,
            Self::IfInFecCodewordErrorsS7 => "SAI_PORT_STAT_IF_IN_FEC_CODEWORD_ERRORS_S7"@,
            Self::IfInFecCodewordErrorsS8 => "SAI_PORT_STAT_IF_IN_FEC_CODEWORD_ERRORS_S8"@,
            Self::IfInFecCodewordErrorsS9 => "SAI_PORT_STAT_IF_IN_FEC_CODEWORD_ERRORS_S9"@,
            Self::IfInFecCodewordErrorsS10 => "SAI_PORT_STAT_IF_IN_FEC_CODEWORD_ERRORS_S10"@,
            Self::IfInFecCodewordErrorsS11 => "SAI_PORT_STAT_IF_IN_FEC_CODEWORD_ERRORS_S11"@,
            Self::IfInFecCodewordErrorsS12 => "SAI_PORT_STAT_IF_IN_FEC_CODEWORD_ERRORS_S12"@,
            Self::IfInFecCodewordErrorsS13 => "SAI_PORT_STAT_IF_IN_FEC_CODEWORD_ERRORS_S13"@,
            Self::IfInFecCodewordErrorsS14 => "SAI_PORT_STAT_IF_IN_FEC_CODEWORD_ERRORS_S14"@,
            Self::IfInFecCodewordErrorsS15 => "SAI_PORT_STAT_IF_IN_FEC_CODEWORD_ERRORS_S15"@,
            Self::IfInFecCodewordErrorsS16 => "SAI_PORT_STAT_IF_IN_FEC_CODEWORD_ERRORS_S16"@,
            Self::IfInFecCorrectedBits => "SAI_PORT_STAT_IF_IN_FEC_CORRECTED_BITS"@,
            Self::TrimPackets => "SAI_PORT_STAT_TRIM_PACKETS"@,
            Self::DroppedTrimPackets => "SAI_PORT_STAT_DROPPED_TRIM_PACKETS"@,
            Self::TxTrimPackets => "SAI_PORT_STAT_TX_TRIM_PACKETS"@,
            Self::InConfiguredDropReasons0DroppedPkts => "SAI_PORT_STAT_IN_CONFIGURED_DROP_REASONS_0_DROPPED_PKTS"@,
            Self::InConfiguredDropReasons1DroppedPkts => "SAI_PORT_STAT_IN_CONFIGURED_DROP_REASONS_1_DROPPED_PKTS"@,
            Self::InConfiguredDropReasons2DroppedPkts => "SAI_PORT_STAT_IN_CONFIGURED_DROP_REASONS_2_DROPPED_PKTS"@,
            Self::InConfiguredDropReasons3DroppedPkts => "SAI_PORT_STAT_IN_CONFIGURED_DROP_REASONS_3_DROPPED_PKTS"@,
            Self::InConfiguredDropReasons4DroppedPkts => "SAI_PORT_STAT_IN_CONFIGURED_DROP_REASONS_4_DROPPED_PKTS"@,
            Self::InConfiguredDropReasons5DroppedPkts => "SAI_PORT_STAT_IN_CONFIGURED_DROP_REASONS_5_DROPPED_PKTS"@,
            Self::InConfiguredDropReasons6DroppedPkts => "SAI_PORT_STAT_IN_CONFIGURED_DROP_REASONS_6_DROPPED_PKTS"@,
            Self::InConfiguredDropReasons7DroppedPkts => "SAI_PORT_STAT_IN_CONFIGURED_DROP_REASONS_7_DROPPED_PKTS"@,
            Self::InConfiguredDropReasons8DroppedPkts => "SAI_PORT_STAT_IN_CONFIGURED_DROP_REASONS_8_DROPPED_PKTS"@,
            Self::InConfiguredDropReasons9DroppedPkts => "SAI_PORT_STAT_IN_CONFIGURED_DROP_REASONS_9_DROPPED_PKTS"@,
            Self::InConfiguredDropReasons10DroppedPkts => "SAI_PORT_STAT_IN_CONFIGURED_DROP_REASONS_10_DROPPED_PKTS"@,
            Self::InConfiguredDropReasons11DroppedPkts => "SAI_PORT_STAT_IN_CONFIGURED_DROP_REASONS_11_DROPPED_PKTS"@,
            Self::InConfiguredDropReasons12DroppedPkts => "SAI_PORT_STAT_IN_CONFIGURED_DROP_REASONS_12_DROPPED_PKTS"@,
            Self::InConfiguredDropReasons13DroppedPkts => "SAI_PORT_STAT_IN_CONFIGURED_DROP_REASONS_13_DROPPED_PKTS"@,
            Self::InConfiguredDropReasons14DroppedPkts => "SAI_PORT_STAT_IN_CONFIGURED_DROP_REASONS_14_DROPPED_PKTS"@,
            Self::InConfiguredDropReasons15DroppedPkts => "SAI_PORT_STAT_IN_CONFIGURED_DROP_REASONS_15_DROPPED_PKTS"@,
            Self::OutConfiguredDropReasons0DroppedPkts => "SAI_PORT_STAT_OUT_CONFIGURED_DROP_REASONS_0_DROPPED_PKTS"@,
            Self::OutConfiguredDropReasons1DroppedPkts => "SAI_PORT_STAT_OUT_CONFIGURED_DROP_REASONS_1_DROPPED_PKTS"@,
            Self::OutConfiguredDropReasons2DroppedPkts => "SAI_PORT_STAT_OUT_CONFIGURED_DROP_REASONS_2_DROPPED_PKTS"@,
            Self::OutConfiguredDropReasons3DroppedPkts => "SAI_PORT_STAT_OUT_CONFIGURED_DROP_REASONS_3_DROPPED_PKTS"@,
            Self::OutConfiguredDropReasons4DroppedPkts => "SAI_PORT_STAT_OUT_CONFIGURED_DROP_REASONS_4_DROPPED_PKTS"@,
            Self::OutConfiguredDropReasons5DroppedPkts => "SAI_PORT_STAT_OUT_CONFIGURED_DROP_REASONS_5_DROPPED_PKTS"@,
            Self::OutConfiguredDropReasons6DroppedPkts => "SAI_PORT_STAT_OUT_CONFIGURED_DROP_REASONS_6_DROPPED_PKTS"@,
            Self::OutConfiguredDropReasons7DroppedPkts => "SAI_PORT_STAT_OUT_CONFIGURED_DROP_REASONS_7_DROPPED_PKTS"@,
            Self::IfInHwProtectionSwitchoverEvents => "SAI_PORT_STAT_IF_IN_HW_PROTECTION_SWITCHOVER_EVENTS"@,
            Self::IfInHwProtectionSwitchoverDropPkts => "SAI_PORT_STAT_IF_IN_HW_PROTECTION_SWITCHOVER_DROP_PKTS"@,
            Self::EtherInPkts1519To2500Octets => "SAI_PORT_STAT_ETHER_IN_PKTS_1519_TO_2500_OCTETS"@,
            Self::EtherInPkts2501To9000Octets => "SAI_PORT_STAT_ETHER_IN_PKTS_2501_TO_9000_OCTETS"@,
            Self::EtherInPkts9001To16383Octets => "SAI_PORT_STAT_ETHER_IN_PKTS_9001_TO_16383_OCTETS"@,
            Self::EtherOutPkts1519To2500Octets => "SAI_PORT_STAT_ETHER_OUT_PKTS_1519_TO_2500_OCTETS"@,
            Self::EtherOutPkts2501To9000Octets => "SAI_PORT_STAT_ETHER_OUT_PKTS_2501_TO_9000_OCTETS"@,
            Self::EtherOutPkts9001To16383Octets => "SAI_PORT_STAT_ETHER_OUT_PKTS_9001_TO_16383_OCTETS"@,
            Self::End => "SAI_PORT_STAT_END"@,
        }
    }

    /// The statistic with numeric identifier `value`, if any.
    #[verifier::rlimit(100)]
    pub fn from_u32(value: u32) -> (r: Option<Self>)
        ensures
            r matches Some(v) ==> v.spec_id() == value,
            r is None ==> forall|v: Self| v.spec_id() != value,
    {
        match value {
            0x00000000 => Some(Self::IfInOctets),
            0x00000001 => Some(Self::IfInUcastPkts),
            0x00000002 => Some(Self::IfInNonUcastPkts),
            0x00000003 => Some(Self::IfInDiscards),
            0x00000004 => Some(Self::IfInErrors),
            0x00000005 => Some(Self::IfInUnknownProtos),
            0x00000006 => Some(Self::IfInBroadcastPkts),
            0x00000007 => Some(Self::IfInMulticastPkts),
            0x00000008 => Some(Self::IfInVlanDiscards),
            0x00000009 => Some(Self::IfOutOctets),
            0x0000000a => Some(Self::IfOutUcastPkts),
            0x0000000b => Some(Self::IfOutNonUcastPkts),
            0x0000000c => Some(Self::IfOutDiscards),
            0x0000000d => Some(Self::IfOutErrors),
            0x0000000e => Some(Self::IfOutQlen),
            0x0000000f => Some(Self::IfOutBroadcastPkts),
            0x00000010 => Some(Self::IfOutMulticastPkts),
            0x00000011 => Some(Self::EtherStatsDropEvents),
            0x00000012 => Some(Self::EtherStatsMulticastPkts),
            0x00000013 => Some(Self::EtherStatsBroadcastPkts),
            0x00000014 => Some(Self::EtherStatsUndersizePkts),
            0x00000015 => Some(Self::EtherStatsFragments),
            0x00000016 => Some(Self::EtherStatsPkts64Octets),
            0x00000017 => Some(Self::EtherStatsPkts65To127Octets),
            0x00000018 => Some(Self::EtherStatsPkts128To255Octets),
            0x00000019 => Some(Self::EtherStatsPkts256To511Octets),
            0x0000001a => Some(Self::EtherStatsPkts512To1023Octets),
            0x0000001b => Some(Self::EtherStatsPkts1024To1518Octets),
            0x0000001c => Some(Self::EtherStatsPkts1519To2047Octets),
            0x0000001d => Some(Self::EtherStatsPkts2048To4095Octets),
            0x0000001e => Some(Self::EtherStatsPkts4096To9216Octets),
            0x0000001f => Some(Self::EtherStatsPkts9217To16383Octets),
            0x00000020 => Some(Self::EtherStatsOversizePkts),
            0x00000021 => Some(Self::EtherRxOversizePkts),
            0x00000022 => Some(Self::EtherTxOversizePkts),
            0x00000023 => Some(Self::EtherStatsJabbers),
            0x00000024 => Some(Self::EtherStatsOctets),
            0x00000025 => Some(Self::EtherStatsPkts),
            0x00000026 => Some(Self::EtherStatsCollisions),
            0x00000027 => Some(Self::EtherStatsCrcAlignErrors),
            0x00000028 => Some(Self::EtherStatsTxNoErrors),
            0x00000029 => Some(Self::EtherStatsRxNoErrors),
            0x0000002a => Some(Self::IpInReceives),
            0x0000002b => Some(Self::IpInOctets),
            0x0000002c => Some(Self::IpInUcastPkts),
            0x0000002d => Some(Self::IpInNonUcastPkts),
            0x0000002e => Some(Self::IpInDiscards),
            0x0000002f => Some(Self::IpOutOctets),
            0x00000030 => Some(Self::IpOutUcastPkts),
            0x00000031 => Some(Self::IpOutNonUcastPkts),
            0x00000032 => Some(Self::IpOutDiscards),
            0x00000033 => Some(Self::Ipv6InReceives),
            0x00000034 => Some(Self::Ipv6InOctets),
            0x00000035 => Some(Self::Ipv6InUcastPkts),
            0x00000036 => Some(Self::Ipv6InNonUcastPkts),
            0x00000037 => Some(Self::Ipv6InMcastPkts),
            0x00000038 => Some(Self::Ipv6InDiscards),
            0x00000039 => Some(Self::Ipv6OutOctets),
            0x0000003a => Some(Self::Ipv6OutUcastPkts),
            0x0000003b => Some(Self::Ipv6OutNonUcastPkts),
            0x0000003c => Some(Self::Ipv6OutMcastPkts),
            0x0000003d => Some(Self::Ipv6OutDiscards),
            0x0000003e => Some(Self::GreenWredDroppedPackets),
            0x0000003f => Some(Self::GreenWredDroppedBytes),
            0x00000040 => Some(Self::YellowWredDroppedPackets),
            0x00000041 => Some(Self::YellowWredDroppedBytes),
            0x00000042 => Some(Self::RedWredDroppedPackets),
            0x00000043 => Some(Self::RedWredDroppedBytes),
            0x00000044 => Some(Self::WredDroppedPackets),
            0x00000045 => Some(Self::WredDroppedBytes),
            0x00000046 => Some(Self::EcnMarkedPackets),
            0x00000047 => Some(Self::EtherInPkts64Octets),
            0x00000048 => Some(Self::EtherInPkts65To127Octets),
            0x00000049 => Some(Self::EtherInPkts128To255Octets),
            0x0000004a => Some(Self::EtherInPkts256To511Octets),
            0x0000004b => Some(Self::EtherInPkts512To1023Octets),
            0x0000004c => Some(Self::EtherInPkts1024To1518Octets),
            0x0000004d => Some(Self::EtherInPkts1519To2047Octets),
            0x0000004e => Some(Self::EtherInPkts2048To4095Octets),
            0x0000004f => Some(Self::EtherInPkts4096To9216Octets),
            0x00000050 => Some(Self::EtherInPkts9217To16383Octets),
            0x00000051 => Some(Self::EtherOutPkts64Octets),
            0x00000052 => Some(Self::EtherOutPkts65To127Octets),
            0x00000053 => Some(Self::EtherOutPkts128To255Octets),
            0x00000054 => Some(Self::EtherOutPkts256To511Octets),
            0x00000055 => Some(Self::EtherOutPkts512To1023Octets),
            0x00000056 => Some(Self::EtherOutPkts1024To1518Octets),
            0x00000057 => Some(Self::EtherOutPkts1519To2047Octets),
            0x00000058 => Some(Self::EtherOutPkts2048To4095Octets),
            0x00000059 => Some(Self::EtherOutPkts4096To9216Octets),
            0x0000005a => Some(Self::EtherOutPkts9217To16383Octets),
            0x0000005b => Some(Self::InCurrOccupancyBytes),
            0x0000005c => Some(Self::InWatermarkBytes),
            0x0000005d => Some(Self::InSharedCurrOccupancyBytes),
            0x0000005e => Some(Self::InSharedWatermarkBytes),
            0x0000005f => Some(Self::OutCurrOccupancyBytes),
            0x00000060 => Some(Self::OutWatermarkBytes),
            0x00000061 => Some(Self::OutSharedCurrOccupancyBytes),
            0x00000062 => Some(Self::OutSharedWatermarkBytes),
            0x00000063 => Some(Self::InDroppedPkts),
            0x00000064 => Some(Self::OutDroppedPkts),
            0x00000065 => Some(Self::PauseRxPkts),
            0x00000066 => Some(Self::PauseTxPkts),
            0x00000067 => Some(Self::Pfc0RxPkts),
            0x00000068 => Some(Self::Pfc0TxPkts),
            0x00000069 => Some(Self::Pfc1RxPkts),
            0x0000006a => Some(Self::Pfc1TxPkts),
            0x0000006b => Some(Self::Pfc2RxPkts),
            0x0000006c => Some(Self::Pfc2TxPkts),
            0x0000006d => Some(Self::Pfc3RxPkts),
            0x0000006e => Some(Self::Pfc3TxPkts),
            0x0000006f => Some(Self::Pfc4RxPkts),
            0x00000070 => Some(Self::Pfc4TxPkts),
            0x00000071 => Some(Self::Pfc5RxPkts),
            0x00000072 => Some(Self::Pfc5TxPkts),
            0x00000073 => Some(Self::Pfc6RxPkts),
            0x00000074 => Some(Self::Pfc6TxPkts),
            0x00000075 => Some(Self::Pfc7RxPkts),
            0x00000076 => Some(Self::Pfc7TxPkts),
            0x00000077 => Some(Self::Pfc0RxPauseDuration),
            0x00000078 => Some(Self::Pfc0TxPauseDuration),
            0x00000079 => Some(Self::Pfc1RxPauseDuration),
            0x0000007a => Some(Self::Pfc1TxPauseDuration),
            0x0000007b => Some(Self::Pfc2RxPauseDuration),
            0x0000007c => Some(Self::Pfc2TxPauseDuration),
            0x0000007d => Some(Self::Pfc3RxPauseDuration),
            0x0000007e => Some(Self::Pfc3TxPauseDuration),
            0x0000007f => Some(Self::Pfc4RxPauseDuration),
            0x00000080 => Some(Self::Pfc4TxPauseDuration),
            0x00000081 => Some(Self::Pfc5RxPauseDuration),
            0x00000082 => Some(Self::Pfc5TxPauseDuration),
            0x00000083 => Some(Self::Pfc6RxPauseDuration),
            0x00000084 => Some(Self::Pfc6TxPauseDuration),
            0x00000085 => Some(Self::Pfc7RxPauseDuration),
            0x00000086 => Some(Self::Pfc7TxPauseDuration),
            0x00000087 => Some(Self::Pfc0RxPauseDurationUs),
            0x00000088 => Some(Self::Pfc0TxPauseDurationUs),
            0x00000089 => Some(Self::Pfc1RxPauseDurationUs),
            0x0000008a => Some(Self::Pfc1TxPauseDurationUs),
            0x0000008b => Some(Self::Pfc2RxPauseDurationUs),
            0x0000008c => Some(Self::Pfc2TxPauseDurationUs),
            0x0000008d => Some(Self::Pfc3RxPauseDurationUs),
            0x0000008e => Some(Self::Pfc3TxPauseDurationUs),
            0x0000008f => Some(Self::Pfc4RxPauseDurationUs),
            0x00000090 => Some(Self::Pfc4TxPauseDurationUs),
            0x00000091 => Some(Self::Pfc5RxPauseDurationUs),
            0x00000092 => Some(Self::Pfc5TxPauseDurationUs),
            0x00000093 => Some(Self::Pfc6RxPauseDurationUs),
            0x00000094 => Some(Self::Pfc6TxPauseDurationUs),
            0x00000095 => Some(Self::Pfc7RxPauseDurationUs),
            0x00000096 => Some(Self::Pfc7TxPauseDurationUs),
            0x00000097 => Some(Self::Pfc0On2OffRxPkts),
            0x00000098 => Some(Self::Pfc1On2OffRxPkts),
            0x00000099 => Some(Self::Pfc2On2OffRxPkts),
            0x0000009a => Some(Self::Pfc3On2OffRxPkts),
            0x0000009b => Some(Self::Pfc4On2OffRxPkts),
            0x0000009c => Some(Self::Pfc5On2OffRxPkts),
            0x0000009d => Some(Self::Pfc6On2OffRxPkts),
            0x0000009e => Some(Self::Pfc7On2OffRxPkts),
            0x0000009f => Some(Self::Dot3StatsAlignmentErrors),
            0x000000a0 => Some(Self::Dot3StatsFcsErrors),
            0x000000a1 => Some(Self::Dot3StatsSingleCollisionFrames),
            0x000000a2 => Some(Self::Dot3StatsMultipleCollisionFrames),
            0x000000a3 => Some(Self::Dot3StatsSqeTestErrors),
            0x000000a4 => Some(Self::Dot3StatsDeferredTransmissions),
            0x000000a5 => Some(Self::Dot3StatsLateCollisions),
            0x000000a6 => Some(Self::Dot3StatsExcessiveCollisions),
            0x000000a7 => Some(Self::Dot3StatsInternalMacTransmitErrors),
            0x000000a8 => Some(Self::Dot3StatsCarrierSenseErrors),
            0x000000a9 => Some(Self::Dot3StatsFrameTooLongs),
            0x000000aa => Some(Self::Dot3StatsInternalMacReceiveErrors),
            0x000000ab => Some(Self::Dot3StatsSymbolErrors),
            0x000000ac => Some(Self::Dot3ControlInUnknownOpcodes),
            0x000000ad => Some(Self::EeeTxEventCount),
            0x000000ae => Some(Self::EeeRxEventCount),
            0x000000af => Some(Self::EeeTxDuration),
            0x000000b0 => Some(Self::EeeRxDuration),
            0x000000b1 => Some(Self::PrbsErrorCount),
            0x000000b2 => Some(Self::IfInFecCorrectableFrames),
            0x000000b3 => Some(Self::IfInFecNotCorrectableFrames),
            0x000000b4 => Some(Self::IfInFecSymbolErrors),
            0x000000b5 => Some(Self::IfInFabricDataUnits),
            0x000000b6 => Some(Self::IfOutFabricDataUnits),
            0x000000b7 => Some(Self::IfInFecCodewordErrorsS0),
            0x000000b8 => Some(Self::IfInFecCodewordErrorsS1),
            0x000000b9 => Some(Self::IfInFecCodewordErrorsS2),
            0x000000ba => Some(Self::IfInFecCodewordErrorsS3),
            0x000000bb => Some(Self::IfInFecCodewordErrorsS4),
            0x000000bc => Some(Self::IfInFecCodewordErrorsS5),
            0x000000bd => Some(Self::IfInFecCodewordErrorsS6),
            0x000000be => Some(Self::IfInFecCodewordErrorsS7),
            0x000000bf => Some(Self::IfInFecCodewordErrorsS8),
            0x000000c0 => Some(Self::IfInFecCodewordErrorsS9),
            0x000000c1 => Some(Self::IfInFecCodewordErrorsS10),
            0x000000c2 => Some(Self::IfInFecCodewordErrorsS11),
            0x000000c3 => Some(Self::IfInFecCodewordErrorsS12),
            0x000000c4 => Some(Self::IfInFecCodewordErrorsS13),
            0x000000c5 => Some(Self::IfInFecCodewordErrorsS14),
            0x000000c6 => Some(Self::IfInFecCodewordErrorsS15),
            0x000000c7 => Some(Self::IfInFecCodewordErrorsS16),
            0x000000c8 => Some(Self::IfInFecCorrectedBits),
            0x000000c9 => Some(Self::TrimPackets),
            0x000000ca => Some(Self::DroppedTrimPackets),
            0x000000cb => Some(Self::TxTrimPackets),
            0x00001000 => Some(Self::InConfiguredDropReasons0DroppedPkts),
            0x00001001 => Some(Self::InConfiguredDropReasons1DroppedPkts),
            0x00001002 => Some(Self::InConfiguredDropReasons2DroppedPkts),
            0x00001003 => Some(Self::InConfiguredDropReasons3DroppedPkts),
            0x00001004 => Some(Self::InConfiguredDropReasons4DroppedPkts),
            0x00001005 => Some(Self::InConfiguredDropReasons5DroppedPkts),
            0x00001006 => Some(Self::InConfiguredDropReasons6DroppedPkts),
            0x00001007 => Some(Self::InConfiguredDropReasons7DroppedPkts),
            0x00001008 => Some(Self::InConfiguredDropReasons8DroppedPkts),
            0x00001009 => Some(Self::InConfiguredDropReasons9DroppedPkts),
            0x0000100a => Some(Self::InConfiguredDropReasons10DroppedPkts),
            0x0000100b => Some(Self::InConfiguredDropReasons11DroppedPkts),
            0x0000100c => Some(Self::InConfiguredDropReasons12DroppedPkts),
            0x0000100d => Some(Self::InConfiguredDropReasons13DroppedPkts),
            0x0000100e => Some(Self::InConfiguredDropReasons14DroppedPkts),
            0x0000100f => Some(Self::InConfiguredDropReasons15DroppedPkts),
            0x00002000 => Some(Self::OutConfiguredDropReasons0DroppedPkts),
            0x00002001 => Some(Self::OutConfiguredDropReasons1DroppedPkts),
            0x00002002 => Some(Self::OutConfiguredDropReasons2DroppedPkts),
            0x00002003 => Some(Self::OutConfiguredDropReasons3DroppedPkts),
            0x00002004 => Some(Self::OutConfiguredDropReasons4DroppedPkts),
            0x00002005 => Some(Self::OutConfiguredDropReasons5DroppedPkts),
            0x00002006 => Some(Self::OutConfiguredDropReasons6DroppedPkts),
            0x00002007 => Some(Self::OutConfiguredDropReasons7DroppedPkts),
            0x00002008 => Some(Self::IfInHwProtectionSwitchoverEvents),
            0x00002009 => Some(Self::IfInHwProtectionSwitchoverDropPkts),
            0x0000200a => Some(Self::EtherInPkts1519To2500Octets),
            0x0000200b => Some(Self::EtherInPkts2501To9000Octets),
            0x0000200c => Some(Self::EtherInPkts9001To16383Octets),
            0x0000200d => Some(Self::EtherOutPkts1519To2500Octets),
            0x0000200e => Some(Self::EtherOutPkts2501To9000Octets),
            0x0000200f => Some(Self::EtherOutPkts9001To16383Octets),
            0x00002010 => Some(Self::End),
            _ => {
                proof {
                    assert(Self::unlisted_id(value));
                    assert forall|v: Self| v.spec_id() != value by {
                        Self::lemma_unlisted_id(v, value);
                    }
                }
                None
            },
        }
    }

    /// Whether `value` is the identifier of no statistic.
    pub open spec fn unlisted_id(value: u32) -> bool {
        &&& value != 0x00000000
        &&& value != 0x00000001
        &&& value != 0x00000002
        &&& value != 0x00000003
        &&& value != 0x00000004
        &&& value != 0x00000005
        &&& value != 0x00000006
        &&& value != 0x00000007
        &&& value != 0x00000008
        &&& value != 0x00000009
        &&& value != 0x0000000a
        &&& value != 0x0000000b
        &&& value != 0x0000000c
        &&& value != 0x0000000d
        &&& value != 0x0000000e
        &&& value != 0x0000000f
        &&& value != 0x00000010
        &&& value != 0x00000011
        &&& value != 0x00000012
        &&& value != 0x00000013
        &&& value != 0x00000014
        &&& value != 0x00000015
        &&& value != 0x00000016
        &&& value != 0x00000017
        &&& value != 0x00000018
        &&& value != 0x00000019
        &&& value != 0x0000001a
        &&& value != 0x0000001b
        &&& value != 0x0000001c
        &&& value != 0x0000001d
        &&& value != 0x0000001e
        &&& value != 0x0000001f
        &&& value != 0x00000020
        &&& value != 0x00000021
        &&& value != 0x00000022
        &&& value != 0x00000023
        &&& value != 0x00000024
        &&& value != 0x00000025
        &&& value != 0x00000026
        &&& value != 0x00000027
        &&& value != 0x00000028
        &&& value != 0x00000029
        &&& value != 0x0000002a
        &&& value != 0x0000002b
        &&& value != 0x0000002c
        &&& value != 0x0000002d
        &&& value != 0x0000002e
        &&& value != 0x0000002f
        &&& value != 0x00000030
        &&& value != 0x00000031
        &&& value != 0x00000032
        &&& value != 0x00000033
        &&& value != 0x00000034
        &&& value != 0x00000035
        &&& value != 0x00000036
        &&& value != 0x00000037
        &&& value != 0x00000038
        &&& value != 0x00000039
        &&& value != 0x0000003a
        &&& value != 0x0000003b
        &&& value != 0x0000003c
        &&& value != 0x0000003d
        &&& value != 0x0000003e
        &&& value != 0x0000003f
        &&& value != 0x00000040
        &&& value != 0x00000041
        &&& value != 0x00000042
        &&& value != 0x00000043
        &&& value != 0x00000044
        &&& value != 0x00000045
        &&& value != 0x00000046
        &&& value != 0x00000047
        &&& value != 0x00000048
        &&& value != 0x00000049
        &&& value != 0x0000004a
        &&& value != 0x0000004b
        &&& value != 0x0000004c
        &&& value != 0x0000004d
        &&& value != 0x0000004e
        &&& value != 0x0000004f
        &&& value != 0x00000050
        &&& value != 0x00000051
        &&& value != 0x00000052
        &&& value != 0x00000053
        &&& value != 0x00000054
        &&& value != 0x00000055
        &&& value != 0x00000056
        &&& value != 0x00000057
        &&& value != 0x00000058
        &&& value != 0x00000059
        &&& value != 0x0000005a
        &&& value != 0x0000005b
        &&& value != 0x0000005c
        &&& value != 0x0000005d
        &&& value != 0x0000005e
        &&& value != 0x0000005f
        &&& value != 0x00000060
        &&& value != 0x00000061
        &&& value != 0x00000062
        &&& value != 0x00000063
        &&& value != 0x00000064
        &&& value != 0x00000065
        &&& value != 0x00000066
        &&& value != 0x00000067
        &&& value != 0x00000068
        &&& value != 0x00000069
        &&& value != 0x0000006a
        &&& value != 0x0000006b
        &&& value != 0x0000006c
        &&& value != 0x0000006d
        &&& value != 0x0000006e
        &&& value != 0x0000006f
        &&& value != 0x00000070
        &&& value != 0x00000071
        &&& value != 0x00000072
        &&& value != 0x00000073
        &&& value != 0x00000074
        &&& value != 0x00000075
        &&& value != 0x00000076
        &&& value != 0x00000077
        &&& value != 0x00000078
        &&& value != 0x00000079
        &&& value != 0x0000007a
        &&& value != 0x0000007b
        &&& value != 0x0000007c
        &&& value != 0x0000007d
        &&& value != 0x0000007e
        &&& value != 0x0000007f
        &&& value != 0x00000080
        &&& value != 0x00000081
        &&& value != 0x00000082
        &&& value != 0x00000083
        &&& value != 0x00000084
        &&& value != 0x00000085
        &&& value != 0x00000086
        &&& value != 0x00000087
        &&& value != 0x00000088
        &&& value != 0x00000089
        &&& value != 0x0000008a
        &&& value != 0x0000008b
        &&& value != 0x0000008c
        &&& value != 0x0000008d
        &&& value != 0x0000008e
        &&& value != 0x0000008f
        &&& value != 0x00000090
        &&& value != 0x00000091
        &&& value != 0x00000092
        &&& value != 0x00000093
        &&& value != 0x00000094
        &&& value != 0x00000095
        &&& value != 0x00000096
        &&& value != 0x00000097
        &&& value != 0x00000098
        &&& value != 0x00000099
        &&& value != 0x0000009a
        &&& value != 0x0000009b
        &&& value != 0x0000009c
        &&& value != 0x0000009d
        &&& value != 0x0000009e
        &&& value != 0x0000009f
        &&& value != 0x000000a0
        &&& value != 0x000000a1
        &&& value != 0x000000a2
        &&& value != 0x000000a3
        &&& value != 0x000000a4
        &&& value != 0x000000a5
        &&& value != 0x000000a6
        &&& value != 0x000000a7
        &&& value != 0x000000a8
        &&& value != 0x000000a9
        &&& value != 0x000000aa
        &&& value != 0x000000ab
        &&& value != 0x000000ac
        &&& value != 0x000000ad
        &&& value != 0x000000ae
        &&& value != 0x000000af
        &&& value != 0x000000b0
        &&& value != 0x000000b1
        &&& value != 0x000000b2
        &&& value != 0x000000b3
        &&& value != 0x000000b4
        &&& value != 0x000000b5
        &&& value != 0x000000b6
        &&& value != 0x000000b7
        &&& value != 0x000000b8
        &&& value != 0x000000b9
        &&& value != 0x000000ba
        &&& value != 0x000000bb
        &&& value != 0x000000bc
        &&& value != 0x000000bd
        &&& value != 0x000000be
        &&& value != 0x000000bf
        &&& value != 0x000000c0
        &&& value != 0x000000c1
        &&& value != 0x000000c2
        &&& value != 0x000000c3
        &&& value != 0x000000c4
        &&& value != 0x000000c5
        &&& value != 0x000000c6
        &&& value != 0x000000c7
        &&& value != 0x000000c8
        &&& value != 0x000000c9
        &&& value != 0x000000ca
        &&& value != 0x000000cb
        &&& value != 0x00001000
        &&& value != 0x00001001
        &&& value != 0x00001002
        &&& value != 0x00001003
        &&& value != 0x00001004
        &&& value != 0x00001005
        &&& value != 0x00001006
        &&& value != 0x00001007
        &&& value != 0x00001008
        &&& value != 0x00001009
        &&& value != 0x0000100a
        &&& value != 0x0000100b
        &&& value != 0x0000100c
        &&& value != 0x0000100d
        &&& value != 0x0000100e
        &&& value != 0x0000100f
        &&& value != 0x00002000
        &&& value != 0x00002001
        &&& value != 0x00002002
        &&& value != 0x00002003
        &&& value != 0x00002004
        &&& value != 0x00002005
        &&& value != 0x00002006
        &&& value != 0x00002007
        &&& value != 0x00002008
        &&& value != 0x00002009
        &&& value != 0x0000200a
        &&& value != 0x0000200b
        &&& value != 0x0000200c
        &&& value != 0x0000200d
        &&& value != 0x0000200e
        &&& value != 0x0000200f
        &&& value != 0x00002010
    }

    proof fn lemma_unlisted_id(v: Self, value: u32)
        requires
            Self::unlisted_id(value),
        ensures
            v.spec_id() != value,
    {
        match v {
            Self::IfInOctets => {},
            Self::IfInUcastPkts => {},
            Self::IfInNonUcastPkts => {},
            Self::IfInDiscards => {},
            Self::IfInErrors => {},
            Self::IfInUnknownProtos => {},
            Self::IfInBroadcastPkts => {},
            Self::IfInMulticastPkts => {},
            Self::IfInVlanDiscards => {},
            Self::IfOutOctets => {},
            Self::IfOutUcastPkts => {},
            Self::IfOutNonUcastPkts => {},
            Self::IfOutDiscards => {},
            Self::IfOutErrors => {},
            Self::IfOutQlen => {},
            Self::IfOutBroadcastPkts => {},
            Self::IfOutMulticastPkts => {},
            Self::EtherStatsDropEvents => {},
            Self::EtherStatsMulticastPkts => {},
            Self::EtherStatsBroadcastPkts => {},
            Self::EtherStatsUndersizePkts => {},
            Self::EtherStatsFragments => {},
            Self::EtherStatsPkts64Octets => {},
            Self::EtherStatsPkts65To127Octets => {},
            Self::EtherStatsPkts128To255Octets => {},
            Self::EtherStatsPkts256To511Octets => {},
            Self::EtherStatsPkts512To1023Octets => {},
            Self::EtherStatsPkts1024To1518Octets => {},
            Self::EtherStatsPkts1519To2047Octets => {},
            Self::EtherStatsPkts2048To4095Octets => {},
            Self::EtherStatsPkts4096To9216Octets => {},
            Self::EtherStatsPkts9217To16383Octets => {},
            Self::EtherStatsOversizePkts => {},
            Self::EtherRxOversizePkts => {},
            Self::EtherTxOversizePkts => {},
            Self::EtherStatsJabbers => {},
            Self::EtherStatsOctets => {},
            Self::EtherStatsPkts => {},
            Self::EtherStatsCollisions => {},
            Self::EtherStatsCrcAlignErrors => {},
            Self::EtherStatsTxNoErrors => {},
            Self::EtherStatsRxNoErrors => {},
            Self::IpInReceives => {},
            Self::IpInOctets => {},
            Self::IpInUcastPkts => {},
            Self::IpInNonUcastPkts => {},
            Self::IpInDiscards => {},
            Self::IpOutOctets => {},
            Self::IpOutUcastPkts => {},
            Self::IpOutNonUcastPkts => {},
            Self::IpOutDiscards => {},
            Self::Ipv6InReceives => {},
            Self::Ipv6InOctets => {},
            Self::Ipv6InUcastPkts => {},
            Self::Ipv6InNonUcastPkts => {},
            Self::Ipv6InMcastPkts => {},
            Self::Ipv6InDiscards => {},
            Self::Ipv6OutOctets => {},
            Self::Ipv6OutUcastPkts => {},
            Self::Ipv6OutNonUcastPkts => {},
            Self::Ipv6OutMcastPkts => {},
            Self::Ipv6OutDiscards => {},
            Self::GreenWredDroppedPackets => {},
            Self::GreenWredDroppedBytes => {},
            Self::YellowWredDroppedPackets => {},
            Self::YellowWredDroppedBytes => {},
            Self::RedWredDroppedPackets => {},
            Self::RedWredDroppedBytes => {},
            Self::WredDroppedPackets => {},
            Self::WredDroppedBytes => {},
            Self::EcnMarkedPackets => {},
            Self::EtherInPkts64Octets => {},
            Self::EtherInPkts65To127Octets => {},
            Self::EtherInPkts128To255Octets => {},
            Self::EtherInPkts256To511Octets => {},
            Self::EtherInPkts512To1023Octets => {},
            Self::EtherInPkts1024To1518Octets => {},
            Self::EtherInPkts1519To2047Octets => {},
            Self::EtherInPkts2048To4095Octets => {},
            Self::EtherInPkts4096To9216Octets => {},
            Self::EtherInPkts9217To16383Octets => {},
            Self::EtherOutPkts64Octets => {},
            Self::EtherOutPkts65To127Octets => {},
            Self::EtherOutPkts128To255Octets => {},
            Self::EtherOutPkts256To511Octets => {},
            Self::EtherOutPkts512To1023Octets => {},
            Self::EtherOutPkts1024To1518Octets => {},
            Self::EtherOutPkts1519To2047Octets => {},
            Self::EtherOutPkts2048To4095Octets => {},
            Self::EtherOutPkts4096To9216Octets => {},
            Self::EtherOutPkts9217To16383Octets => {},
            Self::InCurrOccupancyBytes => {},
            Self::InWatermarkBytes => {},
            Self::InSharedCurrOccupancyBytes => {},
            Self::InSharedWatermarkBytes => {},
            Self::OutCurrOccupancyBytes => {},
            Self::OutWatermarkBytes => {},
            Self::OutSharedCurrOccupancyBytes => {},
            Self::OutSharedWatermarkBytes => {},
            Self::InDroppedPkts => {},
            Self::OutDroppedPkts => {},
            Self::PauseRxPkts => {},
            Self::PauseTxPkts => {},
            Self::Pfc0RxPkts => {},
            Self::Pfc0TxPkts => {},
            Self::Pfc1RxPkts => {},
            Self::Pfc1TxPkts => {},
            Self::Pfc2RxPkts => {},
            Self::Pfc2TxPkts => {},
            Self::Pfc3RxPkts => {},
            Self::Pfc3TxPkts => {},
            Self::Pfc4RxPkts => {},
            Self::Pfc4TxPkts => {},
            Self::Pfc5RxPkts => {},
            Self::Pfc5TxPkts => {},
            Self::Pfc6RxPkts => {},
            Self::Pfc6TxPkts => {},
            Self::Pfc7RxPkts => {},
            Self::Pfc7TxPkts => {},
            Self::Pfc0RxPauseDuration => {},
            Self::Pfc0TxPauseDuration => {},
            Self::Pfc1RxPauseDuration => {},
            Self::Pfc1TxPauseDuration => {},
            Self::Pfc2RxPauseDuration => {},
            Self::Pfc2TxPauseDuration => {},
            Self::Pfc3RxPauseDuration => {},
            Self::Pfc3TxPauseDuration => {},
            Self::Pfc4RxPauseDuration => {},
            Self::Pfc4TxPauseDuration => {},
            Self::Pfc5RxPauseDuration => {},
            Self::Pfc5TxPauseDuration => {},
            Self::Pfc6RxPauseDuration => {},
            Self::Pfc6TxPauseDuration => {},
            Self::Pfc7RxPauseDuration => {},
            Self::Pfc7TxPauseDuration => {},
            Self::Pfc0RxPauseDurationUs => {},
            Self::Pfc0TxPauseDurationUs => {},
            Self::Pfc1RxPauseDurationUs => {},
            Self::Pfc1TxPauseDurationUs => {},
            Self::Pfc2RxPauseDurationUs => {},
            Self::Pfc2TxPauseDurationUs => {},
            Self::Pfc3RxPauseDurationUs => {},
            Self::Pfc3TxPauseDurationUs => {},
            Self::Pfc4RxPauseDurationUs => {},
            Self::Pfc4TxPauseDurationUs => {},
            Self::Pfc5RxPauseDurationUs => {},
            Self::Pfc5TxPauseDurationUs => {},
            Self::Pfc6RxPauseDurationUs => {},
            Self::Pfc6TxPauseDurationUs => {},
            Self::Pfc7RxPauseDurationUs => {},
            Self::Pfc7TxPauseDurationUs => {},
            Self::Pfc0On2OffRxPkts => {},
            Self::Pfc1On2OffRxPkts => {},
            Self::Pfc2On2OffRxPkts => {},
            Self::Pfc3On2OffRxPkts => {},
            Self::Pfc4On2OffRxPkts => {},
            Self::Pfc5On2OffRxPkts => {},
            Self::Pfc6On2OffRxPkts => {},
            Self::Pfc7On2OffRxPkts => {},
            Self::Dot3StatsAlignmentErrors => {},
            Self::Dot3StatsFcsErrors => {},
            Self::Dot3StatsSingleCollisionFrames => {},
            Self::Dot3StatsMultipleCollisionFrames => {},
            Self::Dot3StatsSqeTestErrors => {},
            Self::Dot3StatsDeferredTransmissions => {},
            Self::Dot3StatsLateCollisions => {},
            Self::Dot3StatsExcessiveCollisions => {},
            Self::Dot3StatsInternalMacTransmitErrors => {},
            Self::Dot3StatsCarrierSenseErrors => {},
            Self::Dot3StatsFrameTooLongs => {},
            Self::Dot3StatsInternalMacReceiveErrors => {},
            Self::Dot3StatsSymbolErrors => {},
            Self::Dot3ControlInUnknownOpcodes => {},
            Self::EeeTxEventCount => {},
            Self::EeeRxEventCount => {},
            Self::EeeTxDuration => {},
            Self::EeeRxDuration => {},
            Self::PrbsErrorCount => {},
            Self::IfInFecCorrectableFrames => {},
            Self::IfInFecNotCorrectableFrames => {},
            Self::IfInFecSymbolErrors => {},
            Self::IfInFabricDataUnits => {},
            Self::IfOutFabricDataUnits => {},
            Self::IfInFecCodewordErrorsS0 => {},
            Self::IfInFecCodewordErrorsS1 => {},
            Self::IfInFecCodewordErrorsS2 => {},
            Self::IfInFecCodewordErrorsS3 => {},
            Self::IfInFecCodewordErrorsS4 => {},
            Self::IfInFecCodewordErrorsS5 => {},
            Self::IfInFecCodewordErrorsS6 => {},
            Self::IfInFecCodewordErrorsS7 => {},
            Self::IfInFecCodewordErrorsS8 => {},
            Self::IfInFecCodewordErrorsS9 => {},
            Self::IfInFecCodewordErrorsS10 => {},
            Self::IfInFecCodewordErrorsS11 => {},
            Self::IfInFecCodewordErrorsS12 => {},
            Self::IfInFecCodewordErrorsS13 => {},
            Self::IfInFecCodewordErrorsS14 => {},
            Self::IfInFecCodewordErrorsS15 => {},
            Self::IfInFecCodewordErrorsS16 => {},
            Self::IfInFecCorrectedBits => {},
            Self::TrimPackets => {},
            Self::DroppedTrimPackets => {},
            Self::TxTrimPackets => {},
            Self::InConfiguredDropReasons0DroppedPkts => {},
            Self::InConfiguredDropReasons1DroppedPkts => {},
            Self::InConfiguredDropReasons2DroppedPkts => {},
            Self::InConfiguredDropReasons3DroppedPkts => {},
            Self::InConfiguredDropReasons4DroppedPkts => {},
            Self::InConfiguredDropReasons5DroppedPkts => {},
            Self::InConfiguredDropReasons6DroppedPkts => {},
            Self::InConfiguredDropReasons7DroppedPkts => {},
            Self::InConfiguredDropReasons8DroppedPkts => {},
            Self::InConfiguredDropReasons9DroppedPkts => {},
            Self::InConfiguredDropReasons10DroppedPkts => {},
            Self::InConfiguredDropReasons11DroppedPkts => {},
            Self::InConfiguredDropReasons12DroppedPkts => {},
            Self::InConfiguredDropReasons13DroppedPkts => {},
            Self::InConfiguredDropReasons14DroppedPkts => {},
            Self::InConfiguredDropReasons15DroppedPkts => {},
            Self::OutConfiguredDropReasons0DroppedPkts => {},
            Self::OutConfiguredDropReasons1DroppedPkts => {},
            Self::OutConfiguredDropReasons2DroppedPkts => {},
            Self::OutConfiguredDropReasons3DroppedPkts => {},
            Self::OutConfiguredDropReasons4DroppedPkts => {},
            Self::OutConfiguredDropReasons5DroppedPkts => {},
            Self::OutConfiguredDropReasons6DroppedPkts => {},
            Self::OutConfiguredDropReasons7DroppedPkts => {},
            Self::IfInHwProtectionSwitchoverEvents => {},
            Self::IfInHwProtectionSwitchoverDropPkts => {},
            Self::EtherInPkts1519To2500Octets => {},
            Self::EtherInPkts2501To9000Octets => {},
            Self::EtherInPkts9001To16383Octets => {},
            Self::EtherOutPkts1519To2500Octets => {},
            Self::EtherOutPkts2501To9000Octets => {},
            Self::EtherOutPkts9001To16383Octets => {},
            Self::End => {},
        }
    }

    /// Whether `s` is the C name of no statistic.
    pub open spec fn unlisted_name(s: Seq<char>) -> bool {
        &&& s != "SAI_PORT_STAT_IF_IN_OCTETS"@
        &&& s != "SAI_PORT_STAT_IF_IN_UCAST_PKTS"@
        &&& s != "SAI_PORT_STAT_IF_IN_NON_UCAST_PKTS"@
        &&& s != "SAI_PORT_STAT_IF_IN_DISCARDS"@
        &&& s != "SAI_PORT_STAT_IF_IN_ERRORS"@
        &&& s != "SAI_PORT_STAT_IF_IN_UNKNOWN_PROTOS"@
        &&& s != "SAI_PORT_STAT_IF_IN_BROADCAST_PKTS"@
        &&& s != "SAI_PORT_STAT_IF_IN_MULTICAST_PKTS"@
        &&& s != "SAI_PORT_STAT_IF_IN_VLAN_DISCARDS"@
        &&& s != "SAI_PORT_STAT_IF_OUT_OCTETS"@
        &&& s != "SAI_PORT_STAT_IF_OUT_UCAST_PKTS"@
        &&& s != "SAI_PORT_STAT_IF_OUT_NON_UCAST_PKTS"@
        &&& s != "SAI_PORT_STAT_IF_OUT_DISCARDS"@
        &&& s != "SAI_PORT_STAT_IF_OUT_ERRORS"@
        &&& s != "SAI_PORT_STAT_IF_OUT_QLEN"@
        &&& s != "SAI_PORT_STAT_IF_OUT_BROADCAST_PKTS"@
        &&& s != "SAI_PORT_STAT_IF_OUT_MULTICAST_PKTS"@
        &&& s != "SAI_PORT_STAT_ETHER_STATS_DROP_EVENTS"@
        &&& s != "SAI_PORT_STAT_ETHER_STATS_MULTICAST_PKTS"@
        &&& s != "SAI_PORT_STAT_ETHER_STATS_BROADCAST_PKTS"@
        &&& s != "SAI_PORT_STAT_ETHER_STATS_UNDERSIZE_PKTS"@
        &&& s != "SAI_PORT_STAT_ETHER_STATS_FRAGMENTS"@
        &&& s != "SAI_PORT_STAT_ETHER_STATS_PKTS_64_OCTETS"@
        &&& s != "SAI_PORT_STAT_ETHER_STATS_PKTS_65_TO_127_OCTETS"@
        &&& s != "SAI_PORT_STAT_ETHER_STATS_PKTS_128_TO_255_OCTETS"@
        &&& s != "SAI_PORT_STAT_ETHER_STATS_PKTS_256_TO_511_OCTETS"@
        &&& s != "SAI_PORT_STAT_ETHER_STATS_PKTS_512_TO_1023_OCTETS"@
        &&& s != "SAI_PORT_STAT_ETHER_STATS_PKTS_1024_TO_1518_OCTETS"@
        &&& s != "SAI_PORT_STAT_ETHER_STATS_PKTS_1519_TO_2047_OCTETS"@
        &&& s != "SAI_PORT_STAT_ETHER_STATS_PKTS_2048_TO_4095_OCTETS"@
        &&& s != "SAI_PORT_STAT_ETHER_STATS_PKTS_4096_TO_9216_OCTETS"@
        &&& s != "SAI_PORT_STAT_ETHER_STATS_PKTS_9217_TO_16383_OCTETS"@
        &&& s != "SAI_PORT_STAT_ETHER_STATS_OVERSIZE_PKTS"@
        &&& s != "SAI_PORT_STAT_ETHER_RX_OVERSIZE_PKTS"@
        &&& s != "SAI_PORT_STAT_ETHER_TX_OVERSIZE_PKTS"@
        &&& s != "SAI_PORT_STAT_ETHER_STATS_JABBERS"@
        &&& s != "SAI_PORT_STAT_ETHER_STATS_OCTETS"@
        &&& s != "SAI_PORT_STAT_ETHER_STATS_PKTS"@
        &&& s != "SAI_PORT_STAT_ETHER_STATS_COLLISIONS"@
        &&& s != "SAI_PORT_STAT_ETHER_STATS_CRC_ALIGN_ERRORS"@
        &&& s != "SAI_PORT_STAT_ETHER_STATS_TX_NO_ERRORS"@
        &&& s != "SAI_PORT_STAT_ETHER_STATS_RX_NO_ERRORS"@
        &&& s != "SAI_PORT_STAT_IP_IN_RECEIVES"@
        &&& s != "SAI_PORT_STAT_IP_IN_OCTETS"@
        &&& s != "SAI_PORT_STAT_IP_IN_UCAST_PKTS"@
        &&& s != "SAI_PORT_STAT_IP_IN_NON_UCAST_PKTS"@
        &&& s != "SAI_PORT_STAT_IP_IN_DISCARDS"@
        &&& s != "SAI_PORT_STAT_IP_OUT_OCTETS"@
        &&& s != "SAI_PORT_STAT_IP_OUT_UCAST_PKTS"@
        &&& s != "SAI_PORT_STAT_IP_OUT_NON_UCAST_PKTS"@
        &&& s != "SAI_PORT_STAT_IP_OUT_DISCARDS"@
        &&& s != "SAI_PORT_STAT_IPV6_IN_RECEIVES"@
        &&& s != "SAI_PORT_STAT_IPV6_IN_OCTETS"@
        &&& s != "SAI_PORT_STAT_IPV6_IN_UCAST_PKTS"@
        &&& s != "SAI_PORT_STAT_IPV6_IN_NON_UCAST_PKTS"@
        &&& s != "SAI_PORT_STAT_IPV6_IN_MCAST_PKTS"@
        &&& s != "SAI_PORT_STAT_IPV6_IN_DISCARDS"@
        &&& s != "SAI_PORT_STAT_IPV6_OUT_OCTETS"@
        &&& s != "SAI_PORT_STAT_IPV6_OUT_UCAST_PKTS"@
        &&& s != "SAI_PORT_STAT_IPV6_OUT_NON_UCAST_PKTS"@
        &&& s != "SAI_PORT_STAT_IPV6_OUT_MCAST_PKTS"@
        &&& s != "SAI_PORT_STAT_IPV6_OUT_DISCARDS"@
        &&& s != "SAI_PORT_STAT_GREEN_WRED_DROPPED_PACKETS"@
        &&& s != "SAI_PORT_STAT_GREEN_WRED_DROPPED_BYTES"@
        &&& s != "SAI_PORT_STAT_YELLOW_WRED_DROPPED_PACKETS"@
        &&& s != "SAI_PORT_STAT_YELLOW_WRED_DROPPED_BYTES"@
        &&& s != "SAI_PORT_STAT_RED_WRED_DROPPED_PACKETS"@
        &&& s != "SAI_PORT_STAT_RED_WRED_DROPPED_BYTES"@
        &&& s != "SAI_PORT_STAT_WRED_DROPPED_PACKETS"@
        &&& s != "SAI_PORT_STAT_WRED_DROPPED_BYTES"@
        &&& s != "SAI_PORT_STAT_ECN_MARKED_PACKETS"@
        &&& s != "SAI_PORT_STAT_ETHER_IN_PKTS_64_OCTETS"@
        &&& s != "SAI_PORT_STAT_ETHER_IN_PKTS_65_TO_127_OCTETS"@
        &&& s != "SAI_PORT_STAT_ETHER_IN_PKTS_128_TO_255_OCTETS"@
        &&& s != "SAI_PORT_STAT_ETHER_IN_PKTS_256_TO_511_OCTETS"@
        &&& s != "SAI_PORT_STAT_ETHER_IN_PKTS_512_TO_1023_OCTETS"@
        &&& s != "SAI_PORT_STAT_ETHER_IN_PKTS_1024_TO_1518_OCTETS"@
        &&& s != "SAI_PORT_STAT_ETHER_IN_PKTS_1519_TO_2047_OCTETS"@
        &&& s != "SAI_PORT_STAT_ETHER_IN_PKTS_2048_TO_4095_OCTETS"@
        &&& s != "SAI_PORT_STAT_ETHER_IN_PKTS_4096_TO_9216_OCTETS"@
        &&& s != "SAI_PORT_STAT_ETHER_IN_PKTS_9217_TO_16383_OCTETS"@
        &&& s != "SAI_PORT_STAT_ETHER_OUT_PKTS_64_OCTETS"@
        &&& s != "SAI_PORT_STAT_ETHER_OUT_PKTS_65_TO_127_OCTETS"@
        &&& s != "SAI_PORT_STAT_ETHER_OUT_PKTS_128_TO_255_OCTETS"@
        &&& s != "SAI_PORT_STAT_ETHER_OUT_PKTS_256_TO_511_OCTETS"@
        &&& s != "SAI_PORT_STAT_ETHER_OUT_PKTS_512_TO_1023_OCTETS"@
        &&& s != "SAI_PORT_STAT_ETHER_OUT_PKTS_1024_TO_1518_OCTETS"@
        &&& s != "SAI_PORT_STAT_ETHER_OUT_PKTS_1519_TO_2047_OCTETS"@
        &&& s != "SAI_PORT_STAT_ETHER_OUT_PKTS_2048_TO_4095_OCTETS"@
        &&& s != "SAI_PORT_STAT_ETHER_OUT_PKTS_4096_TO_9216_OCTETS"@
        &&& s != "SAI_PORT_STAT_ETHER_OUT_PKTS_9217_TO_16383_OCTETS"@
        &&& s != "SAI_PORT_STAT_IN_CURR_OCCUPANCY_BYTES"@
        &&& s != "SAI_PORT_STAT_IN_WATERMARK_BYTES"@
        &&& s != "SAI_PORT_STAT_IN_SHARED_CURR_OCCUPANCY_BYTES"@
        &&& s != "SAI_PORT_STAT_IN_SHARED_WATERMARK_BYTES"@
        &&& s != "SAI_PORT_STAT_OUT_CURR_OCCUPANCY_BYTES"@
        &&& s != "SAI_PORT_STAT_OUT_WATERMARK_BYTES"@
        &&& s != "SAI_PORT_STAT_OUT_SHARED_CURR_OCCUPANCY_BYTES"@
        &&& s != "SAI_PORT_STAT_OUT_SHARED_WATERMARK_BYTES"@
        &&& s != "SAI_PORT_STAT_IN_DROPPED_PKTS"@
        &&& s != "SAI_PORT_STAT_OUT_DROPPED_PKTS"@
        &&& s != "SAI_PORT_STAT_PAUSE_RX_PKTS"@
        &&& s != "SAI_PORT_STAT_PAUSE_TX_PKTS"@
        &&& s != "SAI_PORT_STAT_PFC_0_RX_PKTS"@
        &&& s != "SAI_PORT_STAT_PFC_0_TX_PKTS"@
        &&& s != "SAI_PORT_STAT_PFC_1_RX_PKTS"@
        &&& s != "SAI_PORT_STAT_PFC_1_TX_PKTS"@
        &&& s != "SAI_PORT_STAT_PFC_2_RX_PKTS"@
        &&& s != "SAI_PORT_STAT_PFC_2_TX_PKTS"@
        &&& s != "SAI_PORT_STAT_PFC_3_RX_PKTS"@
        &&& s != "SAI_PORT_STAT_PFC_3_TX_PKTS"@
        &&& s != "SAI_PORT_STAT_PFC_4_RX_PKTS"@
        &&& s != "SAI_PORT_STAT_PFC_4_TX_PKTS"@
        &&& s != "SAI_PORT_STAT_PFC_5_RX_PKTS"@
        &&& s != "SAI_PORT_STAT_PFC_5_TX_PKTS"@
        &&& s != "SAI_PORT_STAT_PFC_6_RX_PKTS"@
        &&& s != "SAI_PORT_STAT_PFC_6_TX_PKTS"@
        &&& s != "SAI_PORT_STAT_PFC_7_RX_PKTS"@
        &&& s != "SAI_PORT_STAT_PFC_7_TX_PKTS"@
        &&& s != "SAI_PORT_STAT_PFC_0_RX_PAUSE_DURATION"@
        &&& s != "SAI_PORT_STAT_PFC_0_TX_PAUSE_DURATION"@
        &&& s != "SAI_PORT_STAT_PFC_1_RX_PAUSE_DURATION"@
        &&& s != "SAI_PORT_STAT_PFC_1_TX_PAUSE_DURATION"@
        &&& s != "SAI_PORT_STAT_PFC_2_RX_PAUSE_DURATION"@
        &&& s != "SAI_PORT_STAT_PFC_2_TX_PAUSE_DURATION"@
        &&& s != "SAI_PORT_STAT_PFC_3_RX_PAUSE_DURATION"@
        &&& s != "SAI_PORT_STAT_PFC_3_TX_PAUSE_DURATION"@
        &&& s != "SAI_PORT_STAT_PFC_4_RX_PAUSE_DURATION"@
        &&& s != "SAI_PORT_STAT_PFC_4_TX_PAUSE_DURATION"@
        &&& s != "SAI_PORT_STAT_PFC_5_RX_PAUSE_DURATION"@
        &&& s != "SAI_PORT_STAT_PFC_5_TX_PAUSE_DURATION"@
        &&& s != "SAI_PORT_STAT_PFC_6_RX_PAUSE_DURATION"@
        &&& s != "SAI_PORT_STAT_PFC_6_TX_PAUSE_DURATION"@
        &&& s != "SAI_PORT_STAT_PFC_7_RX_PAUSE_DURATION"@
        &&& s != "SAI_PORT_STAT_PFC_7_TX_PAUSE_DURATION"@
        &&& s != "SAI_PORT_STAT_PFC_0_RX_PAUSE_DURATION_US"@
        &&& s != "SAI_PORT_STAT_PFC_0_TX_PAUSE_DURATION_US"@
        &&& s != "SAI_PORT_STAT_PFC_1_RX_PAUSE_DURATION_US"@
        &&& s != "SAI_PORT_STAT_PFC_1_TX_PAUSE_DURATION_US"@
        &&& s != "SAI_PORT_STAT_PFC_2_RX_PAUSE_DURATION_US"@
        &&& s != "SAI_PORT_STAT_PFC_2_TX_PAUSE_DURATION_US"@
        &&& s != "SAI_PORT_STAT_PFC_3_RX_PAUSE_DURATION_US"@
        &&& s != "SAI_PORT_STAT_PFC_3_TX_PAUSE_DURATION_US"@
        &&& s != "SAI_PORT_STAT_PFC_4_RX_PAUSE_DURATION_US"@
        &&& s != "SAI_PORT_STAT_PFC_4_TX_PAUSE_DURATION_US"@
        &&& s != "SAI_PORT_STAT_PFC_5_RX_PAUSE_DURATION_US"@
        &&& s != "SAI_PORT_STAT_PFC_5_TX_PAUSE_DURATION_US"@
        &&& s != "SAI_PORT_STAT_PFC_6_RX_PAUSE_DURATION_US"@
        &&& s != "SAI_PORT_STAT_PFC_6_TX_PAUSE_DURATION_US"@
        &&& s != "SAI_PORT_STAT_PFC_7_RX_PAUSE_DURATION_US"@
        &&& s != "SAI_PORT_STAT_PFC_7_TX_PAUSE_DURATION_US"@
        &&& s != "SAI_PORT_STAT_PFC_0_ON2OFF_RX_PKTS"@
        &&& s != "SAI_PORT_STAT_PFC_1_ON2OFF_RX_PKTS"@
        &&& s != "SAI_PORT_STAT_PFC_2_ON2OFF_RX_PKTS"@
        &&& s != "SAI_PORT_STAT_PFC_3_ON2OFF_RX_PKTS"@
        &&& s != "SAI_PORT_STAT_PFC_4_ON2OFF_RX_PKTS"@
        &&& s != "SAI_PORT_STAT_PFC_5_ON2OFF_RX_PKTS"@
        &&& s != "SAI_PORT_STAT_PFC_6_ON2OFF_RX_PKTS"@
        &&& s != "SAI_PORT_STAT_PFC_7_ON2OFF_RX_PKTS"@
        &&& s != "SAI_PORT_STAT_DOT3_STATS_ALIGNMENT_ERRORS"@
        &&& s != "SAI_PORT_STAT_DOT3_STATS_FCS_ERRORS"@
        &&& s != "SAI_PORT_STAT_DOT3_STATS_SINGLE_COLLISION_FRAMES"@
        &&& s != "SAI_PORT_STAT_DOT3_STATS_MULTIPLE_COLLISION_FRAMES"@
        &&& s != "SAI_PORT_STAT_DOT3_STATS_SQE_TEST_ERRORS"@
        &&& s != "SAI_PORT_STAT_DOT3_STATS_DEFERRED_TRANSMISSIONS"@
        &&& s != "SAI_PORT_STAT_DOT3_STATS_LATE_COLLISIONS"@
        &&& s != "SAI_PORT_STAT_DOT3_STATS_EXCESSIVE_COLLISIONS"@
        &&& s != "SAI_PORT_STAT_DOT3_STATS_INTERNAL_MAC_TRANSMIT_ERRORS"@
        &&& s != "SAI_PORT_STAT_DOT3_STATS_CARRIER_SENSE_ERRORS"@
        &&& s != "SAI_PORT_STAT_DOT3_STATS_FRAME_TOO_LONGS"@
        &&& s != "SAI_PORT_STAT_DOT3_STATS_INTERNAL_MAC_RECEIVE_ERRORS"@
        &&& s != "SAI_PORT_STAT_DOT3_STATS_SYMBOL_ERRORS"@
        &&& s != "SAI_PORT_STAT_DOT3_CONTROL_IN_UNKNOWN_OPCODES"@
        &&& s != "SAI_PORT_STAT_EEE_TX_EVENT_COUNT"@
        &&& s != "SAI_PORT_STAT_EEE_RX_EVENT_COUNT"@
        &&& s != "SAI_PORT_STAT_EEE_TX_DURATION"@
        &&& s != "SAI_PORT_STAT_EEE_RX_DURATION"@
        &&& s != "SAI_PORT_STAT_PRBS_ERROR_COUNT"@
        &&& s != "SAI_PORT_STAT_IF_IN_FEC_CORRECTABLE_FRAMES"@
        &&& s != "SAI_PORT_STAT_IF_IN_FEC_NOT_CORRECTABLE_FRAMES"@
        &&& s != "SAI_PORT_STAT_IF_IN_FEC_SYMBOL_ERRORS"@
        &&& s != "SAI_PORT_STAT_IF_IN_FABRIC_DATA_UNITS"@
        &&& s != "SAI_PORT_STAT_IF_OUT_FABRIC_DATA_UNITS"@
        &&& s != "SAI_PORT_STAT_IF_IN_FEC_CODEWORD_ERRORS_S0"@
        &&& s != "SAI_PORT_STAT_IF_IN_FEC_CODEWORD_ERRORS_S1"@
        &&& s != "SAI_PORT_STAT_IF_IN_FEC_CODEWORD_ERRORS_S2"@
        &&& s != "SAI_PORT_STAT_IF_IN_FEC_CODEWORD_ERRORS_S3"@
        &&& s != "SAI_PORT_STAT_IF_IN_FEC_CODEWORD_ERRORS_S4"@
        &&& s != "SAI_PORT_STAT_IF_IN_FEC_CODEWORD_ERRORS_S5"@
        &&& s != "SAI_PORT_STAT_IF_IN_FEC_CODEWORD_ERRORS_S6"@
        &&& s != "SAI_PORT_STAT_IF_IN_FEC_CODEWORD_ERRORS_S7"@
        &&& s != "SAI_PORT_STAT_IF_IN_FEC_CODEWORD_ERRORS_S8"@
        &&& s != "SAI_PORT_STAT_IF_IN_FEC_CODEWORD_ERRORS_S9"@
        &&& s != "SAI_PORT_STAT_IF_IN_FEC_CODEWORD_ERRORS_S10"@
        &&& s != "SAI_PORT_STAT_IF_IN_FEC_CODEWORD_ERRORS_S11"@
        &&& s != "SAI_PORT_STAT_IF_IN_FEC_CODEWORD_ERRORS_S12"@
        &&& s != "SAI_PORT_STAT_IF_IN_FEC_CODEWORD_ERRORS_S13"@
        &&& s != "SAI_PORT_STAT_IF_IN_FEC_CODEWORD_ERRORS_S14"@
        &&& s != "SAI_PORT_STAT_IF_IN_FEC_CODEWORD_ERRORS_S15"@
        &&& s != "SAI_PORT_STAT_IF_IN_FEC_CODEWORD_ERRORS_S16"@
        &&& s != "SAI_PORT_STAT_IF_IN_FEC_CORRECTED_BITS"@
        &&& s != "SAI_PORT_STAT_TRIM_PACKETS"@
        &&& s != "SAI_PORT_STAT_DROPPED_TRIM_PACKETS"@
        &&& s != "SAI_PORT_STAT_TX_TRIM_PACKETS"@
        &&& s != "SAI_PORT_STAT_IN_CONFIGURED_DROP_REASONS_0_DROPPED_PKTS"@
        &&& s != "SAI_PORT_STAT_IN_CONFIGURED_DROP_REASONS_1_DROPPED_PKTS"@
        &&& s != "SAI_PORT_STAT_IN_CONFIGURED_DROP_REASONS_2_DROPPED_PKTS"@
        &&& s != "SAI_PORT_STAT_IN_CONFIGURED_DROP_REASONS_3_DROPPED_PKTS"@
        &&& s != "SAI_PORT_STAT_IN_CONFIGURED_DROP_REASONS_4_DROPPED_PKTS"@
        &&& s != "SAI_PORT_STAT_IN_CONFIGURED_DROP_REASONS_5_DROPPED_PKTS"@
        &&& s != "SAI_PORT_STAT_IN_CONFIGURED_DROP_REASONS_6_DROPPED_PKTS"@
        &&& s != "SAI_PORT_STAT_IN_CONFIGURED_DROP_REASONS_7_DROPPED_PKTS"@
        &&& s != "SAI_PORT_STAT_IN_CONFIGURED_DROP_REASONS_8_DROPPED_PKTS"@
        &&& s != "SAI_PORT_STAT_IN_CONFIGURED_DROP_REASONS_9_DROPPED_PKTS"@
        &&& s != "SAI_PORT_STAT_IN_CONFIGURED_DROP_REASONS_10_DROPPED_PKTS"@
        &&& s != "SAI_PORT_STAT_IN_CONFIGURED_DROP_REASONS_11_DROPPED_PKTS"@
        &&& s != "SAI_PORT_STAT_IN_CONFIGURED_DROP_REASONS_12_DROPPED_PKTS"@
        &&& s != "SAI_PORT_STAT_IN_CONFIGURED_DROP_REASONS_13_DROPPED_PKTS"@
        &&& s != "SAI_PORT_STAT_IN_CONFIGURED_DROP_REASONS_14_DROPPED_PKTS"@
        &&& s != "SAI_PORT_STAT_IN_CONFIGURED_DROP_REASONS_15_DROPPED_PKTS"@
        &&& s != "SAI_PORT_STAT_OUT_CONFIGURED_DROP_REASONS_0_DROPPED_PKTS"@
        &&& s != "SAI_PORT_STAT_OUT_CONFIGURED_DROP_REASONS_1_DROPPED_PKTS"@
        &&& s != "SAI_PORT_STAT_OUT_CONFIGURED_DROP_REASONS_2_DROPPED_PKTS"@
        &&& s != "SAI_PORT_STAT_OUT_CONFIGURED_DROP_REASONS_3_DROPPED_PKTS"@
        &&& s != "SAI_PORT_STAT_OUT_CONFIGURED_DROP_REASONS_4_DROPPED_PKTS"@
        &&& s != "SAI_PORT_STAT_OUT_CONFIGURED_DROP_REASONS_5_DROPPED_PKTS"@
        &&& s != "SAI_PORT_STAT_OUT_CONFIGURED_DROP_REASONS_6_DROPPED_PKTS"@
        &&& s != "SAI_PORT_STAT_OUT_CONFIGURED_DROP_REASONS_7_DROPPED_PKTS"@
        &&& s != "SAI_PORT_STAT_IF_IN_HW_PROTECTION_SWITCHOVER_EVENTS"@
        &&& s != "SAI_PORT_STAT_IF_IN_HW_PROTECTION_SWITCHOVER_DROP_PKTS"@
        &&& s != "SAI_PORT_STAT_ETHER_IN_PKTS_1519_TO_2500_OCTETS"@
        &&& s != "SAI_PORT_STAT_ETHER_IN_PKTS_2501_TO_9000_OCTETS"@
        &&& s != "SAI_PORT_STAT_ETHER_IN_PKTS_9001_TO_16383_OCTETS"@
        &&& s != "SAI_PORT_STAT_ETHER_OUT_PKTS_1519_TO_2500_OCTETS"@
        &&& s != "SAI_PORT_STAT_ETHER_OUT_PKTS_2501_TO_9000_OCTETS"@
        &&& s != "SAI_PORT_STAT_ETHER_OUT_PKTS_9001_TO_16383_OCTETS"@
        &&& s != "SAI_PORT_STAT_END"@
    }

    proof fn lemma_unlisted_name(v: Self, s: Seq<char>)
        requires
            Self::unlisted_name(s),
        ensures
            v.spec_c_name() != s,
    {
        match v {
            Self::IfInOctets => {},
            Self::IfInUcastPkts => {},
            Self::IfInNonUcastPkts => {},
            Self::IfInDiscards => {},
            Self::IfInErrors => {},
            Self::IfInUnknownProtos => {},
            Self::IfInBroadcastPkts => {},
            Self::IfInMulticastPkts => {},
            Self::IfInVlanDiscards => {},
            Self::IfOutOctets => {},
            Self::IfOutUcastPkts => {},
            Self::IfOutNonUcastPkts => {},
            Self::IfOutDiscards => {},
            Self::IfOutErrors => {},
            Self::IfOutQlen => {},
            Self::IfOutBroadcastPkts => {},
            Self::IfOutMulticastPkts => {},
            Self::EtherStatsDropEvents => {},
            Self::EtherStatsMulticastPkts => {},
            Self::EtherStatsBroadcastPkts => {},
            Self::EtherStatsUndersizePkts => {},
            Self::EtherStatsFragments => {},
            Self::EtherStatsPkts64Octets => {},
            Self::EtherStatsPkts65To127Octets => {},
            Self::EtherStatsPkts128To255Octets => {},
            Self::EtherStatsPkts256To511Octets => {},
            Self::EtherStatsPkts512To1023Octets => {},
            Self::EtherStatsPkts1024To1518Octets => {},
            Self::EtherStatsPkts1519To2047Octets => {},
            Self::EtherStatsPkts2048To4095Octets => {},
            Self::EtherStatsPkts4096To9216Octets => {},
            Self::EtherStatsPkts9217To16383Octets => {},
            Self::EtherStatsOversizePkts => {},
            Self::EtherRxOversizePkts => {},
            Self::EtherTxOversizePkts => {},
            Self::EtherStatsJabbers => {},
            Self::EtherStatsOctets => {},
            Self::EtherStatsPkts => {},
            Self::EtherStatsCollisions => {},
            Self::EtherStatsCrcAlignErrors => {},
            Self::EtherStatsTxNoErrors => {},
            Self::EtherStatsRxNoErrors => {},
            Self::IpInReceives => {},
            Self::IpInOctets => {},
            Self::IpInUcastPkts => {},
            Self::IpInNonUcastPkts => {},
            Self::IpInDiscards => {},
            Self::IpOutOctets => {},
            Self::IpOutUcastPkts => {},
            Self::IpOutNonUcastPkts => {},
            Self::IpOutDiscards => {},
            Self::Ipv6InReceives => {},
            Self::Ipv6InOctets => {},
            Self::Ipv6InUcastPkts => {},
            Self::Ipv6InNonUcastPkts => {},
            Self::Ipv6InMcastPkts => {},
            Self::Ipv6InDiscards => {},
            Self::Ipv6OutOctets => {},
            Self::Ipv6OutUcastPkts => {},
            Self::Ipv6OutNonUcastPkts => {},
            Self::Ipv6OutMcastPkts => {},
            Self::Ipv6OutDiscards => {},
            Self::GreenWredDroppedPackets => {},
            Self::GreenWredDroppedBytes => {},
            Self::YellowWredDroppedPackets => {},
            Self::YellowWredDroppedBytes => {},
            Self::RedWredDroppedPackets => {},
            Self::RedWredDroppedBytes => {},
            Self::WredDroppedPackets => {},
            Self::WredDroppedBytes => {},
            Self::EcnMarkedPackets => {},
            Self::EtherInPkts64Octets => {},
            Self::EtherInPkts65To127Octets => {},
            Self::EtherInPkts128To255Octets => {},
            Self::EtherInPkts256To511Octets => {},
            Self::EtherInPkts512To1023Octets => {},
            Self::EtherInPkts1024To1518Octets => {},
            Self::EtherInPkts1519To2047Octets => {},
            Self::EtherInPkts2048To4095Octets => {},
            Self::EtherInPkts4096To9216Octets => {},
            Self::EtherInPkts9217To16383Octets => {},
            Self::EtherOutPkts64Octets => {},
            Self::EtherOutPkts65To127Octets => {},
            Self::EtherOutPkts128To255Octets => {},
            Self::EtherOutPkts256To511Octets => {},
            Self::EtherOutPkts512To1023Octets => {},
            Self::EtherOutPkts1024To1518Octets => {},
            Self::EtherOutPkts1519To2047Octets => {},
            Self::EtherOutPkts2048To4095Octets => {},
            Self::EtherOutPkts4096To9216Octets => {},
            Self::EtherOutPkts9217To16383Octets => {},
            Self::InCurrOccupancyBytes => {},
            Self::InWatermarkBytes => {},
            Self::InSharedCurrOccupancyBytes => {},
            Self::InSharedWatermarkBytes => {},
            Self::OutCurrOccupancyBytes => {},
            Self::OutWatermarkBytes => {},
            Self::OutSharedCurrOccupancyBytes => {},
            Self::OutSharedWatermarkBytes => {},
            Self::InDroppedPkts => {},
            Self::OutDroppedPkts => {},
            Self::PauseRxPkts => {},
            Self::PauseTxPkts => {},
            Self::Pfc0RxPkts => {},
            Self::Pfc0TxPkts => {},
            Self::Pfc1RxPkts => {},
            Self::Pfc1TxPkts => {},
            Self::Pfc2RxPkts => {},
            Self::Pfc2TxPkts => {},
            Self::Pfc3RxPkts => {},
            Self::Pfc3TxPkts => {},
            Self::Pfc4RxPkts => {},
            Self::Pfc4TxPkts => {},
            Self::Pfc5RxPkts => {},
            Self::Pfc5TxPkts => {},
            Self::Pfc6RxPkts => {},
            Self::Pfc6TxPkts => {},
            Self::Pfc7RxPkts => {},
            Self::Pfc7TxPkts => {},
            Self::Pfc0RxPauseDuration => {},
            Self::Pfc0TxPauseDuration => {},
            Self::Pfc1RxPauseDuration => {},
            Self::Pfc1TxPauseDuration => {},
            Self::Pfc2RxPauseDuration => {},
            Self::Pfc2TxPauseDuration => {},
            Self::Pfc3RxPauseDuration => {},
            Self::Pfc3TxPauseDuration => {},
            Self::Pfc4RxPauseDuration => {},
            Self::Pfc4TxPauseDuration => {},
            Self::Pfc5RxPauseDuration => {},
            Self::Pfc5TxPauseDuration => {},
            Self::Pfc6RxPauseDuration => {},
            Self::Pfc6TxPauseDuration => {},
            Self::Pfc7RxPauseDuration => {},
            Self::Pfc7TxPauseDuration => {},
            Self::Pfc0RxPauseDurationUs => {},
            Self::Pfc0TxPauseDurationUs => {},
            Self::Pfc1RxPauseDurationUs => {},
            Self::Pfc1TxPauseDurationUs => {},
            Self::Pfc2RxPauseDurationUs => {},
            Self::Pfc2TxPauseDurationUs => {},
            Self::Pfc3RxPauseDurationUs => {},
            Self::Pfc3TxPauseDurationUs => {},
            Self::Pfc4RxPauseDurationUs => {},
            Self::Pfc4TxPauseDurationUs => {},
            Self::Pfc5RxPauseDurationUs => {},
            Self::Pfc5TxPauseDurationUs => {},
            Self::Pfc6RxPauseDurationUs => {},
            Self::Pfc6TxPauseDurationUs => {},
            Self::Pfc7RxPauseDurationUs => {},
            Self::Pfc7TxPauseDurationUs => {},
            Self::Pfc0On2OffRxPkts => {},
            Self::Pfc1On2OffRxPkts => {},
            Self::Pfc2On2OffRxPkts => {},
            Self::Pfc3On2OffRxPkts => {},
            Self::Pfc4On2OffRxPkts => {},
            Self::Pfc5On2OffRxPkts => {},
            Self::Pfc6On2OffRxPkts => {},
            Self::Pfc7On2OffRxPkts => {},
            Self::Dot3StatsAlignmentErrors => {},
            Self::Dot3StatsFcsErrors => {},
            Self::Dot3StatsSingleCollisionFrames => {},
            Self::Dot3StatsMultipleCollisionFrames => {},
            Self::Dot3StatsSqeTestErrors => {},
            Self::Dot3StatsDeferredTransmissions => {},
            Self::Dot3StatsLateCollisions => {},
            Self::Dot3StatsExcessiveCollisions => {},
            Self::Dot3StatsInternalMacTransmitErrors => {},
            Self::Dot3StatsCarrierSenseErrors => {},
            Self::Dot3StatsFrameTooLongs => {},
            Self::Dot3StatsInternalMacReceiveErrors => {},
            Self::Dot3StatsSymbolErrors => {},
            Self::Dot3ControlInUnknownOpcodes => {},
            Self::EeeTxEventCount => {},
            Self::EeeRxEventCount => {},
            Self::EeeTxDuration => {},
            Self::EeeRxDuration => {},
            Self::PrbsErrorCount => {},
            Self::IfInFecCorrectableFrames => {},
            Self::IfInFecNotCorrectableFrames => {},
            Self::IfInFecSymbolErrors => {},
            Self::IfInFabricDataUnits => {},
            Self::IfOutFabricDataUnits => {},
            Self::IfInFecCodewordErrorsS0 => {},
            Self::IfInFecCodewordErrorsS1 => {},
            Self::IfInFecCodewordErrorsS2 => {},
            Self::IfInFecCodewordErrorsS3 => {},
            Self::IfInFecCodewordErrorsS4 => {},
            Self::IfInFecCodewordErrorsS5 => {},
            Self::IfInFecCodewordErrorsS6 => {},
            Self::IfInFecCodewordErrorsS7 => {},
            Self::IfInFecCodewordErrorsS8 => {},
            Self::IfInFecCodewordErrorsS9 => {},
            Self::IfInFecCodewordErrorsS10 => {},
            Self::IfInFecCodewordErrorsS11 => {},
            Self::IfInFecCodewordErrorsS12 => {},
            Self::IfInFecCodewordErrorsS13 => {},
            Self::IfInFecCodewordErrorsS14 => {},
            Self::IfInFecCodewordErrorsS15 => {},
            Self::IfInFecCodewordErrorsS16 => {},
            Self::IfInFecCorrectedBits => {},
            Self::TrimPackets => {},
            Self::DroppedTrimPackets => {},
            Self::TxTrimPackets => {},
            Self::InConfiguredDropReasons0DroppedPkts => {},
            Self::InConfiguredDropReasons1DroppedPkts => {},
            Self::InConfiguredDropReasons2DroppedPkts => {},
            Self::InConfiguredDropReasons3DroppedPkts => {},
            Self::InConfiguredDropReasons4DroppedPkts => {},
            Self::InConfiguredDropReasons5DroppedPkts => {},
            Self::InConfiguredDropReasons6DroppedPkts => {},
            Self::InConfiguredDropReasons7DroppedPkts => {},
            Self::InConfiguredDropReasons8DroppedPkts => {},
            Self::InConfiguredDropReasons9DroppedPkts => {},
            Self::InConfiguredDropReasons10DroppedPkts => {},
            Self::InConfiguredDropReasons11DroppedPkts => {},
            Self::InConfiguredDropReasons12DroppedPkts => {},
            Self::InConfiguredDropReasons13DroppedPkts => {},
            Self::InConfiguredDropReasons14DroppedPkts => {},
            Self::InConfiguredDropReasons15DroppedPkts => {},
            Self::OutConfiguredDropReasons0DroppedPkts => {},
            Self::OutConfiguredDropReasons1DroppedPkts => {},
            Self::OutConfiguredDropReasons2DroppedPkts => {},
            Self::OutConfiguredDropReasons3DroppedPkts => {},
            Self::OutConfiguredDropReasons4DroppedPkts => {},
            Self::OutConfiguredDropReasons5DroppedPkts => {},
            Self::OutConfiguredDropReasons6DroppedPkts => {},
            Self::OutConfiguredDropReasons7DroppedPkts => {},
            Self::IfInHwProtectionSwitchoverEvents => {},
            Self::IfInHwProtectionSwitchoverDropPkts => {},
            Self::EtherInPkts1519To2500Octets => {},
            Self::EtherInPkts2501To9000Octets => {},
            Self::EtherInPkts9001To16383Octets => {},
            Self::EtherOutPkts1519To2500Octets => {},
            Self::EtherOutPkts2501To9000Octets => {},
            Self::EtherOutPkts9001To16383Octets => {},
            Self::End => {},
        }
    }

    pub fn to_u32(self) -> (r: u32)
        ensures
            r == self.spec_id(),
    {
        match self {
            Self::IfInOctets => 0x00000000,
            Self::IfInUcastPkts => 0x00000001,
            Self::IfInNonUcastPkts => 0x00000002,
            Self::IfInDiscards => 0x00000003,
            Self::IfInErrors => 0x00000004,
            Self::IfInUnknownProtos => 0x00000005,
            Self::IfInBroadcastPkts => 0x00000006,
            Self::IfInMulticastPkts => 0x00000007,
            Self::IfInVlanDiscards => 0x00000008,
            Self::IfOutOctets => 0x00000009,
            Self::IfOutUcastPkts => 0x0000000a,
            Self::IfOutNonUcastPkts => 0x0000000b,
            Self::IfOutDiscards => 0x0000000c,
            Self::IfOutErrors => 0x0000000d,
            Self::IfOutQlen => 0x0000000e,
            Self::IfOutBroadcastPkts => 0x0000000f,
            Self::IfOutMulticastPkts => 0x00000010,
            Self::EtherStatsDropEvents => 0x00000011,
            Self::EtherStatsMulticastPkts => 0x00000012,
            Self::EtherStatsBroadcastPkts => 0x00000013,
            Self::EtherStatsUndersizePkts => 0x00000014,
            Self::EtherStatsFragments => 0x00000015,
            Self::EtherStatsPkts64Octets => 0x00000016,
            Self::EtherStatsPkts65To127Octets => 0x00000017,
            Self::EtherStatsPkts128To255Octets => 0x00000018,
            Self::EtherStatsPkts256To511Octets => 0x00000019,
            Self::EtherStatsPkts512To1023Octets => 0x0000001a,
            Self::EtherStatsPkts1024To1518Octets => 0x0000001b,
            Self::EtherStatsPkts1519To2047Octets => 0x0000001c,
            Self::EtherStatsPkts2048To4095Octets => 0x0000001d,
            Self::EtherStatsPkts4096To9216Octets => 0x0000001e,
            Self::EtherStatsPkts9217To16383Octets => 0x0000001f,
            Self::EtherStatsOversizePkts => 0x00000020,
            Self::EtherRxOversizePkts => 0x00000021,
            Self::EtherTxOversizePkts => 0x00000022,
            Self::EtherStatsJabbers => 0x00000023,
            Self::EtherStatsOctets => 0x00000024,
            Self::EtherStatsPkts => 0x00000025,
            Self::EtherStatsCollisions => 0x00000026,
            Self::EtherStatsCrcAlignErrors => 0x00000027,
            Self::EtherStatsTxNoErrors => 0x00000028,
            Self::EtherStatsRxNoErrors => 0x00000029,
            Self::IpInReceives => 0x0000002a,
            Self::IpInOctets => 0x0000002b,
            Self::IpInUcastPkts => 0x0000002c,
            Self::IpInNonUcastPkts => 0x0000002d,
            Self::IpInDiscards => 0x0000002e,
            Self::IpOutOctets => 0x0000002f,
            Self::IpOutUcastPkts => 0x00000030,
            Self::IpOutNonUcastPkts => 0x00000031,
            Self::IpOutDiscards => 0x00000032,
            Self::Ipv6InReceives => 0x00000033,
            Self::Ipv6InOctets => 0x00000034,
            Self::Ipv6InUcastPkts => 0x00000035,
            Self::Ipv6InNonUcastPkts => 0x00000036,
            Self::Ipv6InMcastPkts => 0x00000037,
            Self::Ipv6InDiscards => 0x00000038,
            Self::Ipv6OutOctets => 0x00000039,
            Self::Ipv6OutUcastPkts => 0x0000003a,
            Self::Ipv6OutNonUcastPkts => 0x0000003b,
            Self::Ipv6OutMcastPkts => 0x0000003c,
            Self::Ipv6OutDiscards => 0x0000003d,
            Self::GreenWredDroppedPackets => 0x0000003e,
            Self::GreenWredDroppedBytes => 0x0000003f,
            Self::YellowWredDroppedPackets => 0x00000040,
            Self::YellowWredDroppedBytes => 0x00000041,
            Self::RedWredDroppedPackets => 0x00000042,
            Self::RedWredDroppedBytes => 0x00000043,
            Self::WredDroppedPackets => 0x00000044,
            Self::WredDroppedBytes => 0x00000045,
            Self::EcnMarkedPackets => 0x00000046,
            Self::EtherInPkts64Octets => 0x00000047,
            Self::EtherInPkts65To127Octets => 0x00000048,
            Self::EtherInPkts128To255Octets => 0x00000049,
            Self::EtherInPkts256To511Octets => 0x0000004a,
            Self::EtherInPkts512To1023Octets => 0x0000004b,
            Self::EtherInPkts1024To1518Octets => 0x0000004c,
            Self::EtherInPkts1519To2047Octets => 0x0000004d,
            Self::EtherInPkts2048To4095Octets => 0x0000004e,
            Self::EtherInPkts4096To9216Octets => 0x0000004f,
            Self::EtherInPkts9217To16383Octets => 0x00000050,
            Self::EtherOutPkts64Octets => 0x00000051,
            Self::EtherOutPkts65To127Octets => 0x00000052,
            Self::EtherOutPkts128To255Octets => 0x00000053,
            Self::EtherOutPkts256To511Octets => 0x00000054,
            Self::EtherOutPkts512To1023Octets => 0x00000055,
            Self::EtherOutPkts1024To1518Octets => 0x00000056,
            Self::EtherOutPkts1519To2047Octets => 0x00000057,
            Self::EtherOutPkts2048To4095Octets => 0x00000058,
            Self::EtherOutPkts4096To9216Octets => 0x00000059,
            Self::EtherOutPkts9217To16383Octets => 0x0000005a,
            Self::InCurrOccupancyBytes => 0x0000005b,
            Self::InWatermarkBytes => 0x0000005c,
            Self::InSharedCurrOccupancyBytes => 0x0000005d,
            Self::InSharedWatermarkBytes => 0x0000005e,
            Self::OutCurrOccupancyBytes => 0x0000005f,
            Self::OutWatermarkBytes => 0x00000060,
            Self::OutSharedCurrOccupancyBytes => 0x00000061,
            Self::OutSharedWatermarkBytes => 0x00000062,
            Self::InDroppedPkts => 0x00000063,
            Self::OutDroppedPkts => 0x00000064,
            Self::PauseRxPkts => 0x00000065,
            Self::PauseTxPkts => 0x00000066,
            Self::Pfc0RxPkts => 0x00000067,
            Self::Pfc0TxPkts => 0x00000068,
            Self::Pfc1RxPkts => 0x00000069,
            Self::Pfc1TxPkts => 0x0000006a,
            Self::Pfc2RxPkts => 0x0000006b,
            Self::Pfc2TxPkts => 0x0000006c,
            Self::Pfc3RxPkts => 0x0000006d,
            Self::Pfc3TxPkts => 0x0000006e,
            Self::Pfc4RxPkts => 0x0000006f,
            Self::Pfc4TxPkts => 0x00000070,
            Self::Pfc5RxPkts => 0x00000071,
            Self::Pfc5TxPkts => 0x00000072,
            Self::Pfc6RxPkts => 0x00000073,
            Self::Pfc6TxPkts => 0x00000074,
            Self::Pfc7RxPkts => 0x00000075,
            Self::Pfc7TxPkts => 0x00000076,
            Self::Pfc0RxPauseDuration => 0x00000077,
            Self::Pfc0TxPauseDuration => 0x00000078,
            Self::Pfc1RxPauseDuration => 0x00000079,
            Self::Pfc1TxPauseDuration => 0x0000007a,
            Self::Pfc2RxPauseDuration => 0x0000007b,
            Self::Pfc2TxPauseDuration => 0x0000007c,
            Self::Pfc3RxPauseDuration => 0x0000007d,
            Self::Pfc3TxPauseDuration => 0x0000007e,
            Self::Pfc4RxPauseDuration => 0x0000007f,
            Self::Pfc4TxPauseDuration => 0x00000080,
            Self::Pfc5RxPauseDuration => 0x00000081,
            Self::Pfc5TxPauseDuration => 0x00000082,
            Self::Pfc6RxPauseDuration => 0x00000083,
            Self::Pfc6TxPauseDuration => 0x00000084,
            Self::Pfc7RxPauseDuration => 0x00000085,
            Self::Pfc7TxPauseDuration => 0x00000086,
            Self::Pfc0RxPauseDurationUs => 0x00000087,
            Self::Pfc0TxPauseDurationUs => 0x00000088,
            Self::Pfc1RxPauseDurationUs => 0x00000089,
            Self::Pfc1TxPauseDurationUs => 0x0000008a,
            Self::Pfc2RxPauseDurationUs => 0x0000008b,
            Self::Pfc2TxPauseDurationUs => 0x0000008c,
            Self::Pfc3RxPauseDurationUs => 0x0000008d,
            Self::Pfc3TxPauseDurationUs => 0x0000008e,
            Self::Pfc4RxPauseDurationUs => 0x0000008f,
            Self::Pfc4TxPauseDurationUs => 0x00000090,
            Self::Pfc5RxPauseDurationUs => 0x00000091,
            Self::Pfc5TxPauseDurationUs => 0x00000092,
            Self::Pfc6RxPauseDurationUs => 0x00000093,
            Self::Pfc6TxPauseDurationUs => 0x00000094,
            Self::Pfc7RxPauseDurationUs => 0x00000095,
            Self::Pfc7TxPauseDurationUs => 0x00000096,
            Self::Pfc0On2OffRxPkts => 0x00000097,
            Self::Pfc1On2OffRxPkts => 0x00000098,
            Self::Pfc2On2OffRxPkts => 0x00000099,
            Self::Pfc3On2OffRxPkts => 0x0000009a,
            Self::Pfc4On2OffRxPkts => 0x0000009b,
            Self::Pfc5On2OffRxPkts => 0x0000009c,
            Self::Pfc6On2OffRxPkts => 0x0000009d,
            Self::Pfc7On2OffRxPkts => 0x0000009e,
            Self::Dot3StatsAlignmentErrors => 0x0000009f,
            Self::Dot3StatsFcsErrors => 0x000000a0,
            Self::Dot3StatsSingleCollisionFrames => 0x000000a1,
            Self::Dot3StatsMultipleCollisionFrames => 0x000000a2,
            Self::Dot3StatsSqeTestErrors => 0x000000a3,
            Self::Dot3StatsDeferredTransmissions => 0x000000a4,
            Self::Dot3StatsLateCollisions => 0x000000a5,
            Self::Dot3StatsExcessiveCollisions => 0x000000a6,
            Self::Dot3StatsInternalMacTransmitErrors => 0x000000a7,
            Self::Dot3StatsCarrierSenseErrors => 0x000000a8,
            Self::Dot3StatsFrameTooLongs => 0x000000a9,
            Self::Dot3StatsInternalMacReceiveErrors => 0x000000aa,
            Self::Dot3StatsSymbolErrors => 0x000000ab,
            Self::Dot3ControlInUnknownOpcodes => 0x000000ac,
            Self::EeeTxEventCount => 0x000000ad,
            Self::EeeRxEventCount => 0x000000ae,
            Self::EeeTxDuration => 0x000000af,
            Self::EeeRxDuration => 0x000000b0,
            Self::PrbsErrorCount => 0x000000b1,
            Self::IfInFecCorrectableFrames => 0x000000b2,
            Self::IfInFecNotCorrectableFrames => 0x000000b3,
            Self::IfInFecSymbolErrors => 0x000000b4,
            Self::IfInFabricDataUnits => 0x000000b5,
            Self::IfOutFabricDataUnits => 0x000000b6,
            Self::IfInFecCodewordErrorsS0 => 0x000000b7,
            Self::IfInFecCodewordErrorsS1 => 0x000000b8,
            Self::IfInFecCodewordErrorsS2 => 0x000000b9,
            Self::IfInFecCodewordErrorsS3 => 0x000000ba,
            Self::IfInFecCodewordErrorsS4 => 0x000000bb,
            Self::IfInFecCodewordErrorsS5 => 0x000000bc,
            Self::IfInFecCodewordErrorsS6 => 0x000000bd,
            Self::IfInFecCodewordErrorsS7 => 0x000000be,
            Self::IfInFecCodewordErrorsS8 => 0x000000bf,
            Self::IfInFecCodewordErrorsS9 => 0x000000c0,
            Self::IfInFecCodewordErrorsS10 => 0x000000c1,
            Self::IfInFecCodewordErrorsS11 => 0x000000c2,
            Self::IfInFecCodewordErrorsS12 => 0x000000c3,
            Self::IfInFecCodewordErrorsS13 => 0x000000c4,
            Self::IfInFecCodewordErrorsS14 => 0x000000c5,
            Self::IfInFecCodewordErrorsS15 => 0x000000c6,
            Self::IfInFecCodewordErrorsS16 => 0x000000c7,
            Self::IfInFecCorrectedBits => 0x000000c8,
            Self::TrimPackets => 0x000000c9,
            Self::DroppedTrimPackets => 0x000000ca,
            Self::TxTrimPackets => 0x000000cb,
            Self::InConfiguredDropReasons0DroppedPkts => 0x00001000,
            Self::InConfiguredDropReasons1DroppedPkts => 0x00001001,
            Self::InConfiguredDropReasons2DroppedPkts => 0x00001002,
            Self::InConfiguredDropReasons3DroppedPkts => 0x00001003,
            Self::InConfiguredDropReasons4DroppedPkts => 0x00001004,
            Self::InConfiguredDropReasons5DroppedPkts => 0x00001005,
            Self::InConfiguredDropReasons6DroppedPkts => 0x00001006,
            Self::InConfiguredDropReasons7DroppedPkts => 0x00001007,
            Self::InConfiguredDropReasons8DroppedPkts => 0x00001008,
            Self::InConfiguredDropReasons9DroppedPkts => 0x00001009,
            Self::InConfiguredDropReasons10DroppedPkts => 0x0000100a,
            Self::InConfiguredDropReasons11DroppedPkts => 0x0000100b,
            Self::InConfiguredDropReasons12DroppedPkts => 0x0000100c,
            Self::InConfiguredDropReasons13DroppedPkts => 0x0000100d,
            Self::InConfiguredDropReasons14DroppedPkts => 0x0000100e,
            Self::InConfiguredDropReasons15DroppedPkts => 0x0000100f,
            Self::OutConfiguredDropReasons0DroppedPkts => 0x00002000,
            Self::OutConfiguredDropReasons1DroppedPkts => 0x00002001,
            Self::OutConfiguredDropReasons2DroppedPkts => 0x00002002,
            Self::OutConfiguredDropReasons3DroppedPkts => 0x00002003,
            Self::OutConfiguredDropReasons4DroppedPkts => 0x00002004,
            Self::OutConfiguredDropReasons5DroppedPkts => 0x00002005,
            Self::OutConfiguredDropReasons6DroppedPkts => 0x00002006,
            Self::OutConfiguredDropReasons7DroppedPkts => 0x00002007,
            Self::IfInHwProtectionSwitchoverEvents => 0x00002008,
            Self::IfInHwProtectionSwitchoverDropPkts => 0x00002009,
            Self::EtherInPkts1519To2500Octets => 0x0000200a,
            Self::EtherInPkts2501To9000Octets => 0x0000200b,
            Self::EtherInPkts9001To16383Octets => 0x0000200c,
            Self::EtherOutPkts1519To2500Octets => 0x0000200d,
            Self::EtherOutPkts2501To9000Octets => 0x0000200e,
            Self::EtherOutPkts9001To16383Octets => 0x0000200f,
            Self::End => 0x00002010,
        }
    }

    pub fn to_c_name(self) -> (r: &'static str)
        ensures
            r@ == self.spec_c_name(),
    {
        match self {
            Self::IfInOctets => "SAI_PORT_STAT_IF_IN_OCTETS",
            Self::IfInUcastPkts => "SAI_PORT_STAT_IF_IN_UCAST_PKTS",
            Self::IfInNonUcastPkts => "SAI_PORT_STAT_IF_IN_NON_UCAST_PKTS",
            Self::IfInDiscards => "SAI_PORT_STAT_IF_IN_DISCARDS",
            Self::IfInErrors => "SAI_PORT_STAT_IF_IN_ERRORS",
            Self::IfInUnknownProtos => "SAI_PORT_STAT_IF_IN_UNKNOWN_PROTOS",
            Self::IfInBroadcastPkts => "SAI_PORT_STAT_IF_IN_BROADCAST_PKTS",
            Self::IfInMulticastPkts => "SAI_PORT_STAT_IF_IN_MULTICAST_PKTS",
            Self::IfInVlanDiscards => "SAI_PORT_STAT_IF_IN_VLAN_DISCARDS",
            Self::IfOutOctets => "SAI_PORT_STAT_IF_OUT_OCTETS",
            Self::IfOutUcastPkts => "SAI_PORT_STAT_IF_OUT_UCAST_PKTS",
            Self::IfOutNonUcastPkts => "SAI_PORT_STAT_IF_OUT_NON_UCAST_PKTS",
            Self::IfOutDiscards => "SAI_PORT_STAT_IF_OUT_DISCARDS",
            Self::IfOutErrors => "SAI_PORT_STAT_IF_OUT_ERRORS",
            Self::IfOutQlen => "SAI_PORT_STAT_IF_OUT_QLEN",
            Self::IfOutBroadcastPkts => "SAI_PORT_STAT_IF_OUT_BROADCAST_PKTS",
            Self::IfOutMulticastPkts => "SAI_PORT_STAT_IF_OUT_MULTICAST_PKTS",
            Self::EtherStatsDropEvents => "SAI_PORT_STAT_ETHER_STATS_DROP_EVENTS",
            Self::EtherStatsMulticastPkts => "SAI_PORT_STAT_ETHER_STATS_MULTICAST_PKTS",
            Self::EtherStatsBroadcastPkts => "SAI_PORT_STAT_ETHER_STATS_BROADCAST_PKTS",
            Self::EtherStatsUndersizePkts => "SAI_PORT_STAT_ETHER_STATS_UNDERSIZE_PKTS",
            Self::EtherStatsFragments => "SAI_PORT_STAT_ETHER_STATS_FRAGMENTS",
            Self::EtherStatsPkts64Octets => "SAI_PORT_STAT_ETHER_STATS_PKTS_64_OCTETS",
            Self::EtherStatsPkts65To127Octets => "SAI_PORT_STAT_ETHER_STATS_PKTS_65_TO_127_OCTETS",
            Self::EtherStatsPkts128To255Octets => "SAI_PORT_STAT_ETHER_STATS_PKTS_128_TO_255_OCTETS",
            Self::EtherStatsPkts256To511Octets => "SAI_PORT_STAT_ETHER_STATS_PKTS_256_TO_511_OCTETS",
            Self::EtherStatsPkts512To1023Octets => "SAI_PORT_STAT_ETHER_STATS_PKTS_512_TO_1023_OCTETS",
            Self::EtherStatsPkts1024To1518Octets => "SAI_PORT_STAT_ETHER_STATS_PKTS_1024_TO_1518_OCTETS",
            Self::EtherStatsPkts1519To2047Octets => "SAI_PORT_STAT_ETHER_STATS_PKTS_1519_TO_2047_OCTETS",
            Self::EtherStatsPkts2048To4095Octets => "SAI_PORT_STAT_ETHER_STATS_PKTS_2048_TO_4095_OCTETS",
            Self::EtherStatsPkts4096To9216Octets => "SAI_PORT_STAT_ETHER_STATS_PKTS_4096_TO_9216_OCTETS",
            Self::EtherStatsPkts9217To16383Octets => "SAI_PORT_STAT_ETHER_STATS_PKTS_9217_TO_16383_OCTETS",
            Self::EtherStatsOversizePkts => "SAI_PORT_STAT_ETHER_STATS_OVERSIZE_PKTS",
            Self::EtherRxOversizePkts => "SAI_PORT_STAT_ETHER_RX_OVERSIZE_PKTS",
            Self::EtherTxOversizePkts => "SAI_PORT_STAT_ETHER_TX_OVERSIZE_PKTS",
            Self::EtherStatsJabbers => "SAI_PORT_STAT_ETHER_STATS_JABBERS",
            Self::EtherStatsOctets => "SAI_PORT_STAT_ETHER_STATS_OCTETS",
            Self::EtherStatsPkts => "SAI_PORT_STAT_ETHER_STATS_PKTS",
            Self::EtherStatsCollisions => "SAI_PORT_STAT_ETHER_STATS_COLLISIONS",
            Self::EtherStatsCrcAlignErrors => "SAI_PORT_STAT_ETHER_STATS_CRC_ALIGN_ERRORS",
            Self::EtherStatsTxNoErrors => "SAI_PORT_STAT_ETHER_STATS_TX_NO_ERRORS",
            Self::EtherStatsRxNoErrors => "SAI_PORT_STAT_ETHER_STATS_RX_NO_ERRORS",
            Self::IpInReceives => "SAI_PORT_STAT_IP_IN_RECEIVES",
            Self::IpInOctets => "SAI_PORT_STAT_IP_IN_OCTETS",
            Self::IpInUcastPkts => "SAI_PORT_STAT_IP_IN_UCAST_PKTS",
            Self::IpInNonUcastPkts => "SAI_PORT_STAT_IP_IN_NON_UCAST_PKTS",
            Self::IpInDiscards => "SAI_PORT_STAT_IP_IN_DISCARDS",
            Self::IpOutOctets => "SAI_PORT_STAT_IP_OUT_OCTETS",
            Self::IpOutUcastPkts => "SAI_PORT_STAT_IP_OUT_UCAST_PKTS",
            Self::IpOutNonUcastPkts => "SAI_PORT_STAT_IP_OUT_NON_UCAST_PKTS",
            Self::IpOutDiscards => "SAI_PORT_STAT_IP_OUT_DISCARDS",
            Self::Ipv6InReceives => "SAI_PORT_STAT_IPV6_IN_RECEIVES",
            Self::Ipv6InOctets => "SAI_PORT_STAT_IPV6_IN_OCTETS",
            Self::Ipv6InUcastPkts => "SAI_PORT_STAT_IPV6_IN_UCAST_PKTS",
            Self::Ipv6InNonUcastPkts => "SAI_PORT_STAT_IPV6_IN_NON_UCAST_PKTS",
            Self::Ipv6InMcastPkts => "SAI_PORT_STAT_IPV6_IN_MCAST_PKTS",
            Self::Ipv6InDiscards => "SAI_PORT_STAT_IPV6_IN_DISCARDS",
            Self::Ipv6OutOctets => "SAI_PORT_STAT_IPV6_OUT_OCTETS",
            Self::Ipv6OutUcastPkts => "SAI_PORT_STAT_IPV6_OUT_UCAST_PKTS",
            Self::Ipv6OutNonUcastPkts => "SAI_PORT_STAT_IPV6_OUT_NON_UCAST_PKTS",
            Self::Ipv6OutMcastPkts => "SAI_PORT_STAT_IPV6_OUT_MCAST_PKTS",
            Self::Ipv6OutDiscards => "SAI_PORT_STAT_IPV6_OUT_DISCARDS",
            Self::GreenWredDroppedPackets => "SAI_PORT_STAT_GREEN_WRED_DROPPED_PACKETS",
            Self::GreenWredDroppedBytes => "SAI_PORT_STAT_GREEN_WRED_DROPPED_BYTES",
            Self::YellowWredDroppedPackets => "SAI_PORT_STAT_YELLOW_WRED_DROPPED_PACKETS",
            Self::YellowWredDroppedBytes => "SAI_PORT_STAT_YELLOW_WRED_DROPPED_BYTES",
            Self::RedWredDroppedPackets => "SAI_PORT_STAT_RED_WRED_DROPPED_PACKETS",
            Self::RedWredDroppedBytes => "SAI_PORT_STAT_RED_WRED_DROPPED_BYTES",
            Self::WredDroppedPackets => "SAI_PORT_STAT_WRED_DROPPED_PACKETS",
            Self::WredDroppedBytes => "SAI_PORT_STAT_WRED_DROPPED_BYTES",
            Self::EcnMarkedPackets => "SAI_PORT_STAT_ECN_MARKED_PACKETS",
            Self::EtherInPkts64Octets => "SAI_PORT_STAT_ETHER_IN_PKTS_64_OCTETS",
            Self::EtherInPkts65To127Octets => "SAI_PORT_STAT_ETHER_IN_PKTS_65_TO_127_OCTETS",
            Self::EtherInPkts128To255Octets => "SAI_PORT_STAT_ETHER_IN_PKTS_128_TO_255_OCTETS",
            Self::EtherInPkts256To511Octets => "SAI_PORT_STAT_ETHER_IN_PKTS_256_TO_511_OCTETS",
            Self::EtherInPkts512To1023Octets => "SAI_PORT_STAT_ETHER_IN_PKTS_512_TO_1023_OCTETS",
            Self::EtherInPkts1024To1518Octets => "SAI_PORT_STAT_ETHER_IN_PKTS_1024_TO_1518_OCTETS",
            Self::EtherInPkts1519To2047Octets => "SAI_PORT_STAT_ETHER_IN_PKTS_1519_TO_2047_OCTETS",
            Self::EtherInPkts2048To4095Octets => "SAI_PORT_STAT_ETHER_IN_PKTS_2048_TO_4095_OCTETS",
            Self::EtherInPkts4096To9216Octets => "SAI_PORT_STAT_ETHER_IN_PKTS_4096_TO_9216_OCTETS",
            Self::EtherInPkts9217To16383Octets => "SAI_PORT_STAT_ETHER_IN_PKTS_9217_TO_16383_OCTETS",
            Self::EtherOutPkts64Octets => "SAI_PORT_STAT_ETHER_OUT_PKTS_64_OCTETS",
            Self::EtherOutPkts65To127Octets => "SAI_PORT_STAT_ETHER_OUT_PKTS_65_TO_127_OCTETS",
            Self::EtherOutPkts128To255Octets => "SAI_PORT_STAT_ETHER_OUT_PKTS_128_TO_255_OCTETS",
            Self::EtherOutPkts256To511Octets => "SAI_PORT_STAT_ETHER_OUT_PKTS_256_TO_511_OCTETS",
            Self::EtherOutPkts512To1023Octets => "SAI_PORT_STAT_ETHER_OUT_PKTS_512_TO_1023_OCTETS",
            Self::EtherOutPkts1024To1518Octets => "SAI_PORT_STAT_ETHER_OUT_PKTS_1024_TO_1518_OCTETS",
            Self::EtherOutPkts1519To2047Octets => "SAI_PORT_STAT_ETHER_OUT_PKTS_1519_TO_2047_OCTETS",
            Self::EtherOutPkts2048To4095Octets => "SAI_PORT_STAT_ETHER_OUT_PKTS_2048_TO_4095_OCTETS",
            Self::EtherOutPkts4096To9216Octets => "SAI_PORT_STAT_ETHER_OUT_PKTS_4096_TO_9216_OCTETS",
            Self::EtherOutPkts9217To16383Octets => "SAI_PORT_STAT_ETHER_OUT_PKTS_9217_TO_16383_OCTETS",
            Self::InCurrOccupancyBytes => "SAI_PORT_STAT_IN_CURR_OCCUPANCY_BYTES",
            Self::InWatermarkBytes => "SAI_PORT_STAT_IN_WATERMARK_BYTES",
            Self::InSharedCurrOccupancyBytes => "SAI_PORT_STAT_IN_SHARED_CURR_OCCUPANCY_BYTES",
            Self::InSharedWatermarkBytes => "SAI_PORT_STAT_IN_SHARED_WATERMARK_BYTES",
            Self::OutCurrOccupancyBytes => "SAI_PORT_STAT_OUT_CURR_OCCUPANCY_BYTES",
            Self::OutWatermarkBytes => "SAI_PORT_STAT_OUT_WATERMARK_BYTES",
            Self::OutSharedCurrOccupancyBytes => "SAI_PORT_STAT_OUT_SHARED_CURR_OCCUPANCY_BYTES",
            Self::OutSharedWatermarkBytes => "SAI_PORT_STAT_OUT_SHARED_WATERMARK_BYTES",
            Self::InDroppedPkts => "SAI_PORT_STAT_IN_DROPPED_PKTS",
            Self::OutDroppedPkts => "SAI_PORT_STAT_OUT_DROPPED_PKTS",
            Self::PauseRxPkts => "SAI_PORT_STAT_PAUSE_RX_PKTS",
            Self::PauseTxPkts => "SAI_PORT_STAT_PAUSE_TX_PKTS",
            Self::Pfc0RxPkts => "SAI_PORT_STAT_PFC_0_RX_PKTS",
            Self::Pfc0TxPkts => "SAI_PORT_STAT_PFC_0_TX_PKTS",
            Self::Pfc1RxPkts => "SAI_PORT_STAT_PFC_1_RX_PKTS",
            Self::Pfc1TxPkts => "SAI_PORT_STAT_PFC_1_TX_PKTS",
            Self::Pfc2RxPkts => "SAI_PORT_STAT_PFC_2_RX_PKTS",
            Self::Pfc2TxPkts => "SAI_PORT_STAT_PFC_2_TX_PKTS",
            Self::Pfc3RxPkts => "SAI_PORT_STAT_PFC_3_RX_PKTS",
            Self::Pfc3TxPkts => "SAI_PORT_STAT_PFC_3_TX_PKTS",
            Self::Pfc4RxPkts => "SAI_PORT_STAT_PFC_4_RX_PKTS",
            Self::Pfc4TxPkts => "SAI_PORT_STAT_PFC_4_TX_PKTS",
            Self::Pfc5RxPkts => "SAI_PORT_STAT_PFC_5_RX_PKTS",
            Self::Pfc5TxPkts => "SAI_PORT_STAT_PFC_5_TX_PKTS",
            Self::Pfc6RxPkts => "SAI_PORT_STAT_PFC_6_RX_PKTS",
            Self::Pfc6TxPkts => "SAI_PORT_STAT_PFC_6_TX_PKTS",
            Self::Pfc7RxPkts => "SAI_PORT_STAT_PFC_7_RX_PKTS",
            Self::Pfc7TxPkts => "SAI_PORT_STAT_PFC_7_TX_PKTS",
            Self::Pfc0RxPauseDuration => "SAI_PORT_STAT_PFC_0_RX_PAUSE_DURATION",
            Self::Pfc0TxPauseDuration => "SAI_PORT_STAT_PFC_0_TX_PAUSE_DURATION",
            Self::Pfc1RxPauseDuration => "SAI_PORT_STAT_PFC_1_RX_PAUSE_DURATION",
            Self::Pfc1TxPauseDuration => "SAI_PORT_STAT_PFC_1_TX_PAUSE_DURATION",
            Self::Pfc2RxPauseDuration => "SAI_PORT_STAT_PFC_2_RX_PAUSE_DURATION",
            Self::Pfc2TxPauseDuration => "SAI_PORT_STAT_PFC_2_TX_PAUSE_DURATION",
            Self::Pfc3RxPauseDuration => "SAI_PORT_STAT_PFC_3_RX_PAUSE_DURATION",
            Self::Pfc3TxPauseDuration => "SAI_PORT_STAT_PFC_3_TX_PAUSE_DURATION",
            Self::Pfc4RxPauseDuration => "SAI_PORT_STAT_PFC_4_RX_PAUSE_DURATION",
            Self::Pfc4TxPauseDuration => "SAI_PORT_STAT_PFC_4_TX_PAUSE_DURATION",
            Self::Pfc5RxPauseDuration => "SAI_PORT_STAT_PFC_5_RX_PAUSE_DURATION",
            Self::Pfc5TxPauseDuration => "SAI_PORT_STAT_PFC_5_TX_PAUSE_DURATION",
            Self::Pfc6RxPauseDuration => "SAI_PORT_STAT_PFC_6_RX_PAUSE_DURATION",
            Self::Pfc6TxPauseDuration => "SAI_PORT_STAT_PFC_6_TX_PAUSE_DURATION",
            Self::Pfc7RxPauseDuration => "SAI_PORT_STAT_PFC_7_RX_PAUSE_DURATION",
            Self::Pfc7TxPauseDuration => "SAI_PORT_STAT_PFC_7_TX_PAUSE_DURATION",
            Self::Pfc0RxPauseDurationUs => "SAI_PORT_STAT_PFC_0_RX_PAUSE_DURATION_US",
            Self::Pfc0TxPauseDurationUs => "SAI_PORT_STAT_PFC_0_TX_PAUSE_DURATION_US",
            Self::Pfc1RxPauseDurationUs => "SAI_PORT_STAT_PFC_1_RX_PAUSE_DURATION_US",
            Self::Pfc1TxPauseDurationUs => "SAI_PORT_STAT_PFC_1_TX_PAUSE_DURATION_US",
            Self::Pfc2RxPauseDurationUs => "SAI_PORT_STAT_PFC_2_RX_PAUSE_DURATION_US",
            Self::Pfc2TxPauseDurationUs => "SAI_PORT_STAT_PFC_2_TX_PAUSE_DURATION_US",
            Self::Pfc3RxPauseDurationUs => "SAI_PORT_STAT_PFC_3_RX_PAUSE_DURATION_US",
            Self::Pfc3TxPauseDurationUs => "SAI_PORT_STAT_PFC_3_TX_PAUSE_DURATION_US",
            Self::Pfc4RxPauseDurationUs => "SAI_PORT_STAT_PFC_4_RX_PAUSE_DURATION_US",
            Self::Pfc4TxPauseDurationUs => "SAI_PORT_STAT_PFC_4_TX_PAUSE_DURATION_US",
            Self::Pfc5RxPauseDurationUs => "SAI_PORT_STAT_PFC_5_RX_PAUSE_DURATION_US",
            Self::Pfc5TxPauseDurationUs => "SAI_PORT_STAT_PFC_5_TX_PAUSE_DURATION_US",
            Self::Pfc6RxPauseDurationUs => "SAI_PORT_STAT_PFC_6_RX_PAUSE_DURATION_US",
            Self::Pfc6TxPauseDurationUs => "SAI_PORT_STAT_PFC_6_TX_PAUSE_DURATION_US",
            Self::Pfc7RxPauseDurationUs => "SAI_PORT_STAT_PFC_7_RX_PAUSE_DURATION_US",
            Self::Pfc7TxPauseDurationUs => "SAI_PORT_STAT_PFC_7_TX_PAUSE_DURATION_US",
            Self::Pfc0On2OffRxPkts => "SAI_PORT_STAT_PFC_0_ON2OFF_RX_PKTS",
            Self::Pfc1On2OffRxPkts => "SAI_PORT_STAT_PFC_1_ON2OFF_RX_PKTS",
            Self::Pfc2On2OffRxPkts => "SAI_PORT_STAT_PFC_2_ON2OFF_RX_PKTS",
            Self::Pfc3On2OffRxPkts => "SAI_PORT_STAT_PFC_3_ON2OFF_RX_PKTS",
            Self::Pfc4On2OffRxPkts => "SAI_PORT_STAT_PFC_4_ON2OFF_RX_PKTS",
            Self::Pfc5On2OffRxPkts => "SAI_PORT_STAT_PFC_5_ON2OFF_RX_PKTS",
            Self::Pfc6On2OffRxPkts => "SAI_PORT_STAT_PFC_6_ON2OFF_RX_PKTS",
            Self::Pfc7On2OffRxPkts => "SAI_PORT_STAT_PFC_7_ON2OFF_RX_PKTS",
            Self::Dot3StatsAlignmentErrors => "SAI_PORT_STAT_DOT3_STATS_ALIGNMENT_ERRORS",
            Self::Dot3StatsFcsErrors => "SAI_PORT_STAT_DOT3_STATS_FCS_ERRORS",
            Self::Dot3StatsSingleCollisionFrames => "SAI_PORT_STAT_DOT3_STATS_SINGLE_COLLISION_FRAMES",
            Self::Dot3StatsMultipleCollisionFrames => "SAI_PORT_STAT_DOT3_STATS_MULTIPLE_COLLISION_FRAMES",
            Self::Dot3StatsSqeTestErrors => "SAI_PORT_STAT_DOT3_STATS_SQE_TEST_ERRORS",
            Self::Dot3StatsDeferredTransmissions => "SAI_PORT_STAT_DOT3_STATS_DEFERRED_TRANSMISSIONS",
            Self::Dot3StatsLateCollisions => "SAI_PORT_STAT_DOT3_STATS_LATE_COLLISIONS",
            Self::Dot3StatsExcessiveCollisions => "SAI_PORT_STAT_DOT3_STATS_EXCESSIVE_COLLISIONS",
            Self::Dot3StatsInternalMacTransmitErrors => "SAI_PORT_STAT_DOT3_STATS_INTERNAL_MAC_TRANSMIT_ERRORS",
            Self::Dot3StatsCarrierSenseErrors => "SAI_PORT_STAT_DOT3_STATS_CARRIER_SENSE_ERRORS",
            Self::Dot3StatsFrameTooLongs => "SAI_PORT_STAT_DOT3_STATS_FRAME_TOO_LONGS",
            Self::Dot3StatsInternalMacReceiveErrors => "SAI_PORT_STAT_DOT3_STATS_INTERNAL_MAC_RECEIVE_ERRORS",
            Self::Dot3StatsSymbolErrors => "SAI_PORT_STAT_DOT3_STATS_SYMBOL_ERRORS",
            Self::Dot3ControlInUnknownOpcodes => "SAI_PORT_STAT_DOT3_CONTROL_IN_UNKNOWN_OPCODES",
            Self::EeeTxEventCount => "SAI_PORT_STAT_EEE_TX_EVENT_COUNT",
            Self::EeeRxEventCount => "SAI_PORT_STAT_EEE_RX_EVENT_COUNT",
            Self::EeeTxDuration => "SAI_PORT_STAT_EEE_TX_DURATION",
            Self::EeeRxDuration => "SAI_PORT_STAT_EEE_RX_DURATION",
            Self::PrbsErrorCount => "SAI_PORT_STAT_PRBS_ERROR_COUNT",
            Self::IfInFecCorrectableFrames => "SAI_PORT_STAT_IF_IN_FEC_CORRECTABLE_FRAMES",
            Self::IfInFecNotCorrectableFrames => "SAI_PORT_STAT_IF_IN_FEC_NOT_CORRECTABLE_FRAMES",
            Self::IfInFecSymbolErrors => "SAI_PORT_STAT_IF_IN_FEC_SYMBOL_ERRORS",
            Self::IfInFabricDataUnits => "SAI_PORT_STAT_IF_IN_FABRIC_DATA_UNITS",
            Self::IfOutFabricDataUnits => "SAI_PORT_STAT_IF_OUT_FABRIC_DATA_UNITS",
            Self::IfInFecCodewordErrorsS0 => "SAI_PORT_STAT_IF_IN_FEC_CODEWORD_ERRORS_S0",
            Self::IfInFecCodewordErrorsS1 => "SAI_PORT_STAT_IF_IN_FEC_CODEWORD_ERRORS_S1",
            Self::IfInFecCodewordErrorsS2 => "SAI_PORT_STAT_IF_IN_FEC_CODEWORD_ERRORS_S2",
            Self::IfInFecCodewordErrorsS3 => "SAI_PORT_STAT_IF_IN_FEC_CODEWORD_ERRORS_S3",
            Self::IfInFecCodewordErrorsS4 => "SAI_PORT_STAT_IF_IN_FEC_CODEWORD_ERRORS_S4",
            Self::IfInFecCodewordErrorsS5 => "SAI_PORT_STAT_IF_IN_FEC_CODEWORD_ERRORS_S5",
            Self::IfInFecCodewordErrorsS6 => "SAI_PORT_STAT_IF_IN_FEC_CODEWORD_ERRORS_S6",
            Self::IfInFecCodewordErrorsS7 => "SAI_PORT_STAT_IF_IN_FEC_CODEWORD_ERRORS_S7",
            Self::IfInFecCodewordErrorsS8 => "SAI_PORT_STAT_IF_IN_FEC_CODEWORD_ERRORS_S8",
            Self::IfInFecCodewordErrorsS9 => "SAI_PORT_STAT_IF_IN_FEC_CODEWORD_ERRORS_S9",
            Self::IfInFecCodewordErrorsS10 => "SAI_PORT_STAT_IF_IN_FEC_CODEWORD_ERRORS_S10",
            Self::IfInFecCodewordErrorsS11 => "SAI_PORT_STAT_IF_IN_FEC_CODEWORD_ERRORS_S11",
            Self::IfInFecCodewordErrorsS12 => "SAI_PORT_STAT_IF_IN_FEC_CODEWORD_ERRORS_S12",
            Self::IfInFecCodewordErrorsS13 => "SAI_PORT_STAT_IF_IN_FEC_CODEWORD_ERRORS_S13",
            Self::IfInFecCodewordErrorsS14 => "SAI_PORT_STAT_IF_IN_FEC_CODEWORD_ERRORS_S14",
            Self::IfInFecCodewordErrorsS15 => "SAI_PORT_STAT_IF_IN_FEC_CODEWORD_ERRORS_S15",
            Self::IfInFecCodewordErrorsS16 => "SAI_PORT_STAT_IF_IN_FEC_CODEWORD_ERRORS_S16",
            Self::IfInFecCorrectedBits => "SAI_PORT_STAT_IF_IN_FEC_CORRECTED_BITS",
            Self::TrimPackets => "SAI_PORT_STAT_TRIM_PACKETS",
            Self::DroppedTrimPackets => "SAI_PORT_STAT_DROPPED_TRIM_PACKETS",
            Self::TxTrimPackets => "SAI_PORT_STAT_TX_TRIM_PACKETS",
            Self::InConfiguredDropReasons0DroppedPkts => "SAI_PORT_STAT_IN_CONFIGURED_DROP_REASONS_0_DROPPED_PKTS",
            Self::InConfiguredDropReasons1DroppedPkts => "SAI_PORT_STAT_IN_CONFIGURED_DROP_REASONS_1_DROPPED_PKTS",
            Self::InConfiguredDropReasons2DroppedPkts => "SAI_PORT_STAT_IN_CONFIGURED_DROP_REASONS_2_DROPPED_PKTS",
            Self::InConfiguredDropReasons3DroppedPkts => "SAI_PORT_STAT_IN_CONFIGURED_DROP_REASONS_3_DROPPED_PKTS",
            Self::InConfiguredDropReasons4DroppedPkts => "SAI_PORT_STAT_IN_CONFIGURED_DROP_REASONS_4_DROPPED_PKTS",
            Self::InConfiguredDropReasons5DroppedPkts => "SAI_PORT_STAT_IN_CONFIGURED_DROP_REASONS_5_DROPPED_PKTS",
            Self::InConfiguredDropReasons6DroppedPkts => "SAI_PORT_STAT_IN_CONFIGURED_DROP_REASONS_6_DROPPED_PKTS",
            Self::InConfiguredDropReasons7DroppedPkts => "SAI_PORT_STAT_IN_CONFIGURED_DROP_REASONS_7_DROPPED_PKTS",
            Self::InConfiguredDropReasons8DroppedPkts => "SAI_PORT_STAT_IN_CONFIGURED_DROP_REASONS_8_DROPPED_PKTS",
            Self::InConfiguredDropReasons9DroppedPkts => "SAI_PORT_STAT_IN_CONFIGURED_DROP_REASONS_9_DROPPED_PKTS",
            Self::InConfiguredDropReasons10DroppedPkts => "SAI_PORT_STAT_IN_CONFIGURED_DROP_REASONS_10_DROPPED_PKTS",
            Self::InConfiguredDropReasons11DroppedPkts => "SAI_PORT_STAT_IN_CONFIGURED_DROP_REASONS_11_DROPPED_PKTS",
            Self::InConfiguredDropReasons12DroppedPkts => "SAI_PORT_STAT_IN_CONFIGURED_DROP_REASONS_12_DROPPED_PKTS",
            Self::InConfiguredDropReasons13DroppedPkts => "SAI_PORT_STAT_IN_CONFIGURED_DROP_REASONS_13_DROPPED_PKTS",
            Self::InConfiguredDropReasons14DroppedPkts => "SAI_PORT_STAT_IN_CONFIGURED_DROP_REASONS_14_DROPPED_PKTS",
            Self::InConfiguredDropReasons15DroppedPkts => "SAI_PORT_STAT_IN_CONFIGURED_DROP_REASONS_15_DROPPED_PKTS",
            Self::OutConfiguredDropReasons0DroppedPkts => "SAI_PORT_STAT_OUT_CONFIGURED_DROP_REASONS_0_DROPPED_PKTS",
            Self::OutConfiguredDropReasons1DroppedPkts => "SAI_PORT_STAT_OUT_CONFIGURED_DROP_REASONS_1_DROPPED_PKTS",
            Self::OutConfiguredDropReasons2DroppedPkts => "SAI_PORT_STAT_OUT_CONFIGURED_DROP_REASONS_2_DROPPED_PKTS",
            Self::OutConfiguredDropReasons3DroppedPkts => "SAI_PORT_STAT_OUT_CONFIGURED_DROP_REASONS_3_DROPPED_PKTS",
            Self::OutConfiguredDropReasons4DroppedPkts => "SAI_PORT_STAT_OUT_CONFIGURED_DROP_REASONS_4_DROPPED_PKTS",
            Self::OutConfiguredDropReasons5DroppedPkts => "SAI_PORT_STAT_OUT_CONFIGURED_DROP_REASONS_5_DROPPED_PKTS",
            Self::OutConfiguredDropReasons6DroppedPkts => "SAI_PORT_STAT_OUT_CONFIGURED_DROP_REASONS_6_DROPPED_PKTS",
            Self::OutConfiguredDropReasons7DroppedPkts => "SAI_PORT_STAT_OUT_CONFIGURED_DROP_REASONS_7_DROPPED_PKTS",
            Self::IfInHwProtectionSwitchoverEvents => "SAI_PORT_STAT_IF_IN_HW_PROTECTION_SWITCHOVER_EVENTS",
            Self::IfInHwProtectionSwitchoverDropPkts => "SAI_PORT_STAT_IF_IN_HW_PROTECTION_SWITCHOVER_DROP_PKTS",
            Self::EtherInPkts1519To2500Octets => "SAI_PORT_STAT_ETHER_IN_PKTS_1519_TO_2500_OCTETS",
            Self::EtherInPkts2501To9000Octets => "SAI_PORT_STAT_ETHER_IN_PKTS_2501_TO_9000_OCTETS",
            Self::EtherInPkts9001To16383Octets => "SAI_PORT_STAT_ETHER_IN_PKTS_9001_TO_16383_OCTETS",
            Self::EtherOutPkts1519To2500Octets => "SAI_PORT_STAT_ETHER_OUT_PKTS_1519_TO_2500_OCTETS",
            Self::EtherOutPkts2501To9000Octets => "SAI_PORT_STAT_ETHER_OUT_PKTS_2501_TO_9000_OCTETS",
            Self::EtherOutPkts9001To16383Octets => "SAI_PORT_STAT_ETHER_OUT_PKTS_9001_TO_16383_OCTETS",
            Self::End => "SAI_PORT_STAT_END",
        }
    }

    /// Other C names that denote a statistic (`SAI_PORT_STAT_START` is the first one).
    pub open spec fn spec_alias(s: Seq<char>) -> Option<Self> {
        if s == "SAI_PORT_STAT_START"@ { Some(Self::IfInOctets) } else { None }
    }

    /// The statistic whose C name is `s`, if any.
    #[verifier::rlimit(100)]
    pub fn parse_c_name(s: &str) -> (r: Option<Self>)
        ensures
            r matches Some(v) ==> v.spec_c_name() == s@ || Self::spec_alias(s@) == Some(v),
            r is None ==> Self::spec_alias(s@) is None && forall|v: Self| v.spec_c_name() != s@,
    {
        if str_eq(s, "SAI_PORT_STAT_START") {
            return Some(Self::IfInOctets);
        }
        if str_eq(s, "SAI_PORT_STAT_IF_IN_OCTETS") {
            return Some(Self::IfInOctets);
        }
        if str_eq(s, "SAI_PORT_STAT_IF_IN_UCAST_PKTS") {
            return Some(Self::IfInUcastPkts);
        }
        if str_eq(s, "SAI_PORT_STAT_IF_IN_NON_UCAST_PKTS") {
            return Some(Self::IfInNonUcastPkts);
        }
        if str_eq(s, "SAI_PORT_STAT_IF_IN_DISCARDS") {
            return Some(Self::IfInDiscards);
        }
        if str_eq(s, "SAI_PORT_STAT_IF_IN_ERRORS") {
            return Some(Self::IfInErrors);
        }
        if str_eq(s, "SAI_PORT_STAT_IF_IN_UNKNOWN_PROTOS") {
            return Some(Self::IfInUnknownProtos);
        }
        if str_eq(s, "SAI_PORT_STAT_IF_IN_BROADCAST_PKTS") {
            return Some(Self::IfInBroadcastPkts);
        }
        if str_eq(s, "SAI_PORT_STAT_IF_IN_MULTICAST_PKTS") {
            return Some(Self::IfInMulticastPkts);
        }
        if str_eq(s, "SAI_PORT_STAT_IF_IN_VLAN_DISCARDS") {
            return Some(Self::IfInVlanDiscards);
        }
        if str_eq(s, "SAI_PORT_STAT_IF_OUT_OCTETS") {
            return Some(Self::IfOutOctets);
        }
        if str_eq(s, "SAI_PORT_STAT_IF_OUT_UCAST_PKTS") {
            return Some(Self::IfOutUcastPkts);
        }
        if str_eq(s, "SAI_PORT_STAT_IF_OUT_NON_UCAST_PKTS") {
            return Some(Self::IfOutNonUcastPkts);
        }
        if str_eq(s, "SAI_PORT_STAT_IF_OUT_DISCARDS") {
            return Some(Self::IfOutDiscards);
        }
        if str_eq(s, "SAI_PORT_STAT_IF_OUT_ERRORS") {
            return Some(Self::IfOutErrors);
        }
        if str_eq(s, "SAI_PORT_STAT_IF_OUT_QLEN") {
            return Some(Self::IfOutQlen);
        }
        if str_eq(s, "SAI_PORT_STAT_IF_OUT_BROADCAST_PKTS") {
            return Some(Self::IfOutBroadcastPkts);
        }
        if str_eq(s, "SAI_PORT_STAT_IF_OUT_MULTICAST_PKTS") {
            return Some(Self::IfOutMulticastPkts);
        }
        if str_eq(s, "SAI_PORT_STAT_ETHER_STATS_DROP_EVENTS") {
            return Some(Self::EtherStatsDropEvents);
        }
        if str_eq(s, "SAI_PORT_STAT_ETHER_STATS_MULTICAST_PKTS") {
            return Some(Self::EtherStatsMulticastPkts);
        }
        if str_eq(s, "SAI_PORT_STAT_ETHER_STATS_BROADCAST_PKTS") {
            return Some(Self::EtherStatsBroadcastPkts);
        }
        if str_eq(s, "SAI_PORT_STAT_ETHER_STATS_UNDERSIZE_PKTS") {
            return Some(Self::EtherStatsUndersizePkts);
        }
        if str_eq(s, "SAI_PORT_STAT_ETHER_STATS_FRAGMENTS") {
            return Some(Self::EtherStatsFragments);
        }
        if str_eq(s, "SAI_PORT_STAT_ETHER_STATS_PKTS_64_OCTETS") {
            return Some(Self::EtherStatsPkts64Octets);
        }
        if str_eq(s, "SAI_PORT_STAT_ETHER_STATS_PKTS_65_TO_127_OCTETS") {
            return Some(Self::EtherStatsPkts65To127Octets);
        }
        if str_eq(s, "SAI_PORT_STAT_ETHER_STATS_PKTS_128_TO_255_OCTETS") {
            return Some(Self::EtherStatsPkts128To255Octets);
        }
        if str_eq(s, "SAI_PORT_STAT_ETHER_STATS_PKTS_256_TO_511_OCTETS") {
            return Some(Self::EtherStatsPkts256To511Octets);
        }
        if str_eq(s, "SAI_PORT_STAT_ETHER_STATS_PKTS_512_TO_1023_OCTETS") {
            return Some(Self::EtherStatsPkts512To1023Octets);
        }
        if str_eq(s, "SAI_PORT_STAT_ETHER_STATS_PKTS_1024_TO_1518_OCTETS") {
            return Some(Self::EtherStatsPkts1024To1518Octets);
        }
        if str_eq(s, "SAI_PORT_STAT_ETHER_STATS_PKTS_1519_TO_2047_OCTETS") {
            return Some(Self::EtherStatsPkts1519To2047Octets);
        }
        if str_eq(s, "SAI_PORT_STAT_ETHER_STATS_PKTS_2048_TO_4095_OCTETS") {
            return Some(Self::EtherStatsPkts2048To4095Octets);
        }
        if str_eq(s, "SAI_PORT_STAT_ETHER_STATS_PKTS_4096_TO_9216_OCTETS") {
            return Some(Self::EtherStatsPkts4096To9216Octets);
        }
        if str_eq(s, "SAI_PORT_STAT_ETHER_STATS_PKTS_9217_TO_16383_OCTETS") {
            return Some(Self::EtherStatsPkts9217To16383Octets);
        }
        if str_eq(s, "SAI_PORT_STAT_ETHER_STATS_OVERSIZE_PKTS") {
            return Some(Self::EtherStatsOversizePkts);
        }
        if str_eq(s, "SAI_PORT_STAT_ETHER_RX_OVERSIZE_PKTS") {
            return Some(Self::EtherRxOversizePkts);
        }
        if str_eq(s, "SAI_PORT_STAT_ETHER_TX_OVERSIZE_PKTS") {
            return Some(Self::EtherTxOversizePkts);
        }
        if str_eq(s, "SAI_PORT_STAT_ETHER_STATS_JABBERS") {
            return Some(Self::EtherStatsJabbers);
        }
        if str_eq(s, "SAI_PORT_STAT_ETHER_STATS_OCTETS") {
            return Some(Self::EtherStatsOctets);
        }
        if str_eq(s, "SAI_PORT_STAT_ETHER_STATS_PKTS") {
            return Some(Self::EtherStatsPkts);
        }
        if str_eq(s, "SAI_PORT_STAT_ETHER_STATS_COLLISIONS") {
            return Some(Self::EtherStatsCollisions);
        }
        if str_eq(s, "SAI_PORT_STAT_ETHER_STATS_CRC_ALIGN_ERRORS") {
            return Some(Self::EtherStatsCrcAlignErrors);
        }
        if str_eq(s, "SAI_PORT_STAT_ETHER_STATS_TX_NO_ERRORS") {
            return Some(Self::EtherStatsTxNoErrors);
        }
        if str_eq(s, "SAI_PORT_STAT_ETHER_STATS_RX_NO_ERRORS") {
            return Some(Self::EtherStatsRxNoErrors);
        }
        if str_eq(s, "SAI_PORT_STAT_IP_IN_RECEIVES") {
            return Some(Self::IpInReceives);
        }
        if str_eq(s, "SAI_PORT_STAT_IP_IN_OCTETS") {
            return Some(Self::IpInOctets);
        }
        if str_eq(s, "SAI_PORT_STAT_IP_IN_UCAST_PKTS") {
            return Some(Self::IpInUcastPkts);
        }
        if str_eq(s, "SAI_PORT_STAT_IP_IN_NON_UCAST_PKTS") {
            return Some(Self::IpInNonUcastPkts);
        }
        if str_eq(s, "SAI_PORT_STAT_IP_IN_DISCARDS") {
            return Some(Self::IpInDiscards);
        }
        if str_eq(s, "SAI_PORT_STAT_IP_OUT_OCTETS") {
            return Some(Self::IpOutOctets);
        }
        if str_eq(s, "SAI_PORT_STAT_IP_OUT_UCAST_PKTS") {
            return Some(Self::IpOutUcastPkts);
        }
        if str_eq(s, "SAI_PORT_STAT_IP_OUT_NON_UCAST_PKTS") {
            return Some(Self::IpOutNonUcastPkts);
        }
        if str_eq(s, "SAI_PORT_STAT_IP_OUT_DISCARDS") {
            return Some(Self::IpOutDiscards);
        }
        if str_eq(s, "SAI_PORT_STAT_IPV6_IN_RECEIVES") {
            return Some(Self::Ipv6InReceives);
        }
        if str_eq(s, "SAI_PORT_STAT_IPV6_IN_OCTETS") {
            return Some(Self::Ipv6InOctets);
        }
        if str_eq(s, "SAI_PORT_STAT_IPV6_IN_UCAST_PKTS") {
            return Some(Self::Ipv6InUcastPkts);
        }
        if str_eq(s, "SAI_PORT_STAT_IPV6_IN_NON_UCAST_PKTS") {
            return Some(Self::Ipv6InNonUcastPkts);
        }
        if str_eq(s, "SAI_PORT_STAT_IPV6_IN_MCAST_PKTS") {
            return Some(Self::Ipv6InMcastPkts);
        }
        if str_eq(s, "SAI_PORT_STAT_IPV6_IN_DISCARDS") {
            return Some(Self::Ipv6InDiscards);
        }
        if str_eq(s, "SAI_PORT_STAT_IPV6_OUT_OCTETS") {
            return Some(Self::Ipv6OutOctets);
        }
        if str_eq(s, "SAI_PORT_STAT_IPV6_OUT_UCAST_PKTS") {
            return Some(Self::Ipv6OutUcastPkts);
        }
        if str_eq(s, "SAI_PORT_STAT_IPV6_OUT_NON_UCAST_PKTS") {
            return Some(Self::Ipv6OutNonUcastPkts);
        }
        if str_eq(s, "SAI_PORT_STAT_IPV6_OUT_MCAST_PKTS") {
            return Some(Self::Ipv6OutMcastPkts);
        }
        if str_eq(s, "SAI_PORT_STAT_IPV6_OUT_DISCARDS") {
            return Some(Self::Ipv6OutDiscards);
        }
        if str_eq(s, "SAI_PORT_STAT_GREEN_WRED_DROPPED_PACKETS") {
            return Some(Self::GreenWredDroppedPackets);
        }
        if str_eq(s, "SAI_PORT_STAT_GREEN_WRED_DROPPED_BYTES") {
            return Some(Self::GreenWredDroppedBytes);
        }
        if str_eq(s, "SAI_PORT_STAT_YELLOW_WRED_DROPPED_PACKETS") {
            return Some(Self::YellowWredDroppedPackets);
        }
        if str_eq(s, "SAI_PORT_STAT_YELLOW_WRED_DROPPED_BYTES") {
            return Some(Self::YellowWredDroppedBytes);
        }
        if str_eq(s, "SAI_PORT_STAT_RED_WRED_DROPPED_PACKETS") {
            return Some(Self::RedWredDroppedPackets);
        }
        if str_eq(s, "SAI_PORT_STAT_RED_WRED_DROPPED_BYTES") {
            return Some(Self::RedWredDroppedBytes);
        }
        if str_eq(s, "SAI_PORT_STAT_WRED_DROPPED_PACKETS") {
            return Some(Self::WredDroppedPackets);
        }
        if str_eq(s, "SAI_PORT_STAT_WRED_DROPPED_BYTES") {
            return Some(Self::WredDroppedBytes);
        }
        if str_eq(s, "SAI_PORT_STAT_ECN_MARKED_PACKETS") {
            return Some(Self::EcnMarkedPackets);
        }
        if str_eq(s, "SAI_PORT_STAT_ETHER_IN_PKTS_64_OCTETS") {
            return Some(Self::EtherInPkts64Octets);
        }
        if str_eq(s, "SAI_PORT_STAT_ETHER_IN_PKTS_65_TO_127_OCTETS") {
            return Some(Self::EtherInPkts65To127Octets);
        }
        if str_eq(s, "SAI_PORT_STAT_ETHER_IN_PKTS_128_TO_255_OCTETS") {
            return Some(Self::EtherInPkts128To255Octets);
        }
        if str_eq(s, "SAI_PORT_STAT_ETHER_IN_PKTS_256_TO_511_OCTETS") {
            return Some(Self::EtherInPkts256To511Octets);
        }
        if str_eq(s, "SAI_PORT_STAT_ETHER_IN_PKTS_512_TO_1023_OCTETS") {
            return Some(Self::EtherInPkts512To1023Octets);
        }
        if str_eq(s, "SAI_PORT_STAT_ETHER_IN_PKTS_1024_TO_1518_OCTETS") {
            return Some(Self::EtherInPkts1024To1518Octets);
        }
        if str_eq(s, "SAI_PORT_STAT_ETHER_IN_PKTS_1519_TO_2047_OCTETS") {
            return Some(Self::EtherInPkts1519To2047Octets);
        }
        if str_eq(s, "SAI_PORT_STAT_ETHER_IN_PKTS_2048_TO_4095_OCTETS") {
            return Some(Self::EtherInPkts2048To4095Octets);
        }
        if str_eq(s, "SAI_PORT_STAT_ETHER_IN_PKTS_4096_TO_9216_OCTETS") {
            return Some(Self::EtherInPkts4096To9216Octets);
        }
        if str_eq(s, "SAI_PORT_STAT_ETHER_IN_PKTS_9217_TO_16383_OCTETS") {
            return Some(Self::EtherInPkts9217To16383Octets);
        }
        if str_eq(s, "SAI_PORT_STAT_ETHER_OUT_PKTS_64_OCTETS") {
            return Some(Self::EtherOutPkts64Octets);
        }
        if str_eq(s, "SAI_PORT_STAT_ETHER_OUT_PKTS_65_TO_127_OCTETS") {
            return Some(Self::EtherOutPkts65To127Octets);
        }
        if str_eq(s, "SAI_PORT_STAT_ETHER_OUT_PKTS_128_TO_255_OCTETS") {
            return Some(Self::EtherOutPkts128To255Octets);
        }
        if str_eq(s, "SAI_PORT_STAT_ETHER_OUT_PKTS_256_TO_511_OCTETS") {
            return Some(Self::EtherOutPkts256To511Octets);
        }
        if str_eq(s, "SAI_PORT_STAT_ETHER_OUT_PKTS_512_TO_1023_OCTETS") {
            return Some(Self::EtherOutPkts512To1023Octets);
        }
        if str_eq(s, "SAI_PORT_STAT_ETHER_OUT_PKTS_1024_TO_1518_OCTETS") {
            return Some(Self::EtherOutPkts1024To1518Octets);
        }
        if str_eq(s, "SAI_PORT_STAT_ETHER_OUT_PKTS_1519_TO_2047_OCTETS") {
            return Some(Self::EtherOutPkts1519To2047Octets);
        }
        if str_eq(s, "SAI_PORT_STAT_ETHER_OUT_PKTS_2048_TO_4095_OCTETS") {
            return Some(Self::EtherOutPkts2048To4095Octets);
        }
        if str_eq(s, "SAI_PORT_STAT_ETHER_OUT_PKTS_4096_TO_9216_OCTETS") {
            return Some(Self::EtherOutPkts4096To9216Octets);
        }
        if str_eq(s, "SAI_PORT_STAT_ETHER_OUT_PKTS_9217_TO_16383_OCTETS") {
            return Some(Self::EtherOutPkts9217To16383Octets);
        }
        if str_eq(s, "SAI_PORT_STAT_IN_CURR_OCCUPANCY_BYTES") {
            return Some(Self::InCurrOccupancyBytes);
        }
        if str_eq(s, "SAI_PORT_STAT_IN_WATERMARK_BYTES") {
            return Some(Self::InWatermarkBytes);
        }
        if str_eq(s, "SAI_PORT_STAT_IN_SHARED_CURR_OCCUPANCY_BYTES") {
            return Some(Self::InSharedCurrOccupancyBytes);
        }
        if str_eq(s, "SAI_PORT_STAT_IN_SHARED_WATERMARK_BYTES") {
            return Some(Self::InSharedWatermarkBytes);
        }
        if str_eq(s, "SAI_PORT_STAT_OUT_CURR_OCCUPANCY_BYTES") {
            return Some(Self::OutCurrOccupancyBytes);
        }
        if str_eq(s, "SAI_PORT_STAT_OUT_WATERMARK_BYTES") {
            return Some(Self::OutWatermarkBytes);
        }
        if str_eq(s, "SAI_PORT_STAT_OUT_SHARED_CURR_OCCUPANCY_BYTES") {
            return Some(Self::OutSharedCurrOccupancyBytes);
        }
        if str_eq(s, "SAI_PORT_STAT_OUT_SHARED_WATERMARK_BYTES") {
            return Some(Self::OutSharedWatermarkBytes);
        }
        if str_eq(s, "SAI_PORT_STAT_IN_DROPPED_PKTS") {
            return Some(Self::InDroppedPkts);
        }
        if str_eq(s, "SAI_PORT_STAT_OUT_DROPPED_PKTS") {
            return Some(Self::OutDroppedPkts);
        }
        if str_eq(s, "SAI_PORT_STAT_PAUSE_RX_PKTS") {
            return Some(Self::PauseRxPkts);
        }
        if str_eq(s, "SAI_PORT_STAT_PAUSE_TX_PKTS") {
            return Some(Self::PauseTxPkts);
        }
        if str_eq(s, "SAI_PORT_STAT_PFC_0_RX_PKTS") {
            return Some(Self::Pfc0RxPkts);
        }
        if str_eq(s, "SAI_PORT_STAT_PFC_0_TX_PKTS") {
            return Some(Self::Pfc0TxPkts);
        }
        if str_eq(s, "SAI_PORT_STAT_PFC_1_RX_PKTS") {
            return Some(Self::Pfc1RxPkts);
        }
        if str_eq(s, "SAI_PORT_STAT_PFC_1_TX_PKTS") {
            return Some(Self::Pfc1TxPkts);
        }
        if str_eq(s, "SAI_PORT_STAT_PFC_2_RX_PKTS") {
            return Some(Self::Pfc2RxPkts);
        }
        if str_eq(s, "SAI_PORT_STAT_PFC_2_TX_PKTS") {
            return Some(Self::Pfc2TxPkts);
        }
        if str_eq(s, "SAI_PORT_STAT_PFC_3_RX_PKTS") {
            return Some(Self::Pfc3RxPkts);
        }
        if str_eq(s, "SAI_PORT_STAT_PFC_3_TX_PKTS") {
            return Some(Self::Pfc3TxPkts);
        }
        if str_eq(s, "SAI_PORT_STAT_PFC_4_RX_PKTS") {
            return Some(Self::Pfc4RxPkts);
        }
        if str_eq(s, "SAI_PORT_STAT_PFC_4_TX_PKTS") {
            return Some(Self::Pfc4TxPkts);
        }
        if str_eq(s, "SAI_PORT_STAT_PFC_5_RX_PKTS") {
            return Some(Self::Pfc5RxPkts);
        }
        if str_eq(s, "SAI_PORT_STAT_PFC_5_TX_PKTS") {
            return Some(Self::Pfc5TxPkts);
        }
        if str_eq(s, "SAI_PORT_STAT_PFC_6_RX_PKTS") {
            return Some(Self::Pfc6RxPkts);
        }
        if str_eq(s, "SAI_PORT_STAT_PFC_6_TX_PKTS") {
            return Some(Self::Pfc6TxPkts);
        }
        if str_eq(s, "SAI_PORT_STAT_PFC_7_RX_PKTS") {
            return Some(Self::Pfc7RxPkts);
        }
        if str_eq(s, "SAI_PORT_STAT_PFC_7_TX_PKTS") {
            return Some(Self::Pfc7TxPkts);
        }
        if str_eq(s, "SAI_PORT_STAT_PFC_0_RX_PAUSE_DURATION") {
            return Some(Self::Pfc0RxPauseDuration);
        }
        if str_eq(s, "SAI_PORT_STAT_PFC_0_TX_PAUSE_DURATION") {
            return Some(Self::Pfc0TxPauseDuration);
        }
        if str_eq(s, "SAI_PORT_STAT_PFC_1_RX_PAUSE_DURATION") {
            return Some(Self::Pfc1RxPauseDuration);
        }
        if str_eq(s, "SAI_PORT_STAT_PFC_1_TX_PAUSE_DURATION") {
            return Some(Self::Pfc1TxPauseDuration);
        }
        if str_eq(s, "SAI_PORT_STAT_PFC_2_RX_PAUSE_DURATION") {
            return Some(Self::Pfc2RxPauseDuration);
        }
        if str_eq(s, "SAI_PORT_STAT_PFC_2_TX_PAUSE_DURATION") {
            return Some(Self::Pfc2TxPauseDuration);
        }
        if str_eq(s, "SAI_PORT_STAT_PFC_3_RX_PAUSE_DURATION") {
            return Some(Self::Pfc3RxPauseDuration);
        }
        if str_eq(s, "SAI_PORT_STAT_PFC_3_TX_PAUSE_DURATION") {
            return Some(Self::Pfc3TxPauseDuration);
        }
        if str_eq(s, "SAI_PORT_STAT_PFC_4_RX_PAUSE_DURATION") {
            return Some(Self::Pfc4RxPauseDuration);
        }
        if str_eq(s, "SAI_PORT_STAT_PFC_4_TX_PAUSE_DURATION") {
            return Some(Self::Pfc4TxPauseDuration);
        }
        if str_eq(s, "SAI_PORT_STAT_PFC_5_RX_PAUSE_DURATION") {
            return Some(Self::Pfc5RxPauseDuration);
        }
        if str_eq(s, "SAI_PORT_STAT_PFC_5_TX_PAUSE_DURATION") {
            return Some(Self::Pfc5TxPauseDuration);
        }
        if str_eq(s, "SAI_PORT_STAT_PFC_6_RX_PAUSE_DURATION") {
            return Some(Self::Pfc6RxPauseDuration);
        }
        if str_eq(s, "SAI_PORT_STAT_PFC_6_TX_PAUSE_DURATION") {
            return Some(Self::Pfc6TxPauseDuration);
        }
        if str_eq(s, "SAI_PORT_STAT_PFC_7_RX_PAUSE_DURATION") {
            return Some(Self::Pfc7RxPauseDuration);
        }
        if str_eq(s, "SAI_PORT_STAT_PFC_7_TX_PAUSE_DURATION") {
            return Some(Self::Pfc7TxPauseDuration);
        }
        if str_eq(s, "SAI_PORT_STAT_PFC_0_RX_PAUSE_DURATION_US") {
            return Some(Self::Pfc0RxPauseDurationUs);
        }
        if str_eq(s, "SAI_PORT_STAT_PFC_0_TX_PAUSE_DURATION_US") {
            return Some(Self::Pfc0TxPauseDurationUs);
        }
        if str_eq(s, "SAI_PORT_STAT_PFC_1_RX_PAUSE_DURATION_US") {
            return Some(Self::Pfc1RxPauseDurationUs);
        }
        if str_eq(s, "SAI_PORT_STAT_PFC_1_TX_PAUSE_DURATION_US") {
            return Some(Self::Pfc1TxPauseDurationUs);
        }
        if str_eq(s, "SAI_PORT_STAT_PFC_2_RX_PAUSE_DURATION_US") {
            return Some(Self::Pfc2RxPauseDurationUs);
        }
        if str_eq(s, "SAI_PORT_STAT_PFC_2_TX_PAUSE_DURATION_US") {
            return Some(Self::Pfc2TxPauseDurationUs);
        }
        if str_eq(s, "SAI_PORT_STAT_PFC_3_RX_PAUSE_DURATION_US") {
            return Some(Self::Pfc3RxPauseDurationUs);
        }
        if str_eq(s, "SAI_PORT_STAT_PFC_3_TX_PAUSE_DURATION_US") {
            return Some(Self::Pfc3TxPauseDurationUs);
        }
        if str_eq(s, "SAI_PORT_STAT_PFC_4_RX_PAUSE_DURATION_US") {
            return Some(Self::Pfc4RxPauseDurationUs);
        }
        if str_eq(s, "SAI_PORT_STAT_PFC_4_TX_PAUSE_DURATION_US") {
            return Some(Self::Pfc4TxPauseDurationUs);
        }
        if str_eq(s, "SAI_PORT_STAT_PFC_5_RX_PAUSE_DURATION_US") {
            return Some(Self::Pfc5RxPauseDurationUs);
        }
        if str_eq(s, "SAI_PORT_STAT_PFC_5_TX_PAUSE_DURATION_US") {
            return Some(Self::Pfc5TxPauseDurationUs);
        }
        if str_eq(s, "SAI_PORT_STAT_PFC_6_RX_PAUSE_DURATION_US") {
            return Some(Self::Pfc6RxPauseDurationUs);
        }
        if str_eq(s, "SAI_PORT_STAT_PFC_6_TX_PAUSE_DURATION_US") {
            return Some(Self::Pfc6TxPauseDurationUs);
        }
        if str_eq(s, "SAI_PORT_STAT_PFC_7_RX_PAUSE_DURATION_US") {
            return Some(Self::Pfc7RxPauseDurationUs);
        }
        if str_eq(s, "SAI_PORT_STAT_PFC_7_TX_PAUSE_DURATION_US") {
            return Some(Self::Pfc7TxPauseDurationUs);
        }
        if str_eq(s, "SAI_PORT_STAT_PFC_0_ON2OFF_RX_PKTS") {
            return Some(Self::Pfc0On2OffRxPkts);
        }
        if str_eq(s, "SAI_PORT_STAT_PFC_1_ON2OFF_RX_PKTS") {
            return Some(Self::Pfc1On2OffRxPkts);
        }
        if str_eq(s, "SAI_PORT_STAT_PFC_2_ON2OFF_RX_PKTS") {
            return Some(Self::Pfc2On2OffRxPkts);
        }
        if str_eq(s, "SAI_PORT_STAT_PFC_3_ON2OFF_RX_PKTS") {
            return Some(Self::Pfc3On2OffRxPkts);
        }
        if str_eq(s, "SAI_PORT_STAT_PFC_4_ON2OFF_RX_PKTS") {
            return Some(Self::Pfc4On2OffRxPkts);
        }
        if str_eq(s, "SAI_PORT_STAT_PFC_5_ON2OFF_RX_PKTS") {
            return Some(Self::Pfc5On2OffRxPkts);
        }
        if str_eq(s, "SAI_PORT_STAT_PFC_6_ON2OFF_RX_PKTS") {
            return Some(Self::Pfc6On2OffRxPkts);
        }
        if str_eq(s, "SAI_PORT_STAT_PFC_7_ON2OFF_RX_PKTS") {
            return Some(Self::Pfc7On2OffRxPkts);
        }
        if str_eq(s, "SAI_PORT_STAT_DOT3_STATS_ALIGNMENT_ERRORS") {
            return Some(Self::Dot3StatsAlignmentErrors);
        }
        if str_eq(s, "SAI_PORT_STAT_DOT3_STATS_FCS_ERRORS") {
            return Some(Self::Dot3StatsFcsErrors);
        }
        if str_eq(s, "SAI_PORT_STAT_DOT3_STATS_SINGLE_COLLISION_FRAMES") {
            return Some(Self::Dot3StatsSingleCollisionFrames);
        }
        if str_eq(s, "SAI_PORT_STAT_DOT3_STATS_MULTIPLE_COLLISION_FRAMES") {
            return Some(Self::Dot3StatsMultipleCollisionFrames);
        }
        if str_eq(s, "SAI_PORT_STAT_DOT3_STATS_SQE_TEST_ERRORS") {
            return Some(Self::Dot3StatsSqeTestErrors);
        }
        if str_eq(s, "SAI_PORT_STAT_DOT3_STATS_DEFERRED_TRANSMISSIONS") {
            return Some(Self::Dot3StatsDeferredTransmissions);
        }
        if str_eq(s, "SAI_PORT_STAT_DOT3_STATS_LATE_COLLISIONS") {
            return Some(Self::Dot3StatsLateCollisions);
        }
        if str_eq(s, "SAI_PORT_STAT_DOT3_STATS_EXCESSIVE_COLLISIONS") {
            return Some(Self::Dot3StatsExcessiveCollisions);
        }
        if str_eq(s, "SAI_PORT_STAT_DOT3_STATS_INTERNAL_MAC_TRANSMIT_ERRORS") {
            return Some(Self::Dot3StatsInternalMacTransmitErrors);
        }
        if str_eq(s, "SAI_PORT_STAT_DOT3_STATS_CARRIER_SENSE_ERRORS") {
            return Some(Self::Dot3StatsCarrierSenseErrors);
        }
        if str_eq(s, "SAI_PORT_STAT_DOT3_STATS_FRAME_TOO_LONGS") {
            return Some(Self::Dot3StatsFrameTooLongs);
        }
        if str_eq(s, "SAI_PORT_STAT_DOT3_STATS_INTERNAL_MAC_RECEIVE_ERRORS") {
            return Some(Self::Dot3StatsInternalMacReceiveErrors);
        }
        if str_eq(s, "SAI_PORT_STAT_DOT3_STATS_SYMBOL_ERRORS") {
            return Some(Self::Dot3StatsSymbolErrors);
        }
        if str_eq(s, "SAI_PORT_STAT_DOT3_CONTROL_IN_UNKNOWN_OPCODES") {
            return Some(Self::Dot3ControlInUnknownOpcodes);
        }
        if str_eq(s, "SAI_PORT_STAT_EEE_TX_EVENT_COUNT") {
            return Some(Self::EeeTxEventCount);
        }
        if str_eq(s, "SAI_PORT_STAT_EEE_RX_EVENT_COUNT") {
            return Some(Self::EeeRxEventCount);
        }
        if str_eq(s, "SAI_PORT_STAT_EEE_TX_DURATION") {
            return Some(Self::EeeTxDuration);
        }
        if str_eq(s, "SAI_PORT_STAT_EEE_RX_DURATION") {
            return Some(Self::EeeRxDuration);
        }
        if str_eq(s, "SAI_PORT_STAT_PRBS_ERROR_COUNT") {
            return Some(Self::PrbsErrorCount);
        }
        if str_eq(s, "SAI_PORT_STAT_IF_IN_FEC_CORRECTABLE_FRAMES") {
            return Some(Self::IfInFecCorrectableFrames);
        }
        if str_eq(s, "SAI_PORT_STAT_IF_IN_FEC_NOT_CORRECTABLE_FRAMES") {
            return Some(Self::IfInFecNotCorrectableFrames);
        }
        if str_eq(s, "SAI_PORT_STAT_IF_IN_FEC_SYMBOL_ERRORS") {
            return Some(Self::IfInFecSymbolErrors);
        }
        if str_eq(s, "SAI_PORT_STAT_IF_IN_FABRIC_DATA_UNITS") {
            return Some(Self::IfInFabricDataUnits);
        }
        if str_eq(s, "SAI_PORT_STAT_IF_OUT_FABRIC_DATA_UNITS") {
            return Some(Self::IfOutFabricDataUnits);
        }
        if str_eq(s, "SAI_PORT_STAT_IF_IN_FEC_CODEWORD_ERRORS_S0") {
            return Some(Self::IfInFecCodewordErrorsS0);
        }
        if str_eq(s, "SAI_PORT_STAT_IF_IN_FEC_CODEWORD_ERRORS_S1") {
            return Some(Self::IfInFecCodewordErrorsS1);
        }
        if str_eq(s, "SAI_PORT_STAT_IF_IN_FEC_CODEWORD_ERRORS_S2") {
            return Some(Self::IfInFecCodewordErrorsS2);
        }
        if str_eq(s, "SAI_PORT_STAT_IF_IN_FEC_CODEWORD_ERRORS_S3") {
            return Some(Self::IfInFecCodewordErrorsS3);
        }
        if str_eq(s, "SAI_PORT_STAT_IF_IN_FEC_CODEWORD_ERRORS_S4") {
            return Some(Self::IfInFecCodewordErrorsS4);
        }
        if str_eq(s, "SAI_PORT_STAT_IF_IN_FEC_CODEWORD_ERRORS_S5") {
            return Some(Self::IfInFecCodewordErrorsS5);
        }
        if str_eq(s, "SAI_PORT_STAT_IF_IN_FEC_CODEWORD_ERRORS_S6") {
            return Some(Self::IfInFecCodewordErrorsS6);
        }
        if str_eq(s, "SAI_PORT_STAT_IF_IN_FEC_CODEWORD_ERRORS_S7") {
            return Some(Self::IfInFecCodewordErrorsS7);
        }
        if str_eq(s, "SAI_PORT_STAT_IF_IN_FEC_CODEWORD_ERRORS_S8") {
            return Some(Self::IfInFecCodewordErrorsS8);
        }
        if str_eq(s, "SAI_PORT_STAT_IF_IN_FEC_CODEWORD_ERRORS_S9") {
            return Some(Self::IfInFecCodewordErrorsS9);
        }
        if str_eq(s, "SAI_PORT_STAT_IF_IN_FEC_CODEWORD_ERRORS_S10") {
            return Some(Self::IfInFecCodewordErrorsS10);
        }
        if str_eq(s, "SAI_PORT_STAT_IF_IN_FEC_CODEWORD_ERRORS_S11") {
            return Some(Self::IfInFecCodewordErrorsS11);
        }
        if str_eq(s, "SAI_PORT_STAT_IF_IN_FEC_CODEWORD_ERRORS_S12") {
            return Some(Self::IfInFecCodewordErrorsS12);
        }
        if str_eq(s, "SAI_PORT_STAT_IF_IN_FEC_CODEWORD_ERRORS_S13") {
            return Some(Self::IfInFecCodewordErrorsS13);
        }
        if str_eq(s, "SAI_PORT_STAT_IF_IN_FEC_CODEWORD_ERRORS_S14") {
            return Some(Self::IfInFecCodewordErrorsS14);
        }
        if str_eq(s, "SAI_PORT_STAT_IF_IN_FEC_CODEWORD_ERRORS_S15") {
            return Some(Self::IfInFecCodewordErrorsS15);
        }
        if str_eq(s, "SAI_PORT_STAT_IF_IN_FEC_CODEWORD_ERRORS_S16") {
            return Some(Self::IfInFecCodewordErrorsS16);
        }
        if str_eq(s, "SAI_PORT_STAT_IF_IN_FEC_CORRECTED_BITS") {
            return Some(Self::IfInFecCorrectedBits);
        }
        if str_eq(s, "SAI_PORT_STAT_TRIM_PACKETS") {
            return Some(Self::TrimPackets);
        }
        if str_eq(s, "SAI_PORT_STAT_DROPPED_TRIM_PACKETS") {
            return Some(Self::DroppedTrimPackets);
        }
        if str_eq(s, "SAI_PORT_STAT_TX_TRIM_PACKETS") {
            return Some(Self::TxTrimPackets);
        }
        if str_eq(s, "SAI_PORT_STAT_IN_CONFIGURED_DROP_REASONS_0_DROPPED_PKTS") {
            return Some(Self::InConfiguredDropReasons0DroppedPkts);
        }
        if str_eq(s, "SAI_PORT_STAT_IN_CONFIGURED_DROP_REASONS_1_DROPPED_PKTS") {
            return Some(Self::InConfiguredDropReasons1DroppedPkts);
        }
        if str_eq(s, "SAI_PORT_STAT_IN_CONFIGURED_DROP_REASONS_2_DROPPED_PKTS") {
            return Some(Self::InConfiguredDropReasons2DroppedPkts);
        }
        if str_eq(s, "SAI_PORT_STAT_IN_CONFIGURED_DROP_REASONS_3_DROPPED_PKTS") {
            return Some(Self::InConfiguredDropReasons3DroppedPkts);
        }
        if str_eq(s, "SAI_PORT_STAT_IN_CONFIGURED_DROP_REASONS_4_DROPPED_PKTS") {
            return Some(Self::InConfiguredDropReasons4DroppedPkts);
        }
        if str_eq(s, "SAI_PORT_STAT_IN_CONFIGURED_DROP_REASONS_5_DROPPED_PKTS") {
            return Some(Self::InConfiguredDropReasons5DroppedPkts);
        }
        if str_eq(s, "SAI_PORT_STAT_IN_CONFIGURED_DROP_REASONS_6_DROPPED_PKTS") {
            return Some(Self::InConfiguredDropReasons6DroppedPkts);
        }
        if str_eq(s, "SAI_PORT_STAT_IN_CONFIGURED_DROP_REASONS_7_DROPPED_PKTS") {
            return Some(Self::InConfiguredDropReasons7DroppedPkts);
        }
        if str_eq(s, "SAI_PORT_STAT_IN_CONFIGURED_DROP_REASONS_8_DROPPED_PKTS") {
            return Some(Self::InConfiguredDropReasons8DroppedPkts);
        }
        if str_eq(s, "SAI_PORT_STAT_IN_CONFIGURED_DROP_REASONS_9_DROPPED_PKTS") {
            return Some(Self::InConfiguredDropReasons9DroppedPkts);
        }
        if str_eq(s, "SAI_PORT_STAT_IN_CONFIGURED_DROP_REASONS_10_DROPPED_PKTS") {
            return Some(Self::InConfiguredDropReasons10DroppedPkts);
        }
        if str_eq(s, "SAI_PORT_STAT_IN_CONFIGURED_DROP_REASONS_11_DROPPED_PKTS") {
            return Some(Self::InConfiguredDropReasons11DroppedPkts);
        }
        if str_eq(s, "SAI_PORT_STAT_IN_CONFIGURED_DROP_REASONS_12_DROPPED_PKTS") {
            return Some(Self::InConfiguredDropReasons12DroppedPkts);
        }
        if str_eq(s, "SAI_PORT_STAT_IN_CONFIGURED_DROP_REASONS_13_DROPPED_PKTS") {
            return Some(Self::InConfiguredDropReasons13DroppedPkts);
        }
        if str_eq(s, "SAI_PORT_STAT_IN_CONFIGURED_DROP_REASONS_14_DROPPED_PKTS") {
            return Some(Self::InConfiguredDropReasons14DroppedPkts);
        }
        if str_eq(s, "SAI_PORT_STAT_IN_CONFIGURED_DROP_REASONS_15_DROPPED_PKTS") {
            return Some(Self::InConfiguredDropReasons15DroppedPkts);
        }
        if str_eq(s, "SAI_PORT_STAT_OUT_CONFIGURED_DROP_REASONS_0_DROPPED_PKTS") {
            return Some(Self::OutConfiguredDropReasons0DroppedPkts);
        }
        if str_eq(s, "SAI_PORT_STAT_OUT_CONFIGURED_DROP_REASONS_1_DROPPED_PKTS") {
            return Some(Self::OutConfiguredDropReasons1DroppedPkts);
        }
        if str_eq(s, "SAI_PORT_STAT_OUT_CONFIGURED_DROP_REASONS_2_DROPPED_PKTS") {
            return Some(Self::OutConfiguredDropReasons2DroppedPkts);
        }
        if str_eq(s, "SAI_PORT_STAT_OUT_CONFIGURED_DROP_REASONS_3_DROPPED_PKTS") {
            return Some(Self::OutConfiguredDropReasons3DroppedPkts);
        }
        if str_eq(s, "SAI_PORT_STAT_OUT_CONFIGURED_DROP_REASONS_4_DROPPED_PKTS") {
            return Some(Self::OutConfiguredDropReasons4DroppedPkts);
        }
        if str_eq(s, "SAI_PORT_STAT_OUT_CONFIGURED_DROP_REASONS_5_DROPPED_PKTS") {
            return Some(Self::OutConfiguredDropReasons5DroppedPkts);
        }
        if str_eq(s, "SAI_PORT_STAT_OUT_CONFIGURED_DROP_REASONS_6_DROPPED_PKTS") {
            return Some(Self::OutConfiguredDropReasons6DroppedPkts);
        }
        if str_eq(s, "SAI_PORT_STAT_OUT_CONFIGURED_DROP_REASONS_7_DROPPED_PKTS") {
            return Some(Self::OutConfiguredDropReasons7DroppedPkts);
        }
        if str_eq(s, "SAI_PORT_STAT_IF_IN_HW_PROTECTION_SWITCHOVER_EVENTS") {
            return Some(Self::IfInHwProtectionSwitchoverEvents);
        }
        if str_eq(s, "SAI_PORT_STAT_IF_IN_HW_PROTECTION_SWITCHOVER_DROP_PKTS") {
            return Some(Self::IfInHwProtectionSwitchoverDropPkts);
        }
        if str_eq(s, "SAI_PORT_STAT_ETHER_IN_PKTS_1519_TO_2500_OCTETS") {
            return Some(Self::EtherInPkts1519To2500Octets);
        }
        if str_eq(s, "SAI_PORT_STAT_ETHER_IN_PKTS_2501_TO_9000_OCTETS") {
            return Some(Self::EtherInPkts2501To9000Octets);
        }
        if str_eq(s, "SAI_PORT_STAT_ETHER_IN_PKTS_9001_TO_16383_OCTETS") {
            return Some(Self::EtherInPkts9001To16383Octets);
        }
        if str_eq(s, "SAI_PORT_STAT_ETHER_OUT_PKTS_1519_TO_2500_OCTETS") {
            return Some(Self::EtherOutPkts1519To2500Octets);
        }
        if str_eq(s, "SAI_PORT_STAT_ETHER_OUT_PKTS_2501_TO_9000_OCTETS") {
            return Some(Self::EtherOutPkts2501To9000Octets);
        }
        if str_eq(s, "SAI_PORT_STAT_ETHER_OUT_PKTS_9001_TO_16383_OCTETS") {
            return Some(Self::EtherOutPkts9001To16383Octets);
        }
        if str_eq(s, "SAI_PORT_STAT_END") {
            return Some(Self::End);
        }
        proof {
            assert(Self::unlisted_name(s@));
            assert forall|v: Self| v.spec_c_name() != s@ by {
                Self::lemma_unlisted_name(v, s@);
            }
        }
        None
    }
}

impl std::str::FromStr for SaiPortStat {
    type Err = ();

    fn from_str(s: &str) -> Result<Self, ()> {
        match Self::parse_c_name(s) {
            Some(v) => Ok(v),
            None => Err(()),
        }
    }
}

} // verus!
