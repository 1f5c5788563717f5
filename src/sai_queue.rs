//! SAI queue statistics (`sai_queue_stat_t`).

use vstd::prelude::*;
use crate::text::str_eq;

verus! {

/// SAI queue statistics.
#[derive(Debug, Clone, Copy, PartialEq, Eq, Structural, Hash)]
pub enum SaiQueueStat {
    /// Get/set tx packets count [uint64_t]
    Packets,
    /// Get/set tx bytes count [uint64_t]
    Bytes,
    /// Get/set dropped packets count [uint64_t]
    DroppedPackets,
    /// Get/set dropped bytes count [uint64_t]
    DroppedBytes,
    /// Get/set green color tx packets count [uint64_t]
    GreenPackets,
    /// Get/set green color tx bytes count [uint64_t]
    GreenBytes,
    /// Get/set green color dropped packets count [uint64_t]
    GreenDroppedPackets,
    /// Get/set green color dropped bytes count [uint64_t]
    GreenDroppedBytes,
    /// Get/set yellow color tx packets count [uint64_t]
    YellowPackets,
    /// Get/set yellow color tx bytes count [uint64_t]
    YellowBytes,
    /// Get/set yellow color dropped packets count [uint64_t]
    YellowDroppedPackets,
    /// Get/set yellow color dropped bytes count [uint64_t]
    YellowDroppedBytes,
    /// Get/set red color tx packets count [uint64_t]
    RedPackets,
    /// Get/set red color tx bytes count [uint64_t]
    RedBytes,
    /// Get/set red color dropped packets count [uint64_t]
    RedDroppedPackets,
    /// Get/set red color dropped bytes count [uint64_t]
    RedDroppedBytes,
    /// Get/set WRED green color dropped packets count [uint64_t]
    GreenWredDroppedPackets,
    /// Get/set WRED green color dropped bytes count [uint64_t]
    GreenWredDroppedBytes,
    /// Get/set WRED yellow color dropped packets count [uint64_t]
    YellowWredDroppedPackets,
    /// Get/set WRED yellow color dropped bytes count [uint64_t]
    YellowWredDroppedBytes,
    /// Get/set WRED red color dropped packets count [uint64_t]
    RedWredDroppedPackets,
    /// Get/set WRED red color dropped bytes count [uint64_t]
    RedWredDroppedBytes,
    /// Get/set WRED dropped packets count [uint64_t]
    WredDroppedPackets,
    /// Get/set WRED dropped bytes count [uint64_t]
    WredDroppedBytes,
    /// Get current queue occupancy in bytes [uint64_t]
    CurrOccupancyBytes,
    /// Get watermark queue occupancy in bytes [uint64_t]
    WatermarkBytes,
    /// Get current queue shared occupancy in bytes [uint64_t]
    SharedCurrOccupancyBytes,
    /// Get watermark queue shared occupancy in bytes [uint64_t]
    SharedWatermarkBytes,
    /// Get/set WRED green color marked packets count [uint64_t]
    GreenWredEcnMarkedPackets,
    /// Get/set WRED green color marked bytes count [uint64_t]
    GreenWredEcnMarkedBytes,
    /// Get/set WRED yellow color marked packets count [uint64_t]
    YellowWredEcnMarkedPackets,
    /// Get/set WRED yellow color marked bytes count [uint64_t]
    YellowWredEcnMarkedBytes,
    /// Get/set WRED red color marked packets count [uint64_t]
    RedWredEcnMarkedPackets,
    /// Get/set WRED red color marked bytes count [uint64_t]
    RedWredEcnMarkedBytes,
    /// Get/set WRED marked packets count [uint64_t]
    WredEcnMarkedPackets,
    /// Get/set WRED marked bytes count [uint64_t]
    WredEcnMarkedBytes,
    /// Get current queue occupancy percentage [uint64_t]
    CurrOccupancyLevel,
    /// Get watermark queue occupancy percentage [uint64_t]
    WatermarkLevel,
    /// Get packets deleted when the credit watch dog expires for VOQ System [uint64_t]
    CreditWdDeletedPackets,
    /// Queue delay watermark in nanoseconds [uint64_t]
    DelayWatermarkNs,
    /// Packets trimmed due to failed admission [uint64_t]
    TrimPackets,
    /// Get current queue occupancy in cells [uint64_t]
    CurrOccupancyCells,
    /// Get watermark queue occupancy in cells [uint64_t]
    WatermarkCells,
    /// Get current queue shared occupancy in cells [uint64_t]
    SharedCurrOccupancyCells,
    /// Get watermark queue shared occupancy in cells [uint64_t]
    SharedWatermarkCells,
    /// Packets trimmed but failed to be admitted on a trim queue due to congestion [uint64_t]
    DroppedTrimPackets,
    /// Packets trimmed and successfully transmitted on a trim queue [uint64_t]
    TxTrimPackets,
    /// Custom range base value
    CustomRangeBase,
}

impl SaiQueueStat {
    /// Numeric identifier of the statistic.
    pub open spec fn spec_id(self) -> u32 {
        match self {
            Self::Packets => 0x00000000,
            Self::Bytes => 0x00000001,
            Self::DroppedPackets => 0x00000002,
            Self::DroppedBytes => 0x00000003,
            Self::GreenPackets => 0x00000004,
            Self::GreenBytes => 0x00000005,
            Self::GreenDroppedPackets => 0x00000006,
            Self::GreenDroppedBytes => 0x00000007,
            Self::YellowPackets => 0x00000008,
            Self::YellowBytes => 0x00000009,
            Self::YellowDroppedPackets => 0x0000000a,
            Self::YellowDroppedBytes => 0x0000000b,
            Self::RedPackets => 0x0000000c,
            Self::RedBytes => 0x0000000d,
            Self::RedDroppedPackets => 0x0000000e,
            Self::RedDroppedBytes => 0x0000000f,
            Self::GreenWredDroppedPackets => 0x00000010,
            Self::GreenWredDroppedBytes => 0x00000011,
            Self::YellowWredDroppedPackets => 0x00000012,
            Self::YellowWredDroppedBytes => 0x00000013,
            Self::RedWredDroppedPackets => 0x00000014,
            Self::RedWredDroppedBytes => 0x00000015,
            Self::WredDroppedPackets => 0x00000016,
            Self::WredDroppedBytes => 0x00000017,
            Self::CurrOccupancyBytes => 0x00000018,
            Self::WatermarkBytes => 0x00000019,
            Self::SharedCurrOccupancyBytes => 0x0000001a,
            Self::SharedWatermarkBytes => 0x0000001b,
            Self::GreenWredEcnMarkedPackets => 0x0000001c,
            Self::GreenWredEcnMarkedBytes => 0x0000001d,
            Self::YellowWredEcnMarkedPackets => 0x0000001e,
            Self::YellowWredEcnMarkedBytes => 0x0000001f,
            Self::RedWredEcnMarkedPackets => 0x00000020,
            Self::RedWredEcnMarkedBytes => 0x00000021,
            Self::WredEcnMarkedPackets => 0x00000022,
            Self::WredEcnMarkedBytes => 0x00000023,
            Self::CurrOccupancyLevel => 0x00000024,
            Self::WatermarkLevel => 0x00000025,
            Self::CreditWdDeletedPackets => 0x00000026,
            Self::DelayWatermarkNs => 0x00000027,
            Self::TrimPackets => 0x00000028,
            Self::CurrOccupancyCells => 0x00000029,
            Self::WatermarkCells => 0x0000002a,
            Self::SharedCurrOccupancyCells => 0x0000002b,
            Self::SharedWatermarkCells => 0x0000002c,
            Self::DroppedTrimPackets => 0x0000002d,
            Self::TxTrimPackets => 0x0000002e,
            Self::CustomRangeBase => 0x10000000,
        }
    }

    /// Name of the statistic in the C headers.
    pub open spec fn spec_c_name(self) -> Seq<char> {
        match self {
            Self::Packets => "SAI_QUEUE_STAT_PACKETS"@,
            Self::Bytes => "SAI_QUEUE_STAT_BYTES"@,
            Self::DroppedPackets => "SAI_QUEUE_STAT_DROPPED_PACKETS"@,
            Self::DroppedBytes => "SAI_QUEUE_STAT_DROPPED_BYTES"@,
            Self::GreenPackets => "SAI_QUEUE_STAT_GREEN_PACKETS"@,
            Self::GreenBytes => "SAI_QUEUE_STAT_GREEN_BYTES"@,
            Self::GreenDroppedPackets => "SAI_QUEUE_STAT_GREEN_DROPPED_PACKETS"@,
            Self::GreenDroppedBytes => "SAI_QUEUE_STAT_GREEN_DROPPED_BYTES"@,
            Self::YellowPackets => "SAI_QUEUE_STAT_YELLOW_PACKETS"@,
            Self::YellowBytes => "SAI_QUEUE_STAT_YELLOW_BYTES"@,
            Self::YellowDroppedPackets => "SAI_QUEUE_STAT_YELLOW_DROPPED_PACKETS"@,
            Self::YellowDroppedBytes => "SAI_QUEUE_STAT_YELLOW_DROPPED_BYTES"@,
            Self::RedPackets => "SAI_QUEUE_STAT_RED_PACKETS"@,
            Self::RedBytes => "SAI_QUEUE_STAT_RED_BYTES"@,
            Self::RedDroppedPackets => "SAI_QUEUE_STAT_RED_DROPPED_PACKETS"@,
            Self::RedDroppedBytes => "SAI_QUEUE_STAT_RED_DROPPED_BYTES"@,
            Self::GreenWredDroppedPackets => "SAI_QUEUE_STAT_GREEN_WRED_DROPPED_PACKETS"@,
            Self::GreenWredDroppedBytes => "SAI_QUEUE_STAT_GREEN_WRED_DROPPED_BYTES"@,
            Self::YellowWredDroppedPackets => "SAI_QUEUE_STAT_YELLOW_WRED_DROPPED_PACKETS"@,
            Self::YellowWredDroppedBytes => "SAI_QUEUE_STAT_YELLOW_WRED_DROPPED_BYTES"@,
            Self::RedWredDroppedPackets => "SAI_QUEUE_STAT_RED_WRED_DROPPED_PACKETS"@,
            Self::RedWredDroppedBytes => "SAI_QUEUE_STAT_RED_WRED_DROPPED_BYTES"@,
            Self::WredDroppedPackets => "SAI_QUEUE_STAT_WRED_DROPPED_PACKETS"@,
            Self::WredDroppedBytes => "SAI_QUEUE_STAT_WRED_DROPPED_BYTES"@,
            Self::CurrOccupancyBytes => "SAI_QUEUE_STAT_CURR_OCCUPANCY_BYTES"@,
            Self::WatermarkBytes => "SAI_QUEUE_STAT_WATERMARK_BYTES"@,
            Self::SharedCurrOccupancyBytes => "SAI_QUEUE_STAT_SHARED_CURR_OCCUPANCY_BYTES"@,
            Self::SharedWatermarkBytes => "SAI_QUEUE_STAT_SHARED_WATERMARK_BYTES"@,
            Self::GreenWredEcnMarkedPackets => "SAI_QUEUE_STAT_GREEN_WRED_ECN_MARKED_PACKETS"@,
            Self::GreenWredEcnMarkedBytes => "SAI_QUEUE_STAT_GREEN_WRED_ECN_MARKED_BYTES"@,
            Self::YellowWredEcnMarkedPackets => "SAI_QUEUE_STAT_YELLOW_WRED_ECN_MARKED_PACKETS"@,
            Self::YellowWredEcnMarkedBytes => "SAI_QUEUE_STAT_YELLOW_WRED_ECN_MARKED_BYTES"@,
            Self::RedWredEcnMarkedPackets => "SAI_QUEUE_STAT_RED_WRED_ECN_MARKED_PACKETS"@,
            Self::RedWredEcnMarkedBytes => "SAI_QUEUE_STAT_RED_WRED_ECN_MARKED_BYTES"@,
            Self::WredEcnMarkedPackets => "SAI_QUEUE_STAT_WRED_ECN_MARKED_PACKETS"@,
            Self::WredEcnMarkedBytes => "SAI_QUEUE_STAT_WRED_ECN_MARKED_BYTES"@,
            Self::CurrOccupancyLevel => "SAI_QUEUE_STAT_CURR_OCCUPANCY_LEVEL"@,
            Self::WatermarkLevel => "SAI_QUEUE_STAT_WATERMARK_LEVEL"@,
            Self::CreditWdDeletedPackets => "SAI_QUEUE_STAT_CREDIT_WD_DELETED_PACKETS"@,
            Self::DelayWatermarkNs => "SAI_QUEUE_STAT_DELAY_WATERMARK_NS"@,
            Self::TrimPackets => "SAI_QUEUE_STAT_TRIM_PACKETS"@,
            Self::CurrOccupancyCells => "SAI_QUEUE_STAT_CURR_OCCUPANCY_CELLS"@,
            Self::WatermarkCells => "SAI_QUEUE_STAT_WATERMARK_CELLS"@,
            Self::SharedCurrOccupancyCells => "SAI_QUEUE_STAT_SHARED_CURR_OCCUPANCY_CELLS"@,
            Self::SharedWatermarkCells => "SAI_QUEUE_STAT_SHARED_WATERMARK_CELLS"@,
            Self::DroppedTrimPackets => "SAI_QUEUE_STAT_DROPPED_TRIM_PACKETS"@,
            Self::TxTrimPackets => "SAI_QUEUE_STAT_TX_TRIM_PACKETS"@,
            Self::CustomRangeBase => "SAI_QUEUE_STAT_CUSTOM_RANGE_BASE"@,
        }
    }

    /// The statistic with numeric identifier `value`, if any.
    pub fn from_u32(value: u32) -> (r: Option<Self>)
        ensures
            r matches Some(v) ==> v.spec_id() == value,
            r is None ==> forall|v: Self| v.spec_id() != value,
    {
        match value {
            0x00000000 => Some(Self::Packets),
            0x00000001 => Some(Self::Bytes),
            0x00000002 => Some(Self::DroppedPackets),
            0x00000003 => Some(Self::DroppedBytes),
            0x00000004 => Some(Self::GreenPackets),
            0x00000005 => Some(Self::GreenBytes),
            0x00000006 => Some(Self::GreenDroppedPackets),
            0x00000007 => Some(Self::GreenDroppedBytes),
            0x00000008 => Some(Self::YellowPackets),
            0x00000009 => Some(Self::YellowBytes),
            0x0000000a => Some(Self::YellowDroppedPackets),
            0x0000000b => Some(Self::YellowDroppedBytes),
            0x0000000c => Some(Self::RedPackets),
            0x0000000d => Some(Self::RedBytes),
            0x0000000e => Some(Self::RedDroppedPackets),
            0x0000000f => Some(Self::RedDroppedBytes),
            0x00000010 => Some(Self::GreenWredDroppedPackets),
            0x00000011 => Some(Self::GreenWredDroppedBytes),
            0x00000012 => Some(Self::YellowWredDroppedPackets),
            0x00000013 => Some(Self::YellowWredDroppedBytes),
            0x00000014 => Some(Self::RedWredDroppedPackets),
            0x00000015 => Some(Self::RedWredDroppedBytes),
            0x00000016 => Some(Self::WredDroppedPackets),
            0x00000017 => Some(Self::WredDroppedBytes),
            0x00000018 => Some(Self::CurrOccupancyBytes),
            0x00000019 => Some(Self::WatermarkBytes),
            0x0000001a => Some(Self::SharedCurrOccupancyBytes),
            0x0000001b => Some(Self::SharedWatermarkBytes),
            0x0000001c => Some(Self::GreenWredEcnMarkedPackets),
            0x0000001d => Some(Self::GreenWredEcnMarkedBytes),
            0x0000001e => Some(Self::YellowWredEcnMarkedPackets),
            0x0000001f => Some(Self::YellowWredEcnMarkedBytes),
            0x00000020 => Some(Self::RedWredEcnMarkedPackets),
            0x00000021 => Some(Self::RedWredEcnMarkedBytes),
            0x00000022 => Some(Self::WredEcnMarkedPackets),
            0x00000023 => Some(Self::WredEcnMarkedBytes),
            0x00000024 => Some(Self::CurrOccupancyLevel),
            0x00000025 => Some(Self::WatermarkLevel),
            0x00000026 => Some(Self::CreditWdDeletedPackets),
            0x00000027 => Some(Self::DelayWatermarkNs),
            0x00000028 => Some(Self::TrimPackets),
            0x00000029 => Some(Self::CurrOccupancyCells),
            0x0000002a => Some(Self::WatermarkCells),
            0x0000002b => Some(Self::SharedCurrOccupancyCells),
            0x0000002c => Some(Self::SharedWatermarkCells),
            0x0000002d => Some(Self::DroppedTrimPackets),
            0x0000002e => Some(Self::TxTrimPackets),
            0x10000000 => Some(Self::CustomRangeBase),
            _ => {
                proof {
                    assert(Self::unlisted_id(value));
                    assert forall|v: Self| v.spec_id() != value by {
                        Self::lemma_unlisted_id(v, value);
                    }
                }
                None
            },
        }
    }

    /// Whether `value` is the identifier of no statistic.
    pub open spec fn unlisted_id(value: u32) -> bool {
        &&& value != 0x00000000
        &&& value != 0x00000001
        &&& value != 0x00000002
        &&& value != 0x00000003
        &&& value != 0x00000004
        &&& value != 0x00000005
        &&& value != 0x00000006
        &&& value != 0x00000007
        &&& value != 0x00000008
        &&& value != 0x00000009
        &&& value != 0x0000000a
        &&& value != 0x0000000b
        &&& value != 0x0000000c
        &&& value != 0x0000000d
        &&& value != 0x0000000e
        &&& value != 0x0000000f
        &&& value != 0x00000010
        &&& value != 0x00000011
        &&& value != 0x00000012
        &&& value != 0x00000013
        &&& value != 0x00000014
        &&& value != 0x00000015
        &&& value != 0x00000016
        &&& value != 0x00000017
        &&& value != 0x00000018
        &&& value != 0x00000019
        &&& value != 0x0000001a
        &&& value != 0x0000001b
        &&& value != 0x0000001c
        &&& value != 0x0000001d
        &&& value != 0x0000001e
        &&& value != 0x0000001f
        &&& value != 0x00000020
        &&& value != 0x00000021
        &&& value != 0x00000022
        &&& value != 0x00000023
        &&& value != 0x00000024
        &&& value != 0x00000025
        &&& value != 0x00000026
        &&& value != 0x00000027
        &&& value != 0x00000028
        &&& value != 0x00000029
        &&& value != 0x0000002a
        &&& value != 0x0000002b
        &&& value != 0x0000002c
        &&& value != 0x0000002d
        &&& value != 0x0000002e
        &&& value != 0x10000000
    }

    proof fn lemma_unlisted_id(v: Self, value: u32)
        requires
            Self::unlisted_id(value),
        ensures
            v.spec_id() != value,
    {
        match v {
            Self::Packets => {},
            Self::Bytes => {},
            Self::DroppedPackets => {},
            Self::DroppedBytes => {},
            Self::GreenPackets => {},
            Self::GreenBytes => {},
            Self::GreenDroppedPackets => {},
            Self::GreenDroppedBytes => {},
            Self::YellowPackets => {},
            Self::YellowBytes => {},
            Self::YellowDroppedPackets => {},
            Self::YellowDroppedBytes => {},
            Self::RedPackets => {},
            Self::RedBytes => {},
            Self::RedDroppedPackets => {},
            Self::RedDroppedBytes => {},
            Self::GreenWredDroppedPackets => {},
            Self::GreenWredDroppedBytes => {},
            Self::YellowWredDroppedPackets => {},
            Self::YellowWredDroppedBytes => {},
            Self::RedWredDroppedPackets => {},
            Self::RedWredDroppedBytes => {},
            Self::WredDroppedPackets => {},
            Self::WredDroppedBytes => {},
            Self::CurrOccupancyBytes => {},
            Self::WatermarkBytes => {},
            Self::SharedCurrOccupancyBytes => {},
            Self::SharedWatermarkBytes => {},
            Self::GreenWredEcnMarkedPackets => {},
            Self::GreenWredEcnMarkedBytes => {},
            Self::YellowWredEcnMarkedPackets => {},
            Self::YellowWredEcnMarkedBytes => {},
            Self::RedWredEcnMarkedPackets => {},
            Self::RedWredEcnMarkedBytes => {},
            Self::WredEcnMarkedPackets => {},
            Self::WredEcnMarkedBytes => {},
            Self::CurrOccupancyLevel => {},
            Self::WatermarkLevel => {},
            Self::CreditWdDeletedPackets => {},
            Self::DelayWatermarkNs => {},
            Self::TrimPackets => {},
            Self::CurrOccupancyCells => {},
            Self::WatermarkCells => {},
            Self::SharedCurrOccupancyCells => {},
            Self::SharedWatermarkCells => {},
            Self::DroppedTrimPackets => {},
            Self::TxTrimPackets => {},
            Self::CustomRangeBase => {},
        }
    }

    /// Whether `s` is the C name of no statistic.
    pub open spec fn unlisted_name(s: Seq<char>) -> bool {
        &&& s != "SAI_QUEUE_STAT_PACKETS"@
        &&& s != "SAI_QUEUE_STAT_BYTES"@
        &&& s != "SAI_QUEUE_STAT_DROPPED_PACKETS"@
        &&& s != "SAI_QUEUE_STAT_DROPPED_BYTES"@
        &&& s != "SAI_QUEUE_STAT_GREEN_PACKETS"@
        &&& s != "SAI_QUEUE_STAT_GREEN_BYTES"@
        &&& s != "SAI_QUEUE_STAT_GREEN_DROPPED_PACKETS"@
        &&& s != "SAI_QUEUE_STAT_GREEN_DROPPED_BYTES"@
        &&& s != "SAI_QUEUE_STAT_YELLOW_PACKETS"@
        &&& s != "SAI_QUEUE_STAT_YELLOW_BYTES"@
        &&& s != "SAI_QUEUE_STAT_YELLOW_DROPPED_PACKETS"@
        &&& s != "SAI_QUEUE_STAT_YELLOW_DROPPED_BYTES"@
        &&& s != "SAI_QUEUE_STAT_RED_PACKETS"@
        &&& s != "SAI_QUEUE_STAT_RED_BYTES"@
        &&& s != "SAI_QUEUE_STAT_RED_DROPPED_PACKETS"@
        &&& s != "SAI_QUEUE_STAT_RED_DROPPED_BYTES"@
        &&& s != "SAI_QUEUE_STAT_GREEN_WRED_DROPPED_PACKETS"@
        &&& s != "SAI_QUEUE_STAT_GREEN_WRED_DROPPED_BYTES"@
        &&& s != "SAI_QUEUE_STAT_YELLOW_WRED_DROPPED_PACKETS"@
        &&& s != "SAI_QUEUE_STAT_YELLOW_WRED_DROPPED_BYTES"@
        &&& s != "SAI_QUEUE_STAT_RED_WRED_DROPPED_PACKETS"@
        &&& s != "SAI_QUEUE_STAT_RED_WRED_DROPPED_BYTES"@
        &&& s != "SAI_QUEUE_STAT_WRED_DROPPED_PACKETS"@
        &&& s != "SAI_QUEUE_STAT_WRED_DROPPED_BYTES"@
        &&& s != "SAI_QUEUE_STAT_CURR_OCCUPANCY_BYTES"@
        &&& s != "SAI_QUEUE_STAT_WATERMARK_BYTES"@
        &&& s != "SAI_QUEUE_STAT_SHARED_CURR_OCCUPANCY_BYTES"@
        &&& s != "SAI_QUEUE_STAT_SHARED_WATERMARK_BYTES"@
        &&& s != "SAI_QUEUE_STAT_GREEN_WRED_ECN_MARKED_PACKETS"@
        &&& s != "SAI_QUEUE_STAT_GREEN_WRED_ECN_MARKED_BYTES"@
        &&& s != "SAI_QUEUE_STAT_YELLOW_WRED_ECN_MARKED_PACKETS"@
        &&& s != "SAI_QUEUE_STAT_YELLOW_WRED_ECN_MARKED_BYTES"@
        &&& s != "SAI_QUEUE_STAT_RED_WRED_ECN_MARKED_PACKETS"@
        &&& s != "SAI_QUEUE_STAT_RED_WRED_ECN_MARKED_BYTES"@
        &&& s != "SAI_QUEUE_STAT_WRED_ECN_MARKED_PACKETS"@
        &&& s != "SAI_QUEUE_STAT_WRED_ECN_MARKED_BYTES"@
        &&& s != "SAI_QUEUE_STAT_CURR_OCCUPANCY_LEVEL"@
        &&& s != "SAI_QUEUE_STAT_WATERMARK_LEVEL"@
        &&& s != "SAI_QUEUE_STAT_CREDIT_WD_DELETED_PACKETS"@
        &&& s != "SAI_QUEUE_STAT_DELAY_WATERMARK_NS"@
        &&& s != "SAI_QUEUE_STAT_TRIM_PACKETS"@
        &&& s != "SAI_QUEUE_STAT_CURR_OCCUPANCY_CELLS"@
        &&& s != "SAI_QUEUE_STAT_WATERMARK_CELLS"@
        &&& s != "SAI_QUEUE_STAT_SHARED_CURR_OCCUPANCY_CELLS"@
        &&& s != "SAI_QUEUE_STAT_SHARED_WATERMARK_CELLS"@
        &&& s != "SAI_QUEUE_STAT_DROPPED_TRIM_PACKETS"@
        &&& s != "SAI_QUEUE_STAT_TX_TRIM_PACKETS"@
        &&& s != "SAI_QUEUE_STAT_CUSTOM_RANGE_BASE"@
    }

    proof fn lemma_unlisted_name(v: Self, s: Seq<char>)
        requires
            Self::unlisted_name(s),
        ensures
            v.spec_c_name() != s,
    {
        match v {
            Self::Packets => {},
            Self::Bytes => {},
            Self::DroppedPackets => {},
            Self::DroppedBytes => {},
            Self::GreenPackets => {},
            Self::GreenBytes => {},
            Self::GreenDroppedPackets => {},
            Self::GreenDroppedBytes => {},
            Self::YellowPackets => {},
            Self::YellowBytes => {},
            Self::YellowDroppedPackets => {},
            Self::YellowDroppedBytes => {},
            Self::RedPackets => {},
            Self::RedBytes => {},
            Self::RedDroppedPackets => {},
            Self::RedDroppedBytes => {},
            Self::GreenWredDroppedPackets => {},
            Self::GreenWredDroppedBytes => {},
            Self::YellowWredDroppedPackets => {},
            Self::YellowWredDroppedBytes => {},
            Self::RedWredDroppedPackets => {},
            Self::RedWredDroppedBytes => {},
            Self::WredDroppedPackets => {},
            Self::WredDroppedBytes => {},
            Self::CurrOccupancyBytes => {},
            Self::WatermarkBytes => {},
            Self::SharedCurrOccupancyBytes => {},
            Self::SharedWatermarkBytes => {},
            Self::GreenWredEcnMarkedPackets => {},
            Self::GreenWredEcnMarkedBytes => {},
            Self::YellowWredEcnMarkedPackets => {},
            Self::YellowWredEcnMarkedBytes => {},
            Self::RedWredEcnMarkedPackets => {},
            Self::RedWredEcnMarkedBytes => {},
            Self::WredEcnMarkedPackets => {},
            Self::WredEcnMarkedBytes => {},
            Self::CurrOccupancyLevel => {},
            Self::WatermarkLevel => {},
            Self::CreditWdDeletedPackets => {},
            Self::DelayWatermarkNs => {},
            Self::TrimPackets => {},
            Self::CurrOccupancyCells => {},
            Self::WatermarkCells => {},
            Self::SharedCurrOccupancyCells => {},
            Self::SharedWatermarkCells => {},
            Self::DroppedTrimPackets => {},
            Self::TxTrimPackets => {},
            Self::CustomRangeBase => {},
        }
    }

    pub fn to_u32(self) -> (r: u32)
        ensures
            r == self.spec_id(),
    {
        match self {
            Self::Packets => 0x00000000,
            Self::Bytes => 0x00000001,
            Self::DroppedPackets => 0x00000002,
            Self::DroppedBytes => 0x00000003,
            Self::GreenPackets => 0x00000004,
            Self::GreenBytes => 0x00000005,
            Self::GreenDroppedPackets => 0x00000006,
            Self::GreenDroppedBytes => 0x00000007,
            Self::YellowPackets => 0x00000008,
            Self::YellowBytes => 0x00000009,
            Self::YellowDroppedPackets => 0x0000000a,
            Self::YellowDroppedBytes => 0x0000000b,
            Self::RedPackets => 0x0000000c,
            Self::RedBytes => 0x0000000d,
            Self::RedDroppedPackets => 0x0000000e,
            Self::RedDroppedBytes => 0x0000000f,
            Self::GreenWredDroppedPackets => 0x00000010,
            Self::GreenWredDroppedBytes => 0x00000011,
            Self::YellowWredDroppedPackets => 0x00000012,
            Self::YellowWredDroppedBytes => 0x00000013,
            Self::RedWredDroppedPackets => 0x00000014,
            Self::RedWredDroppedBytes => 0x00000015,
            Self::WredDroppedPackets => 0x00000016,
            Self::WredDroppedBytes => 0x00000017,
            Self::CurrOccupancyBytes => 0x00000018,
            Self::WatermarkBytes => 0x00000019,
            Self::SharedCurrOccupancyBytes => 0x0000001a,
            Self::SharedWatermarkBytes => 0x0000001b,
            Self::GreenWredEcnMarkedPackets => 0x0000001c,
            Self::GreenWredEcnMarkedBytes => 0x0000001d,
            Self::YellowWredEcnMarkedPackets => 0x0000001e,
            Self::YellowWredEcnMarkedBytes => 0x0000001f,
            Self::RedWredEcnMarkedPackets => 0x00000020,
            Self::RedWredEcnMarkedBytes => 0x00000021,
            Self::WredEcnMarkedPackets => 0x00000022,
            Self::WredEcnMarkedBytes => 0x00000023,
            Self::CurrOccupancyLevel => 0x00000024,
            Self::WatermarkLevel => 0x00000025,
            Self::CreditWdDeletedPackets => 0x00000026,
            Self::DelayWatermarkNs => 0x00000027,
            Self::TrimPackets => 0x00000028,
            Self::CurrOccupancyCells => 0x00000029,
            Self::WatermarkCells => 0x0000002a,
            Self::SharedCurrOccupancyCells => 0x0000002b,
            Self::SharedWatermarkCells => 0x0000002c,
            Self::DroppedTrimPackets => 0x0000002d,
            Self::TxTrimPackets => 0x0000002e,
            Self::CustomRangeBase => 0x10000000,
        }
    }

    pub fn to_c_name(self) -> (r: &'static str)
        ensures
            r@ == self.spec_c_name(),
    {
        match self {
            Self::Packets => "SAI_QUEUE_STAT_PACKETS",
            Self::Bytes => "SAI_QUEUE_STAT_BYTES",
            Self::DroppedPackets => "SAI_QUEUE_STAT_DROPPED_PACKETS",
            Self::DroppedBytes => "SAI_QUEUE_STAT_DROPPED_BYTES",
            Self::GreenPackets => "SAI_QUEUE_STAT_GREEN_PACKETS",
            Self::GreenBytes => "SAI_QUEUE_STAT_GREEN_BYTES",
            Self::GreenDroppedPackets => "SAI_QUEUE_STAT_GREEN_DROPPED_PACKETS",
            Self::GreenDroppedBytes => "SAI_QUEUE_STAT_GREEN_DROPPED_BYTES",
            Self::YellowPackets => "SAI_QUEUE_STAT_YELLOW_PACKETS",
            Self::YellowBytes => "SAI_QUEUE_STAT_YELLOW_BYTES",
            Self::YellowDroppedPackets => "SAI_QUEUE_STAT_YELLOW_DROPPED_PACKETS",
            Self::YellowDroppedBytes => "SAI_QUEUE_STAT_YELLOW_DROPPED_BYTES",
            Self::RedPackets => "SAI_QUEUE_STAT_RED_PACKETS",
            Self::RedBytes => "SAI_QUEUE_STAT_RED_BYTES",
            Self::RedDroppedPackets => "SAI_QUEUE_STAT_RED_DROPPED_PACKETS",
            Self::RedDroppedBytes => "SAI_QUEUE_STAT_RED_DROPPED_BYTES",
            Self::GreenWredDroppedPackets => "SAI_QUEUE_STAT_GREEN_WRED_DROPPED_PACKETS",
            Self::GreenWredDroppedBytes => "SAI_QUEUE_STAT_GREEN_WRED_DROPPED_BYTES",
            Self::YellowWredDroppedPackets => "SAI_QUEUE_STAT_YELLOW_WRED_DROPPED_PACKETS",
            Self::YellowWredDroppedBytes => "SAI_QUEUE_STAT_YELLOW_WRED_DROPPED_BYTES",
            Self::RedWredDroppedPackets => "SAI_QUEUE_STAT_RED_WRED_DROPPED_PACKETS",
            Self::RedWredDroppedBytes => "SAI_QUEUE_STAT_RED_WRED_DROPPED_BYTES",
            Self::WredDroppedPackets => "SAI_QUEUE_STAT_WRED_DROPPED_PACKETS",
            Self::WredDroppedBytes => "SAI_QUEUE_STAT_WRED_DROPPED_BYTES",
            Self::CurrOccupancyBytes => "SAI_QUEUE_STAT_CURR_OCCUPANCY_BYTES",
            Self::WatermarkBytes => "SAI_QUEUE_STAT_WATERMARK_BYTES",
            Self::SharedCurrOccupancyBytes => "SAI_QUEUE_STAT_SHARED_CURR_OCCUPANCY_BYTES",
            Self::SharedWatermarkBytes => "SAI_QUEUE_STAT_SHARED_WATERMARK_BYTES",
            Self::GreenWredEcnMarkedPackets => "SAI_QUEUE_STAT_GREEN_WRED_ECN_MARKED_PACKETS",
            Self::GreenWredEcnMarkedBytes => "SAI_QUEUE_STAT_GREEN_WRED_ECN_MARKED_BYTES",
            Self::YellowWredEcnMarkedPackets => "SAI_QUEUE_STAT_YELLOW_WRED_ECN_MARKED_PACKETS",
            Self::YellowWredEcnMarkedBytes => "SAI_QUEUE_STAT_YELLOW_WRED_ECN_MARKED_BYTES",
            Self::RedWredEcnMarkedPackets => "SAI_QUEUE_STAT_RED_WRED_ECN_MARKED_PACKETS",
            Self::RedWredEcnMarkedBytes => "SAI_QUEUE_STAT_RED_WRED_ECN_MARKED_BYTES",
            Self::WredEcnMarkedPackets => "SAI_QUEUE_STAT_WRED_ECN_MARKED_PACKETS",
            Self::WredEcnMarkedBytes => "SAI_QUEUE_STAT_WRED_ECN_MARKED_BYTES",
            Self::CurrOccupancyLevel => "SAI_QUEUE_STAT_CURR_OCCUPANCY_LEVEL",
            Self::WatermarkLevel => "SAI_QUEUE_STAT_WATERMARK_LEVEL",
            Self::CreditWdDeletedPackets => "SAI_QUEUE_STAT_CREDIT_WD_DELETED_PACKETS",
            Self::DelayWatermarkNs => "SAI_QUEUE_STAT_DELAY_WATERMARK_NS",
            Self::TrimPackets => "SAI_QUEUE_STAT_TRIM_PACKETS",
            Self::CurrOccupancyCells => "SAI_QUEUE_STAT_CURR_OCCUPANCY_CELLS",
            Self::WatermarkCells => "SAI_QUEUE_STAT_WATERMARK_CELLS",
            Self::SharedCurrOccupancyCells => "SAI_QUEUE_STAT_SHARED_CURR_OCCUPANCY_CELLS",
            Self::SharedWatermarkCells => "SAI_QUEUE_STAT_SHARED_WATERMARK_CELLS",
            Self::DroppedTrimPackets => "SAI_QUEUE_STAT_DROPPED_TRIM_PACKETS",
            Self::TxTrimPackets => "SAI_QUEUE_STAT_TX_TRIM_PACKETS",
            Self::CustomRangeBase => "SAI_QUEUE_STAT_CUSTOM_RANGE_BASE",
        }
    }

    /// The statistic whose C name is `s`, if any.
    pub fn parse_c_name(s: &str) -> (r: Option<Self>)
        ensures
            r matches Some(v) ==> v.spec_c_name() == s@,
            r is None ==> forall|v: Self| v.spec_c_name() != s@,
    {
        if str_eq(s, "SAI_QUEUE_STAT_PACKETS") {
            return Some(Self::Packets);
        }
        if str_eq(s, "SAI_QUEUE_STAT_BYTES") {
            return Some(Self::Bytes);
        }
        if str_eq(s, "SAI_QUEUE_STAT_DROPPED_PACKETS") {
            return Some(Self::DroppedPackets);
        }
        if str_eq(s, "SAI_QUEUE_STAT_DROPPED_BYTES") {
            return Some(Self::DroppedBytes);
        }
        if str_eq(s, "SAI_QUEUE_STAT_GREEN_PACKETS") {
            return Some(Self::GreenPackets);
        }
        if str_eq(s, "SAI_QUEUE_STAT_GREEN_BYTES") {
            return Some(Self::GreenBytes);
        }
        if str_eq(s, "SAI_QUEUE_STAT_GREEN_DROPPED_PACKETS") {
            return Some(Self::GreenDroppedPackets);
        }
        if str_eq(s, "SAI_QUEUE_STAT_GREEN_DROPPED_BYTES") {
            return Some(Self::GreenDroppedBytes);
        }
        if str_eq(s, "SAI_QUEUE_STAT_YELLOW_PACKETS") {
            return Some(Self::YellowPackets);
        }
        if str_eq(s, "SAI_QUEUE_STAT_YELLOW_BYTES") {
            return Some(Self::YellowBytes);
        }
        if str_eq(s, "SAI_QUEUE_STAT_YELLOW_DROPPED_PACKETS") {
            return Some(Self::YellowDroppedPackets);
        }
        if str_eq(s, "SAI_QUEUE_STAT_YELLOW_DROPPED_BYTES") {
            return Some(Self::YellowDroppedBytes);
        }
        if str_eq(s, "SAI_QUEUE_STAT_RED_PACKETS") {
            return Some(Self::RedPackets);
        }
        if str_eq(s, "SAI_QUEUE_STAT_RED_BYTES") {
            return Some(Self::RedBytes);
        }
        if str_eq(s, "SAI_QUEUE_STAT_RED_DROPPED_PACKETS") {
            return Some(Self::RedDroppedPackets);
        }
        if str_eq(s, "SAI_QUEUE_STAT_RED_DROPPED_BYTES") {
            return Some(Self::RedDroppedBytes);
        }
        if str_eq(s, "SAI_QUEUE_STAT_GREEN_WRED_DROPPED_PACKETS") {
            return Some(Self::GreenWredDroppedPackets);
        }
        if str_eq(s, "SAI_QUEUE_STAT_GREEN_WRED_DROPPED_BYTES") {
            return Some(Self::GreenWredDroppedBytes);
        }
        if str_eq(s, "SAI_QUEUE_STAT_YELLOW_WRED_DROPPED_PACKETS") {
            return Some(Self::YellowWredDroppedPackets);
        }
        if str_eq(s, "SAI_QUEUE_STAT_YELLOW_WRED_DROPPED_BYTES") {
            return Some(Self::YellowWredDroppedBytes);
        }
        if str_eq(s, "SAI_QUEUE_STAT_RED_WRED_DROPPED_PACKETS") {
            return Some(Self::RedWredDroppedPackets);
        }
        if str_eq(s, "SAI_QUEUE_STAT_RED_WRED_DROPPED_BYTES") {
            return Some(Self::RedWredDroppedBytes);
        }
        if str_eq(s, "SAI_QUEUE_STAT_WRED_DROPPED_PACKETS") {
            return Some(Self::WredDroppedPackets);
        }
        if str_eq(s, "SAI_QUEUE_STAT_WRED_DROPPED_BYTES") {
            return Some(Self::WredDroppedBytes);
        }
        if str_eq(s, "SAI_QUEUE_STAT_CURR_OCCUPANCY_BYTES") {
            return Some(Self::CurrOccupancyBytes);
        }
        if str_eq(s, "SAI_QUEUE_STAT_WATERMARK_BYTES") {
            return Some(Self::WatermarkBytes);
        }
        if str_eq(s, "SAI_QUEUE_STAT_SHARED_CURR_OCCUPANCY_BYTES") {
            return Some(Self::SharedCurrOccupancyBytes);
        }
        if str_eq(s, "SAI_QUEUE_STAT_SHARED_WATERMARK_BYTES") {
            return Some(Self::SharedWatermarkBytes);
        }
        if str_eq(s, "SAI_QUEUE_STAT_GREEN_WRED_ECN_MARKED_PACKETS") {
            return Some(Self::GreenWredEcnMarkedPackets);
        }
        if str_eq(s, "SAI_QUEUE_STAT_GREEN_WRED_ECN_MARKED_BYTES") {
            return Some(Self::GreenWredEcnMarkedBytes);
        }
        if str_eq(s, "SAI_QUEUE_STAT_YELLOW_WRED_ECN_MARKED_PACKETS") {
            return Some(Self::YellowWredEcnMarkedPackets);
        }
        if str_eq(s, "SAI_QUEUE_STAT_YELLOW_WRED_ECN_MARKED_BYTES") {
            return Some(Self::YellowWredEcnMarkedBytes);
        }
        if str_eq(s, "SAI_QUEUE_STAT_RED_WRED_ECN_MARKED_PACKETS") {
            return Some(Self::RedWredEcnMarkedPackets);
        }
        if str_eq(s, "SAI_QUEUE_STAT_RED_WRED_ECN_MARKED_BYTES") {
            return Some(Self::RedWredEcnMarkedBytes);
        }
        if str_eq(s, "SAI_QUEUE_STAT_WRED_ECN_MARKED_PACKETS") {
            return Some(Self::WredEcnMarkedPackets);
        }
        if str_eq(s, "SAI_QUEUE_STAT_WRED_ECN_MARKED_BYTES") {
            return Some(Self::WredEcnMarkedBytes);
        }
        if str_eq(s, "SAI_QUEUE_STAT_CURR_OCCUPANCY_LEVEL") {
            return Some(Self::CurrOccupancyLevel);
        }
        if str_eq(s, "SAI_QUEUE_STAT_WATERMARK_LEVEL") {
            return Some(Self::WatermarkLevel);
        }
        if str_eq(s, "SAI_QUEUE_STAT_CREDIT_WD_DELETED_PACKETS") {
            return Some(Self::CreditWdDeletedPackets);
        }
        if str_eq(s, "SAI_QUEUE_STAT_DELAY_WATERMARK_NS") {
            return Some(Self::DelayWatermarkNs);
        }
        if str_eq(s, "SAI_QUEUE_STAT_TRIM_PACKETS") {
            return Some(Self::TrimPackets);
        }
        if str_eq(s, "SAI_QUEUE_STAT_CURR_OCCUPANCY_CELLS") {
            return Some(Self::CurrOccupancyCells);
        }
        if str_eq(s, "SAI_QUEUE_STAT_WATERMARK_CELLS") {
            return Some(Self::WatermarkCells);
        }
        if str_eq(s, "SAI_QUEUE_STAT_SHARED_CURR_OCCUPANCY_CELLS") {
            return Some(Self::SharedCurrOccupancyCells);
        }
        if str_eq(s, "SAI_QUEUE_STAT_SHARED_WATERMARK_CELLS") {
            return Some(Self::SharedWatermarkCells);
        }
        if str_eq(s, "SAI_QUEUE_STAT_DROPPED_TRIM_PACKETS") {
            return Some(Self::DroppedTrimPackets);
        }
        if str_eq(s, "SAI_QUEUE_STAT_TX_TRIM_PACKETS") {
            return Some(Self::TxTrimPackets);
        }
        if str_eq(s, "SAI_QUEUE_STAT_CUSTOM_RANGE_BASE") {
            return Some(Self::CustomRangeBase);
        }
        proof {
            assert(Self::unlisted_name(s@));
            assert forall|v: Self| v.spec_c_name() != s@ by {
                Self::lemma_unlisted_name(v, s@);
            }
        }
        None
    }
}

impl std::str::FromStr for SaiQueueStat {
    type Err = ();

    fn from_str(s: &str) -> Result<Self, ()> {
        match Self::parse_c_name(s) {
            Some(v) => Ok(v),
            None => Err(()),
        }
    }
}

} // verus!
