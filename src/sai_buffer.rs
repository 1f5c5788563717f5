//! SAI buffer pool and ingress priority group statistics.

use vstd::prelude::*;
use crate::text::str_eq;

verus! {

/// SAI buffer pool statistics (`sai_buffer_pool_stat_t`).
#[derive(Debug, Clone, Copy, PartialEq, Eq, Structural, Hash)]
pub enum SaiBufferPoolStat {
    /// Get current pool occupancy in bytes [uint64_t]
    CurrOccupancyBytes,
    /// Get watermark pool occupancy in bytes [uint64_t]
    WatermarkBytes,
    /// Get count of packets dropped in this pool [uint64_t]
    DroppedPackets,
    /// Get/set WRED green dropped packet count [uint64_t]
    GreenWredDroppedPackets,
    /// Get/set WRED green dropped byte count [uint64_t]
    GreenWredDroppedBytes,
    /// Get/set WRED yellow dropped packet count [uint64_t]
    YellowWredDroppedPackets,
    /// Get/set WRED yellow dropped byte count [uint64_t]
    YellowWredDroppedBytes,
    /// Get/set WRED red dropped packet count [uint64_t]
    RedWredDroppedPackets,
    /// Get/set WRED red dropped byte count [uint64_t]
    RedWredDroppedBytes,
    /// Get/set WRED dropped packets count [uint64_t]
    WredDroppedPackets,
    /// Get/set WRED dropped bytes count [uint64_t]
    WredDroppedBytes,
    /// Get/set WRED green marked packet count [uint64_t]
    GreenWredEcnMarkedPackets,
    /// Get/set WRED green marked byte count [uint64_t]
    GreenWredEcnMarkedBytes,
    /// Get/set WRED yellow marked packet count [uint64_t]
    YellowWredEcnMarkedPackets,
    /// Get/set WRED yellow marked byte count [uint64_t]
    YellowWredEcnMarkedBytes,
    /// Get/set WRED red marked packet count [uint64_t]
    RedWredEcnMarkedPackets,
    /// Get/set WRED red marked byte count [uint64_t]
    RedWredEcnMarkedBytes,
    /// Get/set WRED marked packets count [uint64_t]
    WredEcnMarkedPackets,
    /// Get/set WRED marked bytes count [uint64_t]
    WredEcnMarkedBytes,
    /// Get current headroom pool occupancy in bytes [uint64_t]
    XoffRoomCurrOccupancyBytes,
    /// Get headroom pool occupancy in bytes [uint64_t]
    XoffRoomWatermarkBytes,
    /// Get current headroom pool occupancy in cells [uint64_t]
    XoffRoomCurrOccupancyCells,
    /// Get headroom pool occupancy in cells [uint64_t]
    XoffRoomWatermarkCells,
    /// Get current pool occupancy in cells [uint64_t]
    CurrOccupancyCells,
    /// Get watermark pool occupancy in cells [uint64_t]
    WatermarkCells,
    /// Custom range base value
    CustomRangeBase,
}

impl SaiBufferPoolStat {
    /// Numeric identifier of the statistic.
    pub open spec fn spec_id(self) -> u32 {
        match self {
            Self::CurrOccupancyBytes => 0x00000000,
            Self::WatermarkBytes => 0x00000001,
            Self::DroppedPackets => 0x00000002,
            Self::GreenWredDroppedPackets => 0x00000003,
            Self::GreenWredDroppedBytes => 0x00000004,
            Self::YellowWredDroppedPackets => 0x00000005,
            Self::YellowWredDroppedBytes => 0x00000006,
            Self::RedWredDroppedPackets => 0x00000007,
            Self::RedWredDroppedBytes => 0x00000008,
            Self::WredDroppedPackets => 0x00000009,
            Self::WredDroppedBytes => 0x0000000a,
            Self::GreenWredEcnMarkedPackets => 0x0000000b,
            Self::GreenWredEcnMarkedBytes => 0x0000000c,
            Self::YellowWredEcnMarkedPackets => 0x0000000d,
            Self::YellowWredEcnMarkedBytes => 0x0000000e,
            Self::RedWredEcnMarkedPackets => 0x0000000f,
            Self::RedWredEcnMarkedBytes => 0x00000010,
            Self::WredEcnMarkedPackets => 0x00000011,
            Self::WredEcnMarkedBytes => 0x00000012,
            Self::XoffRoomCurrOccupancyBytes => 0x00000013,
            Self::XoffRoomWatermarkBytes => 0x00000014,
            Self::XoffRoomCurrOccupancyCells => 0x00000015,
            Self::XoffRoomWatermarkCells => 0x00000016,
            Self::CurrOccupancyCells => 0x00000017,
            Self::WatermarkCells => 0x00000018,
            Self::CustomRangeBase => 0x10000000,
        }
    }

    /// Name of the statistic in the C headers.
    pub open spec fn spec_c_name(self) -> Seq<char> {
        match self {
            Self::CurrOccupancyBytes => "SAI_BUFFER_POOL_STAT_CURR_OCCUPANCY_BYTES"@,
            Self::WatermarkBytes => "SAI_BUFFER_POOL_STAT_WATERMARK_BYTES"@,
            Self::DroppedPackets => "SAI_BUFFER_POOL_STAT_DROPPED_PACKETS"@,
            Self::GreenWredDroppedPackets => "SAI_BUFFER_POOL_STAT_GREEN_WRED_DROPPED_PACKETS"@,
            Self::GreenWredDroppedBytes => "SAI_BUFFER_POOL_STAT_GREEN_WRED_DROPPED_BYTES"@,
            Self::YellowWredDroppedPackets => "SAI_BUFFER_POOL_STAT_YELLOW_WRED_DROPPED_PACKETS"@,
            Self::YellowWredDroppedBytes => "SAI_BUFFER_POOL_STAT_YELLOW_WRED_DROPPED_BYTES"@,
            Self::RedWredDroppedPackets => "SAI_BUFFER_POOL_STAT_RED_WRED_DROPPED_PACKETS"@,
            Self::RedWredDroppedBytes => "SAI_BUFFER_POOL_STAT_RED_WRED_DROPPED_BYTES"@,
            Self::WredDroppedPackets => "SAI_BUFFER_POOL_STAT_WRED_DROPPED_PACKETS"@,
            Self::WredDroppedBytes => "SAI_BUFFER_POOL_STAT_WRED_DROPPED_BYTES"@,
            Self::GreenWredEcnMarkedPackets => "SAI_BUFFER_POOL_STAT_GREEN_WRED_ECN_MARKED_PACKETS"@,
            Self::GreenWredEcnMarkedBytes => "SAI_BUFFER_POOL_STAT_GREEN_WRED_ECN_MARKED_BYTES"@,
            Self::YellowWredEcnMarkedPackets => "SAI_BUFFER_POOL_STAT_YELLOW_WRED_ECN_MARKED_PACKETS"@,
            Self::YellowWredEcnMarkedBytes => "SAI_BUFFER_POOL_STAT_YELLOW_WRED_ECN_MARKED_BYTES"@,
            Self::RedWredEcnMarkedPackets => "SAI_BUFFER_POOL_STAT_RED_WRED_ECN_MARKED_PACKETS"@,
            Self::RedWredEcnMarkedBytes => "SAI_BUFFER_POOL_STAT_RED_WRED_ECN_MARKED_BYTES"@,
            Self::WredEcnMarkedPackets => "SAI_BUFFER_POOL_STAT_WRED_ECN_MARKED_PACKETS"@,
            Self::WredEcnMarkedBytes => "SAI_BUFFER_POOL_STAT_WRED_ECN_MARKED_BYTES"@,
            Self::XoffRoomCurrOccupancyBytes => "SAI_BUFFER_POOL_STAT_XOFF_ROOM_CURR_OCCUPANCY_BYTES"@,
            Self::XoffRoomWatermarkBytes => "SAI_BUFFER_POOL_STAT_XOFF_ROOM_WATERMARK_BYTES"@,
            Self::XoffRoomCurrOccupancyCells => "SAI_BUFFER_POOL_STAT_XOFF_ROOM_CURR_OCCUPANCY_CELLS"@,
            Self::XoffRoomWatermarkCells => "SAI_BUFFER_POOL_STAT_XOFF_ROOM_WATERMARK_CELLS"@,
            Self::CurrOccupancyCells => "SAI_BUFFER_POOL_STAT_CURR_OCCUPANCY_CELLS"@,
            Self::WatermarkCells => "SAI_BUFFER_POOL_STAT_WATERMARK_CELLS"@,
            Self::CustomRangeBase => "SAI_BUFFER_POOL_STAT_CUSTOM_RANGE_BASE"@,
        }
    }

    /// The statistic with numeric identifier `value`, if any.
    pub fn from_u32(value: u32) -> (r: Option<Self>)
        ensures
            r matches Some(v) ==> v.spec_id() == value,
            r is None ==> forall|v: Self| v.spec_id() != value,
    {
        match value {
            0x00000000 => Some(Self::CurrOccupancyBytes),
            0x00000001 => Some(Self::WatermarkBytes),
            0x00000002 => Some(Self::DroppedPackets),
            0x00000003 => Some(Self::GreenWredDroppedPackets),
            0x00000004 => Some(Self::GreenWredDroppedBytes),
            0x00000005 => Some(Self::YellowWredDroppedPackets),
            0x00000006 => Some(Self::YellowWredDroppedBytes),
            0x00000007 => Some(Self::RedWredDroppedPackets),
            0x00000008 => Some(Self::RedWredDroppedBytes),
            0x00000009 => Some(Self::WredDroppedPackets),
            0x0000000a => Some(Self::WredDroppedBytes),
            0x0000000b => Some(Self::GreenWredEcnMarkedPackets),
            0x0000000c => Some(Self::GreenWredEcnMarkedBytes),
            0x0000000d => Some(Self::YellowWredEcnMarkedPackets),
            0x0000000e => Some(Self::YellowWredEcnMarkedBytes),
            0x0000000f => Some(Self::RedWredEcnMarkedPackets),
            0x00000010 => Some(Self::RedWredEcnMarkedBytes),
            0x00000011 => Some(Self::WredEcnMarkedPackets),
            0x00000012 => Some(Self::WredEcnMarkedBytes),
            0x00000013 => Some(Self::XoffRoomCurrOccupancyBytes),
            0x00000014 => Some(Self::XoffRoomWatermarkBytes),
            0x00000015 => Some(Self::XoffRoomCurrOccupancyCells),
            0x00000016 => Some(Self::XoffRoomWatermarkCells),
            0x00000017 => Some(Self::CurrOccupancyCells),
            0x00000018 => Some(Self::WatermarkCells),
            0x10000000 => Some(Self::CustomRangeBase),
            _ => {
                proof {
                    assert(Self::unlisted_id(value));
                    assert forall|v: Self| v.spec_id() != value by {
                        Self::lemma_unlisted_id(v, value);
                    }
                }
                None
            },
        }
    }

    /// Whether `value` is the identifier of no statistic.
    pub open spec fn unlisted_id(value: u32) -> bool {
        &&& value != 0x00000000
        &&& value != 0x00000001
        &&& value != 0x00000002
        &&& value != 0x00000003
        &&& value != 0x00000004
        &&& value != 0x00000005
        &&& value != 0x00000006
        &&& value != 0x00000007
        &&& value != 0x00000008
        &&& value != 0x00000009
        &&& value != 0x0000000a
        &&& value != 0x0000000b
        &&& value != 0x0000000c
        &&& value != 0x0000000d
        &&& value != 0x0000000e
        &&& value != 0x0000000f
        &&& value != 0x00000010
        &&& value != 0x00000011
        &&& value != 0x00000012
        &&& value != 0x00000013
        &&& value != 0x00000014
        &&& value != 0x00000015
        &&& value != 0x00000016
        &&& value != 0x00000017
        &&& value != 0x00000018
        &&& value != 0x10000000
    }

    proof fn lemma_unlisted_id(v: Self, value: u32)
        requires
            Self::unlisted_id(value),
        ensures
            v.spec_id() != value,
    {
        match v {
            Self::CurrOccupancyBytes => {},
            Self::WatermarkBytes => {},
            Self::DroppedPackets => {},
            Self::GreenWredDroppedPackets => {},
            Self::GreenWredDroppedBytes => {},
            Self::YellowWredDroppedPackets => {},
            Self::YellowWredDroppedBytes => {},
            Self::RedWredDroppedPackets => {},
            Self::RedWredDroppedBytes => {},
            Self::WredDroppedPackets => {},
            Self::WredDroppedBytes => {},
            Self::GreenWredEcnMarkedPackets => {},
            Self::GreenWredEcnMarkedBytes => {},
            Self::YellowWredEcnMarkedPackets => {},
            Self::YellowWredEcnMarkedBytes => {},
            Self::RedWredEcnMarkedPackets => {},
            Self::RedWredEcnMarkedBytes => {},
            Self::WredEcnMarkedPackets => {},
            Self::WredEcnMarkedBytes => {},
            Self::XoffRoomCurrOccupancyBytes => {},
            Self::XoffRoomWatermarkBytes => {},
            Self::XoffRoomCurrOccupancyCells => {},
            Self::XoffRoomWatermarkCells => {},
            Self::CurrOccupancyCells => {},
            Self::WatermarkCells => {},
            Self::CustomRangeBase => {},
        }
    }

    /// Whether `s` is the C name of no statistic.
    pub open spec fn unlisted_name(s: Seq<char>) -> bool {
        &&& s != "SAI_BUFFER_POOL_STAT_CURR_OCCUPANCY_BYTES"@
        &&& s != "SAI_BUFFER_POOL_STAT_WATERMARK_BYTES"@
        &&& s != "SAI_BUFFER_POOL_STAT_DROPPED_PACKETS"@
        &&& s != "SAI_BUFFER_POOL_STAT_GREEN_WRED_DROPPED_PACKETS"@
        &&& s != "SAI_BUFFER_POOL_STAT_GREEN_WRED_DROPPED_BYTES"@
        &&& s != "SAI_BUFFER_POOL_STAT_YELLOW_WRED_DROPPED_PACKETS"@
        &&& s != "SAI_BUFFER_POOL_STAT_YELLOW_WRED_DROPPED_BYTES"@
        &&& s != "SAI_BUFFER_POOL_STAT_RED_WRED_DROPPED_PACKETS"@
        &&& s != "SAI_BUFFER_POOL_STAT_RED_WRED_DROPPED_BYTES"@
        &&& s != "SAI_BUFFER_POOL_STAT_WRED_DROPPED_PACKETS"@
        &&& s != "SAI_BUFFER_POOL_STAT_WRED_DROPPED_BYTES"@
        &&& s != "SAI_BUFFER_POOL_STAT_GREEN_WRED_ECN_MARKED_PACKETS"@
        &&& s != "SAI_BUFFER_POOL_STAT_GREEN_WRED_ECN_MARKED_BYTES"@
        &&& s != "SAI_BUFFER_POOL_STAT_YELLOW_WRED_ECN_MARKED_PACKETS"@
        &&& s != "SAI_BUFFER_POOL_STAT_YELLOW_WRED_ECN_MARKED_BYTES"@
        &&& s != "SAI_BUFFER_POOL_STAT_RED_WRED_ECN_MARKED_PACKETS"@
        &&& s != "SAI_BUFFER_POOL_STAT_RED_WRED_ECN_MARKED_BYTES"@
        &&& s != "SAI_BUFFER_POOL_STAT_WRED_ECN_MARKED_PACKETS"@
        &&& s != "SAI_BUFFER_POOL_STAT_WRED_ECN_MARKED_BYTES"@
        &&& s != "SAI_BUFFER_POOL_STAT_XOFF_ROOM_CURR_OCCUPANCY_BYTES"@
        &&& s != "SAI_BUFFER_POOL_STAT_XOFF_ROOM_WATERMARK_BYTES"@
        &&& s != "SAI_BUFFER_POOL_STAT_XOFF_ROOM_CURR_OCCUPANCY_CELLS"@
        &&& s != "SAI_BUFFER_POOL_STAT_XOFF_ROOM_WATERMARK_CELLS"@
        &&& s != "SAI_BUFFER_POOL_STAT_CURR_OCCUPANCY_CELLS"@
        &&& s != "SAI_BUFFER_POOL_STAT_WATERMARK_CELLS"@
        &&& s != "SAI_BUFFER_POOL_STAT_CUSTOM_RANGE_BASE"@
    }

    proof fn lemma_unlisted_name(v: Self, s: Seq<char>)
        requires
            Self::unlisted_name(s),
        ensures
            v.spec_c_name() != s,
    {
        match v {
            Self::CurrOccupancyBytes => {},
            Self::WatermarkBytes => {},
            Self::DroppedPackets => {},
            Self::GreenWredDroppedPackets => {},
            Self::GreenWredDroppedBytes => {},
            Self::YellowWredDroppedPackets => {},
            Self::YellowWredDroppedBytes => {},
            Self::RedWredDroppedPackets => {},
            Self::RedWredDroppedBytes => {},
            Self::WredDroppedPackets => {},
            Self::WredDroppedBytes => {},
            Self::GreenWredEcnMarkedPackets => {},
            Self::GreenWredEcnMarkedBytes => {},
            Self::YellowWredEcnMarkedPackets => {},
            Self::YellowWredEcnMarkedBytes => {},
            Self::RedWredEcnMarkedPackets => {},
            Self::RedWredEcnMarkedBytes => {},
            Self::WredEcnMarkedPackets => {},
            Self::WredEcnMarkedBytes => {},
            Self::XoffRoomCurrOccupancyBytes => {},
            Self::XoffRoomWatermarkBytes => {},
            Self::XoffRoomCurrOccupancyCells => {},
            Self::XoffRoomWatermarkCells => {},
            Self::CurrOccupancyCells => {},
            Self::WatermarkCells => {},
            Self::CustomRangeBase => {},
        }
    }

    pub fn to_u32(self) -> (r: u32)
        ensures
            r == self.spec_id(),
    {
        match self {
            Self::CurrOccupancyBytes => 0x00000000,
            Self::WatermarkBytes => 0x00000001,
            Self::DroppedPackets => 0x00000002,
            Self::GreenWredDroppedPackets => 0x00000003,
            Self::GreenWredDroppedBytes => 0x00000004,
            Self::YellowWredDroppedPackets => 0x00000005,
            Self::YellowWredDroppedBytes => 0x00000006,
            Self::RedWredDroppedPackets => 0x00000007,
            Self::RedWredDroppedBytes => 0x00000008,
            Self::WredDroppedPackets => 0x00000009,
            Self::WredDroppedBytes => 0x0000000a,
            Self::GreenWredEcnMarkedPackets => 0x0000000b,
            Self::GreenWredEcnMarkedBytes => 0x0000000c,
            Self::YellowWredEcnMarkedPackets => 0x0000000d,
            Self::YellowWredEcnMarkedBytes => 0x0000000e,
            Self::RedWredEcnMarkedPackets => 0x0000000f,
            Self::RedWredEcnMarkedBytes => 0x00000010,
            Self::WredEcnMarkedPackets => 0x00000011,
            Self::WredEcnMarkedBytes => 0x00000012,
            Self::XoffRoomCurrOccupancyBytes => 0x00000013,
            Self::XoffRoomWatermarkBytes => 0x00000014,
            Self::XoffRoomCurrOccupancyCells => 0x00000015,
            Self::XoffRoomWatermarkCells => 0x00000016,
            Self::CurrOccupancyCells => 0x00000017,
            Self::WatermarkCells => 0x00000018,
            Self::CustomRangeBase => 0x10000000,
        }
    }

    pub fn to_c_name(self) -> (r: &'static str)
        ensures
            r@ == self.spec_c_name(),
    {
        match self {
            Self::CurrOccupancyBytes => "SAI_BUFFER_POOL_STAT_CURR_OCCUPANCY_BYTES",
            Self::WatermarkBytes => "SAI_BUFFER_POOL_STAT_WATERMARK_BYTES",
            Self::DroppedPackets => "SAI_BUFFER_POOL_STAT_DROPPED_PACKETS",
            Self::GreenWredDroppedPackets => "SAI_BUFFER_POOL_STAT_GREEN_WRED_DROPPED_PACKETS",
            Self::GreenWredDroppedBytes => "SAI_BUFFER_POOL_STAT_GREEN_WRED_DROPPED_BYTES",
            Self::YellowWredDroppedPackets => "SAI_BUFFER_POOL_STAT_YELLOW_WRED_DROPPED_PACKETS",
            Self::YellowWredDroppedBytes => "SAI_BUFFER_POOL_STAT_YELLOW_WRED_DROPPED_BYTES",
            Self::RedWredDroppedPackets => "SAI_BUFFER_POOL_STAT_RED_WRED_DROPPED_PACKETS",
            Self::RedWredDroppedBytes => "SAI_BUFFER_POOL_STAT_RED_WRED_DROPPED_BYTES",
            Self::WredDroppedPackets => "SAI_BUFFER_POOL_STAT_WRED_DROPPED_PACKETS",
            Self::WredDroppedBytes => "SAI_BUFFER_POOL_STAT_WRED_DROPPED_BYTES",
            Self::GreenWredEcnMarkedPackets => "SAI_BUFFER_POOL_STAT_GREEN_WRED_ECN_MARKED_PACKETS",
            Self::GreenWredEcnMarkedBytes => "SAI_BUFFER_POOL_STAT_GREEN_WRED_ECN_MARKED_BYTES",
            Self::YellowWredEcnMarkedPackets => "SAI_BUFFER_POOL_STAT_YELLOW_WRED_ECN_MARKED_PACKETS",
            Self::YellowWredEcnMarkedBytes => "SAI_BUFFER_POOL_STAT_YELLOW_WRED_ECN_MARKED_BYTES",
            Self::RedWredEcnMarkedPackets => "SAI_BUFFER_POOL_STAT_RED_WRED_ECN_MARKED_PACKETS",
            Self::RedWredEcnMarkedBytes => "SAI_BUFFER_POOL_STAT_RED_WRED_ECN_MARKED_BYTES",
            Self::WredEcnMarkedPackets => "SAI_BUFFER_POOL_STAT_WRED_ECN_MARKED_PACKETS",
            Self::WredEcnMarkedBytes => "SAI_BUFFER_POOL_STAT_WRED_ECN_MARKED_BYTES",
            Self::XoffRoomCurrOccupancyBytes => "SAI_BUFFER_POOL_STAT_XOFF_ROOM_CURR_OCCUPANCY_BYTES",
            Self::XoffRoomWatermarkBytes => "SAI_BUFFER_POOL_STAT_XOFF_ROOM_WATERMARK_BYTES",
            Self::XoffRoomCurrOccupancyCells => "SAI_BUFFER_POOL_STAT_XOFF_ROOM_CURR_OCCUPANCY_CELLS",
            Self::XoffRoomWatermarkCells => "SAI_BUFFER_POOL_STAT_XOFF_ROOM_WATERMARK_CELLS",
            Self::CurrOccupancyCells => "SAI_BUFFER_POOL_STAT_CURR_OCCUPANCY_CELLS",
            Self::WatermarkCells => "SAI_BUFFER_POOL_STAT_WATERMARK_CELLS",
            Self::CustomRangeBase => "SAI_BUFFER_POOL_STAT_CUSTOM_RANGE_BASE",
        }
    }

    /// The statistic whose C name is `s`, if any.
    pub fn parse_c_name(s: &str) -> (r: Option<Self>)
        ensures
            r matches Some(v) ==> v.spec_c_name() == s@,
            r is None ==> forall|v: Self| v.spec_c_name() != s@,
    {
        if str_eq(s, "SAI_BUFFER_POOL_STAT_CURR_OCCUPANCY_BYTES") {
            return Some(Self::CurrOccupancyBytes);
        }
        if str_eq(s, "SAI_BUFFER_POOL_STAT_WATERMARK_BYTES") {
            return Some(Self::WatermarkBytes);
        }
        if str_eq(s, "SAI_BUFFER_POOL_STAT_DROPPED_PACKETS") {
            return Some(Self::DroppedPackets);
        }
        if str_eq(s, "SAI_BUFFER_POOL_STAT_GREEN_WRED_DROPPED_PACKETS") {
            return Some(Self::GreenWredDroppedPackets);
        }
        if str_eq(s, "SAI_BUFFER_POOL_STAT_GREEN_WRED_DROPPED_BYTES") {
            return Some(Self::GreenWredDroppedBytes);
        }
        if str_eq(s, "SAI_BUFFER_POOL_STAT_YELLOW_WRED_DROPPED_PACKETS") {
            return Some(Self::YellowWredDroppedPackets);
        }
        if str_eq(s, "SAI_BUFFER_POOL_STAT_YELLOW_WRED_DROPPED_BYTES") {
            return Some(Self::YellowWredDroppedBytes);
        }
        if str_eq(s, "SAI_BUFFER_POOL_STAT_RED_WRED_DROPPED_PACKETS") {
            return Some(Self::RedWredDroppedPackets);
        }
        if str_eq(s, "SAI_BUFFER_POOL_STAT_RED_WRED_DROPPED_BYTES") {
            return Some(Self::RedWredDroppedBytes);
        }
        if str_eq(s, "SAI_BUFFER_POOL_STAT_WRED_DROPPED_PACKETS") {
            return Some(Self::WredDroppedPackets);
        }
        if str_eq(s, "SAI_BUFFER_POOL_STAT_WRED_DROPPED_BYTES") {
            return Some(Self::WredDroppedBytes);
        }
        if str_eq(s, "SAI_BUFFER_POOL_STAT_GREEN_WRED_ECN_MARKED_PACKETS") {
            return Some(Self::GreenWredEcnMarkedPackets);
        }
        if str_eq(s, "SAI_BUFFER_POOL_STAT_GREEN_WRED_ECN_MARKED_BYTES") {
            return Some(Self::GreenWredEcnMarkedBytes);
        }
        if str_eq(s, "SAI_BUFFER_POOL_STAT_YELLOW_WRED_ECN_MARKED_PACKETS") {
            return Some(Self::YellowWredEcnMarkedPackets);
        }
        if str_eq(s, "SAI_BUFFER_POOL_STAT_YELLOW_WRED_ECN_MARKED_BYTES") {
            return Some(Self::YellowWredEcnMarkedBytes);
        }
        if str_eq(s, "SAI_BUFFER_POOL_STAT_RED_WRED_ECN_MARKED_PACKETS") {
            return Some(Self::RedWredEcnMarkedPackets);
        }
        if str_eq(s, "SAI_BUFFER_POOL_STAT_RED_WRED_ECN_MARKED_BYTES") {
            return Some(Self::RedWredEcnMarkedBytes);
        }
        if str_eq(s, "SAI_BUFFER_POOL_STAT_WRED_ECN_MARKED_PACKETS") {
            return Some(Self::WredEcnMarkedPackets);
        }
        if str_eq(s, "SAI_BUFFER_POOL_STAT_WRED_ECN_MARKED_BYTES") {
            return Some(Self::WredEcnMarkedBytes);
        }
        if str_eq(s, "SAI_BUFFER_POOL_STAT_XOFF_ROOM_CURR_OCCUPANCY_BYTES") {
            return Some(Self::XoffRoomCurrOccupancyBytes);
        }
        if str_eq(s, "SAI_BUFFER_POOL_STAT_XOFF_ROOM_WATERMARK_BYTES") {
            return Some(Self::XoffRoomWatermarkBytes);
        }
        if str_eq(s, "SAI_BUFFER_POOL_STAT_XOFF_ROOM_CURR_OCCUPANCY_CELLS") {
            return Some(Self::XoffRoomCurrOccupancyCells);
        }
        if str_eq(s, "SAI_BUFFER_POOL_STAT_XOFF_ROOM_WATERMARK_CELLS") {
            return Some(Self::XoffRoomWatermarkCells);
        }
        if str_eq(s, "SAI_BUFFER_POOL_STAT_CURR_OCCUPANCY_CELLS") {
            return Some(Self::CurrOccupancyCells);
        }
        if str_eq(s, "SAI_BUFFER_POOL_STAT_WATERMARK_CELLS") {
            return Some(Self::WatermarkCells);
        }
        if str_eq(s, "SAI_BUFFER_POOL_STAT_CUSTOM_RANGE_BASE") {
            return Some(Self::CustomRangeBase);
        }
        proof {
            assert(Self::unlisted_name(s@));
            assert forall|v: Self| v.spec_c_name() != s@ by {
                Self::lemma_unlisted_name(v, s@);
            }
        }
        None
    }
}

impl std::str::FromStr for SaiBufferPoolStat {
    type Err = ();

    fn from_str(s: &str) -> Result<Self, ()> {
        match Self::parse_c_name(s) {
            Some(v) => Ok(v),
            None => Err(()),
        }
    }
}

/// SAI ingress priority group statistics (`sai_ingress_priority_group_stat_t`).
#[derive(Debug, Clone, Copy, PartialEq, Eq, Structural, Hash)]
pub enum SaiIngressPriorityGroupStat {
    /// Get rx packets count [uint64_t]
    Packets,
    /// Get rx bytes count [uint64_t]
    Bytes,
    /// Get current pg occupancy in bytes [uint64_t]
    CurrOccupancyBytes,
    /// Get watermark pg occupancy in bytes [uint64_t]
    WatermarkBytes,
    /// Get current pg shared occupancy in bytes [uint64_t]
    SharedCurrOccupancyBytes,
    /// Get watermark pg shared occupancy in bytes [uint64_t]
    SharedWatermarkBytes,
    /// Get current pg XOFF room occupancy in bytes [uint64_t]
    XoffRoomCurrOccupancyBytes,
    /// Get watermark pg XOFF room occupancy in bytes [uint64_t]
    XoffRoomWatermarkBytes,
    /// Get dropped packets count [uint64_t]
    DroppedPackets,
    /// Get current pg occupancy in cells [uint64_t]
    CurrOccupancyCells,
    /// Get watermark pg occupancy in cells [uint64_t]
    WatermarkCells,
    /// Get current pg shared occupancy in cells [uint64_t]
    SharedCurrOccupancyCells,
    /// Get watermark pg shared occupancy in cells [uint64_t]
    SharedWatermarkCells,
    /// Get current pg XOFF room occupancy in cells [uint64_t]
    XoffRoomCurrOccupancyCells,
    /// Get watermark pg XOFF room occupancy in cells [uint64_t]
    XoffRoomWatermarkCells,
    /// Custom range base value
    CustomRangeBase,
}

impl SaiIngressPriorityGroupStat {
    /// Numeric identifier of the statistic.
    pub open spec fn spec_id(self) -> u32 {
        match self {
            Self::Packets => 0x00000000,
            Self::Bytes => 0x00000001,
            Self::CurrOccupancyBytes => 0x00000002,
            Self::WatermarkBytes => 0x00000003,
            Self::SharedCurrOccupancyBytes => 0x00000004,
            Self::SharedWatermarkBytes => 0x00000005,
            Self::XoffRoomCurrOccupancyBytes => 0x00000006,
            Self::XoffRoomWatermarkBytes => 0x00000007,
            Self::DroppedPackets => 0x00000008,
            Self::CurrOccupancyCells => 0x00000009,
            Self::WatermarkCells => 0x0000000a,
            Self::SharedCurrOccupancyCells => 0x0000000b,
            Self::SharedWatermarkCells => 0x0000000c,
            Self::XoffRoomCurrOccupancyCells => 0x0000000d,
            Self::XoffRoomWatermarkCells => 0x0000000e,
            Self::CustomRangeBase => 0x10000000,
        }
    }

    /// Name of the statistic in the C headers.
    pub open spec fn spec_c_name(self) -> Seq<char> {
        match self {
            Self::Packets => "SAI_INGRESS_PRIORITY_GROUP_STAT_PACKETS"@,
            Self::Bytes => "SAI_INGRESS_PRIORITY_GROUP_STAT_BYTES"@,
            Self::CurrOccupancyBytes => "SAI_INGRESS_PRIORITY_GROUP_STAT_CURR_OCCUPANCY_BYTES"@,
            Self::WatermarkBytes => "SAI_INGRESS_PRIORITY_GROUP_STAT_WATERMARK_BYTES"@,
            Self::SharedCurrOccupancyBytes => "SAI_INGRESS_PRIORITY_GROUP_STAT_SHARED_CURR_OCCUPANCY_BYTES"@,
            Self::SharedWatermarkBytes => "SAI_INGRESS_PRIORITY_GROUP_STAT_SHARED_WATERMARK_BYTES"@,
            Self::XoffRoomCurrOccupancyBytes => "SAI_INGRESS_PRIORITY_GROUP_STAT_XOFF_ROOM_CURR_OCCUPANCY_BYTES"@,
            Self::XoffRoomWatermarkBytes => "SAI_INGRESS_PRIORITY_GROUP_STAT_XOFF_ROOM_WATERMARK_BYTES"@,
            Self::DroppedPackets => "SAI_INGRESS_PRIORITY_GROUP_STAT_DROPPED_PACKETS"@,
            Self::CurrOccupancyCells => "SAI_INGRESS_PRIORITY_GROUP_STAT_CURR_OCCUPANCY_CELLS"@,
            Self::WatermarkCells => "SAI_INGRESS_PRIORITY_GROUP_STAT_WATERMARK_CELLS"@,
            Self::SharedCurrOccupancyCells => "SAI_INGRESS_PRIORITY_GROUP_STAT_SHARED_CURR_OCCUPANCY_CELLS"@,
            Self::SharedWatermarkCells => "SAI_INGRESS_PRIORITY_GROUP_STAT_SHARED_WATERMARK_CELLS"@,
            Self::XoffRoomCurrOccupancyCells => "SAI_INGRESS_PRIORITY_GROUP_STAT_XOFF_ROOM_CURR_OCCUPANCY_CELLS"@,
            Self::XoffRoomWatermarkCells => "SAI_INGRESS_PRIORITY_GROUP_STAT_XOFF_ROOM_WATERMARK_CELLS"@,
            Self::CustomRangeBase => "SAI_INGRESS_PRIORITY_GROUP_STAT_CUSTOM_RANGE_BASE"@,
        }
    }

    /// The statistic with numeric identifier `value`, if any.
    pub fn from_u32(value: u32) -> (r: Option<Self>)
        ensures
            r matches Some(v) ==> v.spec_id() == value,
            r is None ==> forall|v: Self| v.spec_id() != value,
    {
        match value {
            0x00000000 => Some(Self::Packets),
            0x00000001 => Some(Self::Bytes),
            0x00000002 => Some(Self::CurrOccupancyBytes),
            0x00000003 => Some(Self::WatermarkBytes),
            0x00000004 => Some(Self::SharedCurrOccupancyBytes),
            0x00000005 => Some(Self::SharedWatermarkBytes),
            0x00000006 => Some(Self::XoffRoomCurrOccupancyBytes),
            0x00000007 => Some(Self::XoffRoomWatermarkBytes),
            0x00000008 => Some(Self::DroppedPackets),
            0x00000009 => Some(Self::CurrOccupancyCells),
            0x0000000a => Some(Self::WatermarkCells),
            0x0000000b => Some(Self::SharedCurrOccupancyCells),
            0x0000000c => Some(Self::SharedWatermarkCells),
            0x0000000d => Some(Self::XoffRoomCurrOccupancyCells),
            0x0000000e => Some(Self::XoffRoomWatermarkCells),
            0x10000000 => Some(Self::CustomRangeBase),
            _ => {
                proof {
                    assert(Self::unlisted_id(value));
                    assert forall|v: Self| v.spec_id() != value by {
                        Self::lemma_unlisted_id(v, value);
                    }
                }
                None
            },
        }
    }

    /// Whether `value` is the identifier of no statistic.
    pub open spec fn unlisted_id(value: u32) -> bool {
        &&& value != 0x00000000
        &&& value != 0x00000001
        &&& value != 0x00000002
        &&& value != 0x00000003
        &&& value != 0x00000004
        &&& value != 0x00000005
        &&& value != 0x00000006
        &&& value != 0x00000007
        &&& value != 0x00000008
        &&& value != 0x00000009
        &&& value != 0x0000000a
        &&& value != 0x0000000b
        &&& value != 0x0000000c
        &&& value != 0x0000000d
        &&& value != 0x0000000e
        &&& value != 0x10000000
    }

    proof fn lemma_unlisted_id(v: Self, value: u32)
        requires
            Self::unlisted_id(value),
        ensures
            v.spec_id() != value,
    {
        match v {
            Self::Packets => {},
            Self::Bytes => {},
            Self::CurrOccupancyBytes => {},
            Self::WatermarkBytes => {},
            Self::SharedCurrOccupancyBytes => {},
            Self::SharedWatermarkBytes => {},
            Self::XoffRoomCurrOccupancyBytes => {},
            Self::XoffRoomWatermarkBytes => {},
            Self::DroppedPackets => {},
            Self::CurrOccupancyCells => {},
            Self::WatermarkCells => {},
            Self::SharedCurrOccupancyCells => {},
            Self::SharedWatermarkCells => {},
            Self::XoffRoomCurrOccupancyCells => {},
            Self::XoffRoomWatermarkCells => {},
            Self::CustomRangeBase => {},
        }
    }

    /// Whether `s` is the C name of no statistic.
    pub open spec fn unlisted_name(s: Seq<char>) -> bool {
        &&& s != "SAI_INGRESS_PRIORITY_GROUP_STAT_PACKETS"@
        &&& s != "SAI_INGRESS_PRIORITY_GROUP_STAT_BYTES"@
        &&& s != "SAI_INGRESS_PRIORITY_GROUP_STAT_CURR_OCCUPANCY_BYTES"@
        &&& s != "SAI_INGRESS_PRIORITY_GROUP_STAT_WATERMARK_BYTES"@
        &&& s != "SAI_INGRESS_PRIORITY_GROUP_STAT_SHARED_CURR_OCCUPANCY_BYTES"@
        &&& s != "SAI_INGRESS_PRIORITY_GROUP_STAT_SHARED_WATERMARK_BYTES"@
        &&& s != "SAI_INGRESS_PRIORITY_GROUP_STAT_XOFF_ROOM_CURR_OCCUPANCY_BYTES"@
        &&& s != "SAI_INGRESS_PRIORITY_GROUP_STAT_XOFF_ROOM_WATERMARK_BYTES"@
        &&& s != "SAI_INGRESS_PRIORITY_GROUP_STAT_DROPPED_PACKETS"@
        &&& s != "SAI_INGRESS_PRIORITY_GROUP_STAT_CURR_OCCUPANCY_CELLS"@
        &&& s != "SAI_INGRESS_PRIORITY_GROUP_STAT_WATERMARK_CELLS"@
        &&& s != "SAI_INGRESS_PRIORITY_GROUP_STAT_SHARED_CURR_OCCUPANCY_CELLS"@
        &&& s != "SAI_INGRESS_PRIORITY_GROUP_STAT_SHARED_WATERMARK_CELLS"@
        &&& s != "SAI_INGRESS_PRIORITY_GROUP_STAT_XOFF_ROOM_CURR_OCCUPANCY_CELLS"@
        &&& s != "SAI_INGRESS_PRIORITY_GROUP_STAT_XOFF_ROOM_WATERMARK_CELLS"@
        &&& s != "SAI_INGRESS_PRIORITY_GROUP_STAT_CUSTOM_RANGE_BASE"@
    }

    proof fn lemma_unlisted_name(v: Self, s: Seq<char>)
        requires
            Self::unlisted_name(s),
        ensures
            v.spec_c_name() != s,
    {
        match v {
            Self::Packets => {},
            Self::Bytes => {},
            Self::CurrOccupancyBytes => {},
            Self::WatermarkBytes => {},
            Self::SharedCurrOccupancyBytes => {},
            Self::SharedWatermarkBytes => {},
            Self::XoffRoomCurrOccupancyBytes => {},
            Self::XoffRoomWatermarkBytes => {},
            Self::DroppedPackets => {},
            Self::CurrOccupancyCells => {},
            Self::WatermarkCells => {},
            Self::SharedCurrOccupancyCells => {},
            Self::SharedWatermarkCells => {},
            Self::XoffRoomCurrOccupancyCells => {},
            Self::XoffRoomWatermarkCells => {},
            Self::CustomRangeBase => {},
        }
    }

    pub fn to_u32(self) -> (r: u32)
        ensures
            r == self.spec_id(),
    {
        match self {
            Self::Packets => 0x00000000,
            Self::Bytes => 0x00000001,
            Self::CurrOccupancyBytes => 0x00000002,
            Self::WatermarkBytes => 0x00000003,
            Self::SharedCurrOccupancyBytes => 0x00000004,
            Self::SharedWatermarkBytes => 0x00000005,
            Self::XoffRoomCurrOccupancyBytes => 0x00000006,
            Self::XoffRoomWatermarkBytes => 0x00000007,
            Self::DroppedPackets => 0x00000008,
            Self::CurrOccupancyCells => 0x00000009,
            Self::WatermarkCells => 0x0000000a,
            Self::SharedCurrOccupancyCells => 0x0000000b,
            Self::SharedWatermarkCells => 0x0000000c,
            Self::XoffRoomCurrOccupancyCells => 0x0000000d,
            Self::XoffRoomWatermarkCells => 0x0000000e,
            Self::CustomRangeBase => 0x10000000,
        }
    }

    pub fn to_c_name(self) -> (r: &'static str)
        ensures
            r@ == self.spec_c_name(),
    {
        match self {
            Self::Packets => "SAI_INGRESS_PRIORITY_GROUP_STAT_PACKETS",
            Self::Bytes => "SAI_INGRESS_PRIORITY_GROUP_STAT_BYTES",
            Self::CurrOccupancyBytes => "SAI_INGRESS_PRIORITY_GROUP_STAT_CURR_OCCUPANCY_BYTES",
            Self::WatermarkBytes => "SAI_INGRESS_PRIORITY_GROUP_STAT_WATERMARK_BYTES",
            Self::SharedCurrOccupancyBytes => "SAI_INGRESS_PRIORITY_GROUP_STAT_SHARED_CURR_OCCUPANCY_BYTES",
            Self::SharedWatermarkBytes => "SAI_INGRESS_PRIORITY_GROUP_STAT_SHARED_WATERMARK_BYTES",
            Self::XoffRoomCurrOccupancyBytes => "SAI_INGRESS_PRIORITY_GROUP_STAT_XOFF_ROOM_CURR_OCCUPANCY_BYTES",
            Self::XoffRoomWatermarkBytes => "SAI_INGRESS_PRIORITY_GROUP_STAT_XOFF_ROOM_WATERMARK_BYTES",
            Self::DroppedPackets => "SAI_INGRESS_PRIORITY_GROUP_STAT_DROPPED_PACKETS",
            Self::CurrOccupancyCells => "SAI_INGRESS_PRIORITY_GROUP_STAT_CURR_OCCUPANCY_CELLS",
            Self::WatermarkCells => "SAI_INGRESS_PRIORITY_GROUP_STAT_WATERMARK_CELLS",
            Self::SharedCurrOccupancyCells => "SAI_INGRESS_PRIORITY_GROUP_STAT_SHARED_CURR_OCCUPANCY_CELLS",
            Self::SharedWatermarkCells => "SAI_INGRESS_PRIORITY_GROUP_STAT_SHARED_WATERMARK_CELLS",
            Self::XoffRoomCurrOccupancyCells => "SAI_INGRESS_PRIORITY_GROUP_STAT_XOFF_ROOM_CURR_OCCUPANCY_CELLS",
            Self::XoffRoomWatermarkCells => "SAI_INGRESS_PRIORITY_GROUP_STAT_XOFF_ROOM_WATERMARK_CELLS",
            Self::CustomRangeBase => "SAI_INGRESS_PRIORITY_GROUP_STAT_CUSTOM_RANGE_BASE",
        }
    }

    /// The statistic whose C name is `s`, if any.
    pub fn parse_c_name(s: &str) -> (r: Option<Self>)
        ensures
            r matches Some(v) ==> v.spec_c_name() == s@,
            r is None ==> forall|v: Self| v.spec_c_name() != s@,
    {
        if str_eq(s, "SAI_INGRESS_PRIORITY_GROUP_STAT_PACKETS") {
            return Some(Self::Packets);
        }
        if str_eq(s, "SAI_INGRESS_PRIORITY_GROUP_STAT_BYTES") {
            return Some(Self::Bytes);
        }
        if str_eq(s, "SAI_INGRESS_PRIORITY_GROUP_STAT_CURR_OCCUPANCY_BYTES") {
            return Some(Self::CurrOccupancyBytes);
        }
        if str_eq(s, "SAI_INGRESS_PRIORITY_GROUP_STAT_WATERMARK_BYTES") {
            return Some(Self::WatermarkBytes);
        }
        if str_eq(s, "SAI_INGRESS_PRIORITY_GROUP_STAT_SHARED_CURR_OCCUPANCY_BYTES") {
            return Some(Self::SharedCurrOccupancyBytes);
        }
        if str_eq(s, "SAI_INGRESS_PRIORITY_GROUP_STAT_SHARED_WATERMARK_BYTES") {
            return Some(Self::SharedWatermarkBytes);
        }
        if str_eq(s, "SAI_INGRESS_PRIORITY_GROUP_STAT_XOFF_ROOM_CURR_OCCUPANCY_BYTES") {
            return Some(Self::XoffRoomCurrOccupancyBytes);
        }
        if str_eq(s, "SAI_INGRESS_PRIORITY_GROUP_STAT_XOFF_ROOM_WATERMARK_BYTES") {
            return Some(Self::XoffRoomWatermarkBytes);
        }
        if str_eq(s, "SAI_INGRESS_PRIORITY_GROUP_STAT_DROPPED_PACKETS") {
            return Some(Self::DroppedPackets);
        }
        if str_eq(s, "SAI_INGRESS_PRIORITY_GROUP_STAT_CURR_OCCUPANCY_CELLS") {
            return Some(Self::CurrOccupancyCells);
        }
        if str_eq(s, "SAI_INGRESS_PRIORITY_GROUP_STAT_WATERMARK_CELLS") {
            return Some(Self::WatermarkCells);
        }
        if str_eq(s, "SAI_INGRESS_PRIORITY_GROUP_STAT_SHARED_CURR_OCCUPANCY_CELLS") {
            return Some(Self::SharedCurrOccupancyCells);
        }
        if str_eq(s, "SAI_INGRESS_PRIORITY_GROUP_STAT_SHARED_WATERMARK_CELLS") {
            return Some(Self::SharedWatermarkCells);
        }
        if str_eq(s, "SAI_INGRESS_PRIORITY_GROUP_STAT_XOFF_ROOM_CURR_OCCUPANCY_CELLS") {
            return Some(Self::XoffRoomCurrOccupancyCells);
        }
        if str_eq(s, "SAI_INGRESS_PRIORITY_GROUP_STAT_XOFF_ROOM_WATERMARK_CELLS") {
            return Some(Self::XoffRoomWatermarkCells);
        }
        if str_eq(s, "SAI_INGRESS_PRIORITY_GROUP_STAT_CUSTOM_RANGE_BASE") {
            return Some(Self::CustomRangeBase);
        }
        proof {
            assert(Self::unlisted_name(s@));
            assert forall|v: Self| v.spec_c_name() != s@ by {
                Self::lemma_unlisted_name(v, s@);
            }
        }
        None
    }
}

impl std::str::FromStr for SaiIngressPriorityGroupStat {
    type Err = ();

    fn from_str(s: &str) -> Result<Self, ()> {
        match Self::parse_c_name(s) {
            Some(v) => Ok(v),
            None => Err(()),
        }
    }
}

} // verus!
