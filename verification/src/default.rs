use crate::congestion::CongestionController;
use crate::level::LogLevel;
use vstd::prelude::*;

verus! {

/// The congestion controller of a server that names none.
pub fn congestion_controller() -> (controller: CongestionController)
    ensures
        controller == CongestionController::Cubic,
{
    CongestionController::Cubic
}

/// The idle timeout of a server that sets none, in milliseconds.
pub fn max_idle_time() -> (milliseconds: u32)
    ensures
        milliseconds == 15000,
{
    15000
}

/// The time allowed for authentication where none is set, in milliseconds.
pub fn authentication_timeout() -> (milliseconds: u64)
    ensures
        milliseconds == 1000,
{
    1000
}

/// The largest UDP packet of a server that sets no limit, in bytes.
pub fn max_udp_packet_size() -> (bytes: usize)
    ensures
        bytes == 1536,
{
    1536
}

/// IPv6 is off unless it is asked for.
pub fn enable_ipv6() -> (enabled: bool)
    ensures
        !enabled,
{
    false
}

/// The log level of a server that names none.
pub fn log_level() -> (level: LogLevel)
    ensures
        level == LogLevel::Info,
{
    LogLevel::Info
}

} // verus!
