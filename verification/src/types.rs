//! Shared data types of the health polling subsystem.

pub mod health;
pub mod thresholds;

pub use health::{
    derive_quality_level, BatteryHealth, BatteryInfo, ConnectionMetrics, ConnectionType,
    DeviceHealth, DeviceHealthUpdateEvent, DeviceHealthUpdateEventView, DeviceHealthView,
    DeviceInfo, DeviceInfoView, DeviceState, ErrorCode, ErrorInfo, ErrorInfoView,
    GetDeviceHealthResponse, HealthCommandResult, HealthPollingConfig, HealthUpdateReason,
    Multiplier, PollingErrorEvent, PollingErrorEventView, PollingStartedEvent, PollingStopReason,
    PollingStoppedEvent, QualityLevel, ReconnectionState, StalenessLevel,
    StartHealthPollingRequest, StartPollingDevice, StorageInfo,
};
