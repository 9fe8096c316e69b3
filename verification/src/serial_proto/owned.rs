//! Messages that own their data.

use vstd::prelude::*;

use crate::layer::Layers;

verus! {

#[derive(Debug)]
pub struct LogRecord {
    /// Milliseconds since boot
    pub timestamp: u64,
    pub level: String,
    pub message: String,
}

/// Press the switch with the provided index.
#[derive(Debug, Clone, Copy, PartialEq, Eq, Structural)]
pub struct SwitchPress(pub u16);

/// Release the switch with the provided index.
#[derive(Debug, Clone, Copy, PartialEq, Eq, Structural)]
pub struct SwitchRelease(pub u16);

/// Change to the layer at the provided coordinates in the layer matrix.
#[derive(Debug, Clone, Copy, PartialEq, Eq, Structural)]
pub struct ChangeLayer {
    pub x: u16,
    pub y: u16,
}

#[derive(Debug)]
pub enum DeviceMsg {
    Log(LogRecord),
    SwitchPress(SwitchPress),
    SwitchRelease(SwitchRelease),
    ChangeLayer(ChangeLayer),
    Layers(Layers),
}

#[derive(Debug, Clone, Copy, PartialEq, Eq, Structural)]
pub enum HostMsg {
    GetLayers,
}

} // verus!
