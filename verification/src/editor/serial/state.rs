//! What the editor shows of the keyboard's serial messages: its latest log records and the
//! layer it is on.

use vstd::prelude::*;

use std::collections::VecDeque;

use crate::serial_proto::owned::{ChangeLayer, DeviceMsg, LogRecord};

verus! {

/// How many log records are kept.
pub const MAX_LOGS: usize = 10;

/// The latest log records from the keyboard, oldest first, and the layer it is on.
pub struct SerialLog {
    pub logs: VecDeque<LogRecord>,
    pub active_layer: Option<(u16, u16)>,
}

impl SerialLog {
    /// No log records, and no known layer.
    pub fn new() -> (s: SerialLog)
        ensures
            s.logs@ == Seq::<LogRecord>::empty(),
            s.active_layer is None,
    {
        SerialLog { logs: VecDeque::new(), active_layer: None }
    }

    /// Takes in a message from the keyboard: a log record is kept (dropping the oldest when
    /// more than [MAX_LOGS] are kept), a layer change is remembered, anything else is ignored.
    pub fn on_message(&mut self, msg: DeviceMsg)
        ensures
            old(self).logs@.len() <= MAX_LOGS ==> final(self).logs@.len() <= MAX_LOGS,
            match msg {
                DeviceMsg::Log(record) => {
                    &&& final(self).active_layer == old(self).active_layer
                    &&& final(self).logs@ == if old(self).logs@.len() < MAX_LOGS {
                        old(self).logs@.push(record)
                    } else {
                        old(self).logs@.push(record).drop_first()
                    }
                },
                DeviceMsg::ChangeLayer(ChangeLayer { x, y }) => {
                    &&& final(self).active_layer == Some((x, y))
                    &&& final(self).logs@ == old(self).logs@
                },
                _ => {
                    &&& final(self).active_layer == old(self).active_layer
                    &&& final(self).logs@ == old(self).logs@
                },
            },
    {
        match msg {
            DeviceMsg::Log(record) => {
                self.logs.push_back(record);
                if self.logs.len() > MAX_LOGS {
                    let _ = self.logs.pop_front();
                }
            },
            DeviceMsg::ChangeLayer(ChangeLayer { x, y }) => {
                self.active_layer = Some((x, y));
            },
            _ => {},
        }
    }
}

} // verus!
