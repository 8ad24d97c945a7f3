//! Display monitors as they are listed for the host application.

use vstd::prelude::*;
use crate::json::text_view;
use crate::text::{decimal, decimal_of};

verus! {

/// A connected display monitor with its position and size.
#[derive(Debug, Clone, PartialEq, Eq)]
pub struct MonitorInfo {
    pub id: String,
    pub name: String,
    pub x: i32,
    pub y: i32,
    pub width: u32,
    pub height: u32,
}

/// Mathematical model of a [`MonitorInfo`].
pub struct MonitorInfoView {
    pub id: Seq<char>,
    pub name: Seq<char>,
    pub x: i32,
    pub y: i32,
    pub width: u32,
    pub height: u32,
}

impl View for MonitorInfo {
    type V = MonitorInfoView;

    open spec fn view(&self) -> MonitorInfoView {
        MonitorInfoView {
            id: self.id@,
            name: self.name@,
            x: self.x,
            y: self.y,
            width: self.width,
            height: self.height,
        }
    }
}

/// The identifier of the monitor at position `index` in the list, counted
/// from zero.
pub open spec fn monitor_id_of(index: nat) -> Seq<char> {
    "monitor-"@ + decimal_of(index)
}

/// The name shown for the monitor at position `index`: the one the system
/// reports, or its number in the list, counted from one.
pub open spec fn monitor_name_of(index: nat, reported: Option<Seq<char>>) -> Seq<char> {
    match reported {
        Some(name) => name,
        None => "Monitor "@ + decimal_of(index + 1),
    }
}

impl MonitorInfo {
    /// The entry for the monitor at position `index` in the list.
    pub fn describe(
        index: usize,
        reported: Option<String>,
        x: i32,
        y: i32,
        width: u32,
        height: u32,
    ) -> (info: MonitorInfo)
        requires
            index < usize::MAX,
        ensures
            info@ == (MonitorInfoView {
                id: monitor_id_of(index as nat),
                name: monitor_name_of(index as nat, text_view(reported)),
                x,
                y,
                width,
                height,
            }),
    {
        let id = String::from_str("monitor-").concat(decimal(index as u64).as_str());
        let name = match reported {
            Some(name) => name,
            None => String::from_str("Monitor ").concat(decimal((index + 1) as u64).as_str()),
        };
        MonitorInfo { id, name, x, y, width, height }
    }
}

} // verus!
