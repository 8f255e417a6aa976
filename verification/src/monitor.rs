//! Monitor geometry and the debounced "remember which monitor the window
//! lives on" rule: a window move schedules a delayed confirmation, and only
//! the newest move's confirmation commits (last writer wins after a quiet
//! period).

use vstd::prelude::*;

verus! {

/// One monitor's bounding box in virtual screen coordinates.
#[derive(Clone, Copy, PartialEq, Eq, Structural, Debug)]
pub struct MonitorRect {
    pub x: i32,
    pub y: i32,
    pub width: u32,
    pub height: u32,
}

/// The point lies inside the monitor's box.
pub open spec fn contains_point(m: MonitorRect, px: int, py: int) -> bool {
    &&& m.x <= px < m.x + m.width
    &&& m.y <= py < m.y + m.height
}

/// Index of the first monitor whose box contains the point, if any.
pub fn monitor_index_at(px: i32, py: i32, monitors: &Vec<MonitorRect>) -> (r: Option<usize>)
    ensures
        r matches Option::Some(i) ==> 0 <= i < monitors@.len() && contains_point(
            monitors@[i as int],
            px as int,
            py as int,
        ) && forall|q: int| 0 <= q < i ==> !contains_point(monitors@[q], px as int, py as int),
        r is None ==> forall|q: int|
            0 <= q < monitors@.len() ==> !contains_point(monitors@[q], px as int, py as int),
{
    let mut i: usize = 0;
    while i < monitors.len()
        invariant
            i <= monitors@.len(),
            forall|q: int| 0 <= q < i ==> !contains_point(monitors@[q], px as int, py as int),
        decreases monitors@.len() - i,
    {
        let m = monitors[i];
        let inside_x = m.x as i64 <= px as i64 && (px as i64) < m.x as i64 + m.width as i64;
        let inside_y = m.y as i64 <= py as i64 && (py as i64) < m.y as i64 + m.height as i64;
        if inside_x && inside_y {
            return Option::Some(i);
        }
        i += 1;
    }
    Option::None
}

/// Horizontal position that centers a window of width `ww` on `m`;
/// truncating division, as the platform's integer arithmetic has it.
pub open spec fn spec_center_x(m: MonitorRect, ww: u32) -> int {
    if m.width >= ww {
        m.x + (m.width - ww) / 2
    } else {
        m.x - ((ww - m.width) / 2)
    }
}

/// Vertical counterpart of [`spec_center_x`].
pub open spec fn spec_center_y(m: MonitorRect, wh: u32) -> int {
    if m.height >= wh {
        m.y + (m.height - wh) / 2
    } else {
        m.y - ((wh - m.height) / 2)
    }
}

/// The screen position that centers a `ww` by `wh` window on monitor `m`.
pub fn center_position(m: &MonitorRect, ww: u32, wh: u32) -> (r: (i32, i32))
    requires
        i32::MIN <= spec_center_x(*m, ww) <= i32::MAX,
        i32::MIN <= spec_center_y(*m, wh) <= i32::MAX,
    ensures
        r.0 as int == spec_center_x(*m, ww),
        r.1 as int == spec_center_y(*m, wh),
{
    let x64: i64 = if m.width >= ww {
        m.x as i64 + ((m.width - ww) / 2) as i64
    } else {
        m.x as i64 - ((ww - m.width) / 2) as i64
    };
    let y64: i64 = if m.height >= wh {
        m.y as i64 + ((m.height - wh) / 2) as i64
    } else {
        m.y as i64 - ((wh - m.height) / 2) as i64
    };
    (x64 as i32, y64 as i32)
}

/// Shared state of the move debounce: the newest move's timestamp and the
/// monitor it landed on.
#[derive(Clone, Copy, PartialEq, Eq, Structural, Debug)]
pub struct MoveDebounce {
    pub last_move_time: u64,
    pub last_monitor: Option<usize>,
}

impl MoveDebounce {
    /// Fresh state: no move seen yet.
    pub fn new() -> (r: MoveDebounce)
        ensures
            r.last_move_time == 0,
            r.last_monitor is None,
    {
        MoveDebounce { last_move_time: 0, last_monitor: Option::None }
    }

    /// A move event at time `now` put the window on monitor `monitor`; it
    /// supersedes every earlier move.
    pub fn record_move(&mut self, now: u64, monitor: usize)
        ensures
            final(self).last_move_time == now,
            final(self).last_monitor == Option::Some(monitor),
    {
        self.last_move_time = now;
        self.last_monitor = Option::Some(monitor);
    }

    /// A confirmation scheduled at time `scheduled` wakes up and asks what to
    /// commit: the recorded monitor when no newer move superseded it and it
    /// differs from the current preference, else nothing.
    pub fn should_commit(&self, scheduled: u64, current_pref: Option<usize>) -> (r: Option<usize>)
        ensures
            r matches Option::Some(m) ==> {
                &&& scheduled == self.last_move_time
                &&& self.last_monitor == Option::Some(m)
                &&& current_pref != Option::Some(m)
            },
            r is None ==> {
                ||| scheduled != self.last_move_time
                ||| self.last_monitor is None
                ||| self.last_monitor == current_pref
            },
    {
        if scheduled != self.last_move_time {
            return Option::None;
        }
        match self.last_monitor {
            Option::Some(m) => {
                let same = match current_pref {
                    Option::Some(p) => p == m,
                    Option::None => false,
                };
                if same {
                    Option::None
                } else {
                    Option::Some(m)
                }
            },
            Option::None => Option::None,
        }
    }

}

} // verus!
