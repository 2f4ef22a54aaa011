//! The status bar: which indicators it holds, in a row aligned to the right, and the rounded
//! box behind them.

use vstd::prelude::*;
use crate::geom::Rect;

verus! {

/// The backdrop behind a row of indicators whose area is `bbox`: the area grown by the
/// padding on each side and cut off at the top of the screen; none when the row has no area.
pub open spec fn spec_backdrop(bbox: Rect, padding_x: int, padding_y: int) -> Option<Rect> {
    if bbox.w > 0 && bbox.h > 0 {
        let x = bbox.x - padding_x;
        let y = bbox.y - padding_y;
        let w = bbox.w + padding_x * 2;
        let h = bbox.h + padding_y * 2;
        if y < 0 {
            Some(Rect { x: x as i32, y: 0, w: w as u32, h: (h + y) as u32 })
        } else {
            Some(Rect { x: x as i32, y: y as i32, w: w as u32, h: h as u32 })
        }
    } else {
        None
    }
}

/// The backdrop behind a row of indicators whose area is `bbox`.
pub fn backdrop(bbox: Rect, padding_x: i32, padding_y: i32) -> (r: Option<Rect>)
    requires
        0 <= padding_x <= i32::MAX / 2,
        0 <= padding_y <= i32::MAX / 2,
        i32::MIN <= bbox.x - padding_x,
        i32::MIN <= bbox.y - padding_y,
        bbox.w + padding_x * 2 <= u32::MAX,
        bbox.h + padding_y * 2 <= i32::MAX,
    ensures
        r == spec_backdrop(bbox, padding_x as int, padding_y as int),
{
    if bbox.w > 0 && bbox.h > 0 {
        let mut b = bbox;
        b.x = b.x - padding_x;
        b.y = b.y - padding_y;
        b.w = b.w + (padding_x * 2) as u32;
        b.h = b.h + (padding_y * 2) as u32;
        if b.y < 0 {
            b.h = (b.h as i32 + b.y) as u32;
            b.y = 0;
        }
        Some(b)
    } else {
        None
    }
}

/// An indicator of the status bar.
#[derive(Debug, Clone, Copy, PartialEq, Eq, Structural)]
pub enum StatusItem {
    Battery,
    Wifi,
    Clock,
}

/// The indicators of the status bar, in the order of its row: the battery always, then the
/// Wi-Fi indicator and the clock when the stylesheet shows them.
pub open spec fn spec_status_items(show_wifi: bool, show_clock: bool) -> Seq<StatusItem> {
    seq![StatusItem::Battery] + (if show_wifi {
        seq![StatusItem::Wifi]
    } else {
        Seq::empty()
    }) + (if show_clock {
        seq![StatusItem::Clock]
    } else {
        Seq::empty()
    })
}

/// The indicators of the status bar, in the order of its row.
pub fn status_items(show_wifi: bool, show_clock: bool) -> (items: Vec<StatusItem>)
    ensures
        items@ == spec_status_items(show_wifi, show_clock),
{
    let mut items = vec![StatusItem::Battery];
    if show_wifi {
        items.push(StatusItem::Wifi);
    }
    if show_clock {
        items.push(StatusItem::Clock);
    }
    assert(items@ =~= spec_status_items(show_wifi, show_clock));
    items
}

} // verus!
