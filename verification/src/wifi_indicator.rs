//! The Wi-Fi indicator of the status bar: an icon shown while Wi-Fi is enabled, marked as
//! connected while the device has an address. The state is read every so often; the
//! indicator is drawn again only when what it shows changes.

use vstd::prelude::*;
use crate::geom::{Point, Rect};

verus! {

/// Whether the Wi-Fi state is due to be read again: `elapsed` time has passed since the last
/// reading, and readings are `interval` apart.
pub fn reading_due(elapsed: u64, interval: u64) -> (due: bool)
    ensures
        due == (elapsed >= interval),
{
    elapsed >= interval
}

/// The Wi-Fi indicator: where it is anchored, whether Wi-Fi is enabled and connected, and
/// whether its icon is to be drawn again.
#[derive(Debug, Clone, Copy)]
pub struct WifiIndicator {
    point: Point,
    enabled: bool,
    connected: bool,
    dirty: bool,
}

impl WifiIndicator {
    pub closed spec fn spec_point(&self) -> Point {
        self.point
    }

    pub closed spec fn spec_enabled(&self) -> bool {
        self.enabled
    }

    pub closed spec fn spec_connected(&self) -> bool {
        self.connected
    }

    /// Whether the icon is to be drawn again.
    pub closed spec fn spec_dirty(&self) -> bool {
        self.dirty
    }

    /// An indicator for the state read at start: connected when Wi-Fi is enabled and the
    /// device has an address; its icon is to be drawn.
    pub fn new(point: Point, enabled: bool, has_address: bool) -> (w: Self)
        ensures
            w.spec_point() == point,
            w.spec_enabled() == enabled,
            w.spec_connected() == (enabled && has_address),
            w.spec_dirty(),
    {
        WifiIndicator { point, enabled, connected: enabled && has_address, dirty: true }
    }

    /// Takes a new reading of the state: when whether Wi-Fi is enabled or connected changes,
    /// the indicator shows the new state and is drawn again; otherwise nothing changes.
    pub fn refresh(&mut self, enabled: bool, has_address: bool)
        ensures
            final(self).spec_enabled() == enabled,
            final(self).spec_connected() == (enabled && has_address),
            final(self).spec_point() == old(self).spec_point(),
            final(self).spec_dirty() == (old(self).spec_dirty() || enabled
                != old(self).spec_enabled() || (enabled && has_address)
                != old(self).spec_connected()),
    {
        let connected = enabled && has_address;
        if enabled != self.enabled || connected != self.connected {
            self.enabled = enabled;
            self.connected = connected;
            self.dirty = true;
        }
    }

    /// Whether Wi-Fi is connected, as the icon shows it.
    pub fn connected(&self) -> (c: bool)
        ensures
            c == self.spec_connected(),
    {
        self.connected
    }

    /// Whether the indicator is shown at all: only while Wi-Fi is enabled.
    pub fn is_shown(&self) -> (s: bool)
        ensures
            s == self.spec_enabled(),
    {
        self.enabled
    }

    /// Whether the indicator is to be drawn: shown, and its icon to be drawn again.
    pub fn should_draw(&self) -> (d: bool)
        ensures
            d == (self.spec_enabled() && self.spec_dirty()),
    {
        self.enabled && self.dirty
    }

    pub fn set_should_draw(&mut self)
        ensures
            final(self).spec_dirty(),
            final(self).spec_enabled() == old(self).spec_enabled(),
            final(self).spec_connected() == old(self).spec_connected(),
            final(self).spec_point() == old(self).spec_point(),
    {
        self.dirty = true;
    }

    /// Records that the icon was drawn.
    pub fn mark_drawn(&mut self)
        ensures
            !final(self).spec_dirty(),
            final(self).spec_enabled() == old(self).spec_enabled(),
            final(self).spec_connected() == old(self).spec_connected(),
            final(self).spec_point() == old(self).spec_point(),
    {
        self.dirty = false;
    }

    /// The area of the indicator: that of its icon, `icon_box`, while shown, and nothing
    /// otherwise.
    pub fn bounding_box(&self, icon_box: Rect) -> (r: Rect)
        ensures
            r == if self.spec_enabled() {
                icon_box
            } else {
                Rect { x: 0, y: 0, w: 0, h: 0 }
            },
    {
        if !self.enabled {
            return Rect::zero();
        }
        icon_box
    }

    /// Moves the indicator, and its icon with it.
    pub fn set_position(&mut self, point: Point)
        ensures
            final(self).spec_point() == point,
            final(self).spec_enabled() == old(self).spec_enabled(),
            final(self).spec_connected() == old(self).spec_connected(),
            final(self).spec_dirty() == old(self).spec_dirty(),
    {
        self.point = point;
    }

    pub fn point(&self) -> (p: Point)
        ensures
            p == self.spec_point(),
    {
        self.point
    }
}

} // verus!
