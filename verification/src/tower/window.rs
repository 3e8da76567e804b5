//! Fixed-window spend accumulator in micro-dollars (`USD × 10^6`).
//!
//! The window restarts lazily: the first access at or after
//! `window_start + window_secs` zeroes the total and moves the start to the
//! access time.

use vstd::prelude::*;

verus! {

/// Abstract state of a [`SpendWindow`].
pub struct WindowModel {
    /// Spend accumulated in the current window.
    pub spend_mc: nat,
    /// Start of the current window (seconds).
    pub start_secs: nat,
    /// Window length (seconds).
    pub window_secs: nat,
}

/// Whether the window starting at `start` of length `len` has elapsed at `now`.
pub open spec fn window_elapsed(start: nat, len: nat, now: nat) -> bool {
    (if now >= start { now - start } else { 0 }) >= len
}

/// The window as seen at `now`: restarted and emptied if it has elapsed.
pub open spec fn window_at(w: WindowModel, now: nat) -> WindowModel {
    if window_elapsed(w.start_secs, w.window_secs, now) {
        WindowModel { spend_mc: 0, start_secs: now, ..w }
    } else {
        w
    }
}

/// The window after adding `mc` at `now` (the total wraps modulo 2^64, as an
/// atomic counter does).
pub open spec fn window_after_add(w: WindowModel, mc: nat, now: nat) -> WindowModel {
    let cur = window_at(w, now);
    WindowModel { spend_mc: (cur.spend_mc + mc) % 0x1_0000_0000_0000_0000, ..cur }
}

/// A spend accumulator over a fixed window.
#[derive(Debug, Clone, Copy)]
pub struct SpendWindow {
    spend_mc: u64,
    window_start_secs: u64,
    window_secs: u64,
}

impl View for SpendWindow {
    type V = WindowModel;

    closed spec fn view(&self) -> WindowModel {
        WindowModel {
            spend_mc: self.spend_mc as nat,
            start_secs: self.window_start_secs as nat,
            window_secs: self.window_secs as nat,
        }
    }
}

impl SpendWindow {
    /// An empty window of `window_secs` seconds starting at `now_secs`.
    pub fn new(window_secs: u64, now_secs: u64) -> (w: Self)
        ensures
            w@ == (WindowModel { spend_mc: 0, start_secs: now_secs as nat, window_secs: window_secs as nat }),
    {
        SpendWindow { spend_mc: 0, window_start_secs: now_secs, window_secs }
    }

    /// The spend in the window current at `now_secs`, restarting the window
    /// if it has elapsed.
    pub fn spend_mc(&mut self, now_secs: u64) -> (mc: u64)
        ensures
            final(self)@ == window_at(old(self)@, now_secs as nat),
            mc as nat == final(self)@.spend_mc,
    {
        if now_secs.saturating_sub(self.window_start_secs) >= self.window_secs {
            self.spend_mc = 0;
            self.window_start_secs = now_secs;
        }
        self.spend_mc
    }

    /// Add `mc` to the window current at `now_secs`.
    pub fn add_mc(&mut self, mc: u64, now_secs: u64)
        ensures
            final(self)@ == window_after_add(old(self)@, mc as nat, now_secs as nat),
    {
        let _ = self.spend_mc(now_secs);
        self.spend_mc = self.spend_mc.wrapping_add(mc);
    }

    /// Empty the window and restart it at `now_secs`.
    pub fn reset(&mut self, now_secs: u64)
        ensures
            final(self)@ == (WindowModel { spend_mc: 0, start_secs: now_secs as nat, ..old(self)@ }),
    {
        self.spend_mc = 0;
        self.window_start_secs = now_secs;
    }
}

/// Spend added within one window is never forgotten before the window
/// elapses, and is always forgotten once it has.
pub proof fn law_window_spend_persists_until_elapsed(w: WindowModel, mc: nat, now: nat, later: nat)
    requires
        w.spend_mc + mc < 0x1_0000_0000_0000_0000,
        !window_elapsed(w.start_secs, w.window_secs, now),
        now <= later,
    ensures
        !window_elapsed(w.start_secs, w.window_secs, later) ==> window_at(window_after_add(w, mc, now), later).spend_mc == w.spend_mc + mc,
        window_elapsed(w.start_secs, w.window_secs, later) ==> window_at(window_after_add(w, mc, now), later).spend_mc == 0,
{
}

} // verus!
