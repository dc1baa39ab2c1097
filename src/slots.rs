//! The shared slots between the pollers and the display: one lock-protected
//! cell per source, replaced wholesale by its poller under the write lock and
//! read under the read lock. Every value a reader can see is a complete
//! snapshot: the lock's invariant holds of whatever a writer leaves behind.

use vstd::prelude::*;
use vstd::rwlock::{ReadHandle, RwLock, RwLockPredicate};
use crate::api::{apply_weather_fetch, WeatherInfo, WeatherView};
use crate::bluetooth::{apply_playback_poll, PlaybackData, RecordView};
use crate::errors::UnyoError;
use crate::wifi_api::{apply_signal_poll, WifiSignalBars};

verus! {

/// A forecast with all of its points: 24 hourly and 7 daily ones.
pub open spec fn complete_weather(w: WeatherView) -> bool {
    w.hourly.len() == 24 && w.daily.len() == 7
}

/// A playback snapshot cut for display: title within 41 characters, artist within 20.
pub open spec fn complete_playback(d: RecordView) -> bool {
    d.0.len() <= 41 && d.1.len() <= 20
}

/// The invariant of the weather slot.
pub struct WeatherSlotInv;

impl RwLockPredicate<Option<WeatherInfo>> for WeatherSlotInv {
    open spec fn inv(self, v: Option<WeatherInfo>) -> bool {
        v matches Some(w) ==> complete_weather(w@)
    }
}

/// The invariant of the playback slot.
pub struct PlaybackSlotInv;

impl RwLockPredicate<Option<PlaybackData>> for PlaybackSlotInv {
    open spec fn inv(self, v: Option<PlaybackData>) -> bool {
        v matches Some(d) ==> complete_playback(d@)
    }
}

/// The invariant of the signal slot: any band.
pub struct SignalSlotInv;

impl RwLockPredicate<WifiSignalBars> for SignalSlotInv {
    open spec fn inv(self, v: WifiSignalBars) -> bool {
        true
    }
}

/// The slot of the latest forecast.
pub struct WeatherSlot {
    lock: RwLock<Option<WeatherInfo>, WeatherSlotInv>,
}

impl WeatherSlot {
    /// An empty slot: no forecast yet.
    pub fn new() -> (s: Self) {
        WeatherSlot { lock: RwLock::new(None, Ghost(WeatherSlotInv)) }
    }

    /// Applies the outcome of a fetch under the write lock: a complete forecast
    /// replaces the held one; a failure, or a forecast that lacks points, leaves
    /// it as it was.
    pub fn publish(&self, fetched: Result<WeatherInfo, UnyoError>) {
        let (prev, handle) = self.lock.acquire_write();
        let usable = match &fetched {
            Ok(w) => w.hourly.len() == 24 && w.daily.len() == 7,
            Err(_) => true,
        };
        let next = if usable {
            apply_weather_fetch(prev, fetched)
        } else {
            prev
        };
        handle.release_write(next);
    }

    /// Takes the read lock; release it with `release_read` once done.
    pub fn read(&self) -> (h: ReadHandle<'_, Option<WeatherInfo>, WeatherSlotInv>)
        ensures
            h.view() matches Some(w) ==> complete_weather(w@),
    {
        self.lock.acquire_read()
    }
}

/// The slot of the latest playback snapshot.
pub struct PlaybackSlot {
    lock: RwLock<Option<PlaybackData>, PlaybackSlotInv>,
}

impl PlaybackSlot {
    /// An empty slot: no player seen yet.
    pub fn new() -> (s: Self) {
        PlaybackSlot { lock: RwLock::new(None, Ghost(PlaybackSlotInv)) }
    }

    /// Applies the outcome of a poll under the write lock (see `apply_playback_poll`);
    /// a snapshot that is not cut for display is not taken.
    pub fn publish(&self, polled: Option<Option<PlaybackData>>) {
        let (prev, handle) = self.lock.acquire_write();
        let usable = match &polled {
            Some(Some(d)) => d.title.as_str().unicode_len() <= 41 && d.artist.as_str().unicode_len() <= 20,
            _ => true,
        };
        let next = if usable {
            apply_playback_poll(prev, polled)
        } else {
            prev
        };
        handle.release_write(next);
    }

    /// Takes the read lock; release it with `release_read` once done.
    pub fn read(&self) -> (h: ReadHandle<'_, Option<PlaybackData>, PlaybackSlotInv>)
        ensures
            h.view() matches Some(d) ==> complete_playback(d@),
    {
        self.lock.acquire_read()
    }
}

/// The slot of the latest signal band.
pub struct SignalSlot {
    lock: RwLock<WifiSignalBars, SignalSlotInv>,
}

impl SignalSlot {
    /// A slot that shows no signal until the first poll succeeds.
    pub fn new() -> (s: Self) {
        SignalSlot { lock: RwLock::new(WifiSignalBars::NoSignal, Ghost(SignalSlotInv)) }
    }

    /// Applies the outcome of a poll under the write lock (see `apply_signal_poll`).
    pub fn publish(&self, polled: Option<WifiSignalBars>) {
        let (prev, handle) = self.lock.acquire_write();
        handle.release_write(apply_signal_poll(prev, polled));
    }

    /// The band held now.
    pub fn get(&self) -> WifiSignalBars {
        let h = self.lock.acquire_read();
        let b = *h.borrow();
        h.release_read();
        b
    }
}

} // verus!
