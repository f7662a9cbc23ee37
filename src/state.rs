//! The snapshot cell shared between the poll loop and its readers.
use vstd::prelude::*;
use vstd::rwlock::{RwLock, RwLockPredicate};
use std::sync::Arc;
use crate::protocol::TemperatureData;

verus! {

/// What the cell holds: the last reading and whether the device answers.
#[derive(Debug, Clone, Copy)]
pub struct Snapshot {
    pub temperatures: TemperatureData,
    pub connected: bool,
}

impl Snapshot {
    /// The snapshot before any reading: all zero, not connected.
    pub fn initial() -> (r: Snapshot)
        ensures
            r.temperatures.tenths@ == seq![0u16, 0u16, 0u16, 0u16],
            !r.connected,
    {
        let r = Snapshot { temperatures: TemperatureData { tenths: [0, 0, 0, 0] }, connected: false };
        assert(r.temperatures.tenths@ =~= seq![0u16, 0u16, 0u16, 0u16]);
        r
    }

    /// This snapshot with its reading replaced as a whole.
    pub fn with_reading(self, data: TemperatureData) -> (r: Snapshot)
        ensures
            r.temperatures == data,
            r.connected == self.connected,
    {
        Snapshot { temperatures: data, connected: self.connected }
    }

    /// This snapshot with its connectivity flag replaced.
    pub fn with_connected(self, connected: bool) -> (r: Snapshot)
        ensures
            r.temperatures == self.temperatures,
            r.connected == connected,
    {
        Snapshot { temperatures: self.temperatures, connected }
    }
}

/// Any snapshot may stand in the cell.
pub struct AnySnapshot {}

impl RwLockPredicate<Snapshot> for AnySnapshot {
    open spec fn inv(self, v: Snapshot) -> bool {
        true
    }
}

/// A cell that many threads may read and one may write. Each write replaces
/// the reading or the flag under the lock, so a reader sees a whole reading.
#[derive(Clone)]
pub struct TemperatureState {
    inner: Arc<RwLock<Snapshot, AnySnapshot>>,
}

impl TemperatureState {
    /// A cell holding the initial snapshot.
    pub fn new() -> (r: TemperatureState) {
        let lock = RwLock::new(Snapshot::initial(), Ghost(AnySnapshot {}));
        TemperatureState { inner: Arc::new(lock) }
    }

    /// Replaces the reading; the flag stays as it is.
    pub fn update(&self, data: TemperatureData) {
        let (cur, handle) = self.inner.acquire_write();
        handle.release_write(cur.with_reading(data));
    }

    /// Replaces the connectivity flag; the reading stays as it is.
    pub fn set_connected(&self, connected: bool) {
        let (cur, handle) = self.inner.acquire_write();
        handle.release_write(cur.with_connected(connected));
    }

    /// A copy of the whole snapshot, taken under one read lock.
    pub fn snapshot(&self) -> (r: Snapshot) {
        let handle = self.inner.acquire_read();
        let r = *handle.borrow();
        handle.release_read();
        r
    }

    /// The last reading, in tenths of a degree.
    pub fn get_temperatures(&self) -> (r: [u16; 4]) {
        self.snapshot().temperatures.tenths
    }

    /// Whether the last exchange with the device succeeded.
    pub fn is_connected(&self) -> (r: bool) {
        self.snapshot().connected
    }
}

} // verus!
