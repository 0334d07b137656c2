//! Scan and reconnect bookkeeping over the known sessions.
//!
//! The manager owns one long-lived session per physical unit, keyed by
//! the unit's stable identity.  Each scan cycle takes the currently
//! reachable units: known identities absent from the scan are marked
//! disconnected, new identities get a fresh session, and known identities
//! whose session is disconnected are re-seated onto their new channel —
//! the original session object is reused, never replaced, so calibration
//! identity survives any number of disconnect/reconnect cycles.

use vstd::prelude::*;

use crate::device::WiimoteDevice;
use crate::native::NativeWiimote;

verus! {

/// The stable serial number (address) of one physical unit.
#[derive(Debug, PartialEq, Eq, Hash, Clone)]
pub struct WiimoteSerialNumber(pub String);

/// One outcome of a scan cycle, indexing into the manager's sessions.
#[derive(Debug, Clone, Copy, PartialEq, Eq, Structural)]
pub enum ScanEvent {
    /// A new unit was seen and its session created at this index.
    Connected(usize),
    /// The known, disconnected unit at this index was re-seated onto its
    /// new channel.
    Reconnected(usize),
    /// A new unit was seen but its session failed initialization; nothing
    /// was kept.
    ConnectionFailed,
    /// The known, disconnected unit at this index was seen again but
    /// failed to reinitialize; it stays known.
    ReconnectionFailed(usize),
}

/// The identities of a scan result, in scan order.
pub open spec fn spec_found_ids<D: NativeWiimote>(found: Seq<(String, D)>) -> Seq<Seq<char>> {
    found.map_values(|p: (String, D)| p.0@)
}

/// Where a scan event may point: a `Connected` event names one of the
/// sessions appended by this cycle; a reconnection event names a session
/// that existed before the cycle and whose identity this scan reported.
pub open spec fn spec_event_scope(
    ev: ScanEvent,
    old_len: int,
    new_len: int,
    old_ids: Seq<Seq<char>>,
    found_ids: Seq<Seq<char>>,
) -> bool {
    match ev {
        ScanEvent::Connected(k) => old_len <= k < new_len,
        ScanEvent::Reconnected(j) => j < old_len && found_ids.contains(old_ids[j as int]),
        ScanEvent::ConnectionFailed => true,
        ScanEvent::ReconnectionFailed(j) => j < old_len && found_ids.contains(old_ids[j as int]),
    }
}

/// Whether the creation of the session at index `k` is on record.
pub open spec fn spec_creation_recorded(events: Seq<ScanEvent>, k: int) -> bool {
    exists|e: int| 0 <= e < events.len() && events[e] == ScanEvent::Connected(k as usize)
}

/// Manages the sessions of every unit seen so far, connected or not.
pub struct WiimoteManager<D: NativeWiimote> {
    devices: Vec<WiimoteDevice<D>>,
    scan_interval_millis: u64,
}

impl<D: NativeWiimote> WiimoteManager<D> {
    /// The sessions, in the order their units were first seen.
    pub closed spec fn spec_devices(&self) -> Seq<WiimoteDevice<D>> {
        self.devices@
    }

    /// The session identities, in the same order.
    pub open spec fn spec_ids(&self) -> Seq<Seq<char>> {
        self.spec_devices().map_values(|d: WiimoteDevice<D>| d.spec_identifier())
    }

    pub closed spec fn spec_scan_interval_millis(&self) -> u64 {
        self.scan_interval_millis
    }

    /// At most one session per identity.
    pub open spec fn wf(&self) -> bool {
        forall|i: int, j: int|
            0 <= i < j < self.spec_ids().len() ==> self.spec_ids()[i] != self.spec_ids()[j]
    }

    /// An empty manager that scans at the given interval.
    pub fn new(scan_interval_millis: u64) -> (r: Self)
        ensures
            r.wf(),
            r.spec_devices().len() == 0,
            r.spec_scan_interval_millis() == scan_interval_millis,
    {
        let r = WiimoteManager { devices: Vec::new(), scan_interval_millis };
        proof {
            assert(r.spec_ids().len() == 0);
        }
        r
    }

    /// Sets the interval at which the caller should run scan cycles.
    pub fn set_scan_interval(&mut self, scan_interval_millis: u64)
        ensures
            final(self).spec_scan_interval_millis() == scan_interval_millis,
            final(self).spec_devices() == old(self).spec_devices(),
    {
        self.scan_interval_millis = scan_interval_millis;
    }

    /// The interval at which the caller should run scan cycles, in
    /// milliseconds.
    pub fn scan_interval_millis(&self) -> (r: u64)
        ensures
            r == self.spec_scan_interval_millis(),
    {
        self.scan_interval_millis
    }

    /// All sessions seen so far, connected or not.
    pub fn seen_devices(&self) -> (r: &Vec<WiimoteDevice<D>>)
        ensures
            r@ == self.spec_devices(),
    {
        &self.devices
    }

    /// Mutable access to the session at `index`, for reads and writes
    /// against its unit.
    pub fn device_mut(&mut self, index: usize) -> (r: &mut WiimoteDevice<D>)
        requires
            index < old(self).spec_devices().len(),
        ensures
            *r == old(self).spec_devices()[index as int],
            final(self).spec_devices() == old(self).spec_devices().update(
                index as int,
                *final(r),
            ),
            final(self).spec_scan_interval_millis() == old(self).spec_scan_interval_millis(),
    {
        &mut self.devices[index]
    }

    /// The index of the session with the given identity, if any.
    fn find_index(&self, identifier: &String) -> (r: Option<usize>)
        ensures
            r matches Some(j) ==> j < self.spec_devices().len() && self.spec_ids()[j as int]
                == identifier@,
            r is None ==> !self.spec_ids().contains(identifier@),
    {
        let mut j: usize = 0;
        while j < self.devices.len()
            invariant
                j <= self.spec_devices().len(),
                forall|jj: int| 0 <= jj < j ==> self.spec_ids()[jj] != identifier@,
            decreases self.spec_devices().len() - j,
        {
            if self.devices[j].matches_identifier(identifier) {
                return Some(j);
            }
            j = j + 1;
        }
        proof {
            assert forall|jj: int|
                0 <= jj < self.spec_ids().len() implies self.spec_ids()[jj] != identifier@ by {}
        }
        None
    }

    /// Whether the scan result contains the identity of `device`.
    fn scan_contains(found: &Vec<(String, D)>, device: &WiimoteDevice<D>) -> (r: bool)
        ensures
            r == spec_found_ids(found@).contains(device.spec_identifier()),
    {
        let mut i: usize = 0;
        while i < found.len()
            invariant
                i <= found@.len(),
                forall|ii: int| 0 <= ii < i ==> found@[ii].0@ != device.spec_identifier(),
            decreases found@.len() - i,
        {
            if device.matches_identifier(&found[i].0) {
                proof {
                    assert(spec_found_ids(found@)[i as int] == device.spec_identifier());
                }
                return true;
            }
            i = i + 1;
        }
        proof {
            assert forall|ii: int|
                0 <= ii < spec_found_ids(found@).len() implies spec_found_ids(found@)[ii]
                != device.spec_identifier() by {}
        }
        false
    }

    /// One scan cycle over the currently reachable units, each given as
    /// its identity and a fresh channel.
    ///
    /// Known identities absent from `found` are marked disconnected.  A
    /// new identity gets a fresh session, appended and reported as
    /// `Connected`; a known identity whose session is disconnected is
    /// re-seated onto the new channel, in place, and reported as
    /// `Reconnected` (or `ReconnectionFailed`); a known identity whose
    /// session is already connected needs no action.  Per-unit failures
    /// never abort the rest of the cycle.
    pub fn scan(&mut self, found: Vec<(String, D)>) -> (events: Vec<ScanEvent>)
        requires
            old(self).wf(),
        ensures
            final(self).wf(),
            final(self).spec_scan_interval_millis() == old(self).spec_scan_interval_millis(),
            // sessions are never removed or reordered: every known session
            // stays at its index, with its identity intact
            old(self).spec_devices().len() <= final(self).spec_devices().len(),
            forall|j: int|
                0 <= j < old(self).spec_devices().len() ==> final(self).spec_ids()[j] == old(self).spec_ids()[j],
            // a known identity never gets a second session
            forall|k: int|
                old(self).spec_devices().len() <= k < final(self).spec_devices().len() ==> !old(self).spec_ids().contains(final(self).spec_ids()[k]) && spec_found_ids(
                    found@,
                ).contains(final(self).spec_ids()[k]) && final(self).spec_devices()[k].spec_connected(),
            // known identities absent from the scan are marked disconnected
            forall|j: int|
                0 <= j < old(self).spec_devices().len() && !spec_found_ids(found@).contains(
                    old(self).spec_ids()[j],
                ) ==> !final(self).spec_devices()[j].spec_connected(),
            // every event points where it claims
            forall|e: int|
                0 <= e < events@.len() ==> spec_event_scope(
                    #[trigger] events@[e],
                    old(self).spec_devices().len() as int,
                    final(self).spec_devices().len() as int,
                    old(self).spec_ids(),
                    spec_found_ids(found@),
                ),
            // a scanned unit whose identity is known and whose session was
            // disconnected is classified as a reconnection, never as new
            forall|i: int|
                0 <= i < found@.len() && (exists|j: int|
                    0 <= j < old(self).spec_devices().len() && old(self).spec_ids()[j]
                        == (#[trigger] found@[i]).0@ && !old(self).spec_devices()[j].spec_connected()) ==> (
                exists|e: int, j: int|
                    0 <= e < events@.len() && 0 <= j < old(self).spec_devices().len() && old(self).spec_ids()[j] == found@[i].0@ && (events@[e] == ScanEvent::Reconnected(
                        j as usize,
                    ) || events@[e] == ScanEvent::ReconnectionFailed(j as usize))),
            // a known session whose identity is scanned while it is still
            // connected needs no action and stays connected
            forall|j: int|
                0 <= j < old(self).spec_devices().len() && old(self).spec_devices()[j].spec_connected()
                    && spec_found_ids(found@).contains(old(self).spec_ids()[j]) ==> final(self).spec_devices()[j].spec_connected(),
            // a scanned unit whose identity is new is always handled: a
            // session was created for that identity and its creation
            // reported, or a failed construction is on record
            forall|i: int|
                0 <= i < found@.len() && !old(self).spec_ids().contains(
                    (#[trigger] found@[i]).0@,
                ) ==> (exists|e: int, k: int|
                    0 <= e < events@.len() && old(self).spec_devices().len() <= k < final(self).spec_devices().len() && events@[e] == ScanEvent::Connected(k as usize) && final(self).spec_ids()[k] == found@[i].0@) || (exists|e: int|
                    0 <= e < events@.len() && events@[e] == ScanEvent::ConnectionFailed),
            // a session's creation is reported exactly once: no `Connected`
            // event is repeated
            forall|e1: int, e2: int|
                0 <= e1 < e2 < events@.len() && (#[trigger] events@[e1]) == (
                #[trigger] events@[e2]) ==> !(events@[e1] is Connected),
    {
        let ghost old_len = self.spec_devices().len() as int;
        let ghost old_ids = self.spec_ids();
        let ghost old_devices = self.spec_devices();
        let ghost all_found_ids = spec_found_ids(found@);

        // Mark every known session absent from this scan disconnected.
        let mut j: usize = 0;
        while j < self.devices.len()
            invariant
                self.spec_devices().len() == old_len,
                self.spec_scan_interval_millis() == old(self).spec_scan_interval_millis(),
                j <= old_len,
                old_ids == old(self).spec_ids(),
                old_devices == old(self).spec_devices(),
                old_ids.len() == old_len,
                old_devices.len() == old_len,
                all_found_ids == spec_found_ids(found@),
                forall|jj: int| 0 <= jj < old_len ==> #[trigger] self.spec_ids()[jj] == old_ids[jj],
                forall|jj: int|
                    0 <= jj < old_len ==> (#[trigger] self.spec_devices()[jj]).spec_connected()
                        == (old_devices[jj].spec_connected() && (jj >= j
                        || all_found_ids.contains(old_ids[jj]))),
            decreases self.devices@.len() - j,
        {
            let ghost pre = self.spec_devices();
            proof {
                assert(pre[j as int].spec_identifier() == self.spec_ids()[j as int]);
            }
            let present = Self::scan_contains(&found, &self.devices[j]);
            if !present {
                let device = &mut self.devices[j];
                device.disconnected();
            }
            proof {
                assert forall|jj: int| 0 <= jj < old_len implies #[trigger] self.spec_ids()[jj]
                    == old_ids[jj] && self.spec_devices()[jj].spec_connected() == (
                old_devices[jj].spec_connected() && (jj >= j + 1 || all_found_ids.contains(
                    old_ids[jj],
                ))) by {
                    assert(self.spec_ids()[jj] == self.spec_devices()[jj].spec_identifier());
                    assert(pre.map_values(
                        |d: WiimoteDevice<D>| d.spec_identifier(),
                    )[jj] == pre[jj].spec_identifier());
                    assert((pre[jj]).spec_connected() == (old_devices[jj].spec_connected() && (
                    jj >= j as int || all_found_ids.contains(old_ids[jj])))) by {
                        assert(pre[jj] == pre[jj]);
                    }
                    if jj != j as int {
                        assert(self.spec_devices()[jj] == pre[jj]);
                    }
                }
            }
            j = j + 1;
        }

        let ghost mid_devices = self.spec_devices();
        let mut events: Vec<ScanEvent> = Vec::new();
        let mut found = found;
        let ghost orig_found = found@;

        while found.len() > 0
            invariant
                self.wf(),
                self.spec_scan_interval_millis() == old(self).spec_scan_interval_millis(),
                old_len <= self.spec_devices().len(),
                old_ids == old(self).spec_ids(),
                old_devices == old(self).spec_devices(),
                all_found_ids == spec_found_ids(orig_found),
                old_ids.len() == old_len,
                old_devices.len() == old_len,
                mid_devices.len() == old_len,
                orig_found.len() >= found@.len(),
                found@ == orig_found.subrange(
                    orig_found.len() - found@.len(),
                    orig_found.len() as int,
                ),
                // known sessions stay in place
                forall|jj: int| 0 <= jj < old_len ==> self.spec_ids()[jj] == old_ids[jj],
                // absent sessions stay disconnected
                forall|jj: int|
                    0 <= jj < old_len && !all_found_ids.contains(old_ids[jj]) ==> !self
                        .spec_devices()[jj].spec_connected(),
                // new sessions carry new identities from this scan and are
                // connected
                forall|k: int|
                    old_len <= k < self.spec_devices().len() ==> !old_ids.contains(
                        self.spec_ids()[k],
                    ) && all_found_ids.contains(self.spec_ids()[k]) && self
                        .spec_devices()[k].spec_connected(),
                // events recorded so far point where they claim
                forall|e: int|
                    0 <= e < events@.len() ==> spec_event_scope(
                        #[trigger] events@[e],
                        old_len,
                        self.spec_devices().len() as int,
                        old_ids,
                        all_found_ids,
                    ),
                // a session that came back up did so through a recorded
                // reconnection
                forall|jj: int|
                    0 <= jj < old_len && self.spec_devices()[jj].spec_connected()
                        && !mid_devices[jj].spec_connected() ==> exists|e: int|
                        0 <= e < events@.len() && events@[e] == ScanEvent::Reconnected(
                            jj as usize,
                        ),
                // after phase one a known session is connected only if it
                // was connected and is present in this scan
                forall|jj: int|
                    0 <= jj < old_len ==> mid_devices[jj].spec_connected() == (
                    old_devices[jj].spec_connected() && all_found_ids.contains(old_ids[jj])),
                // every processed unit with a known, disconnected session
                // has its reconnection attempt on record
                forall|i: int|
                    0 <= i < orig_found.len() - found@.len() && (exists|j: int|
                        0 <= j < old_len && old_ids[j] == (#[trigger] orig_found[i]).0@
                            && !old_devices[j].spec_connected()) ==> (exists|e: int, j: int|
                        0 <= e < events@.len() && 0 <= j < old_len && old_ids[j]
                            == orig_found[i].0@ && (events@[e] == ScanEvent::Reconnected(j as usize)
                            || events@[e] == ScanEvent::ReconnectionFailed(j as usize))),
                // connectivity on the old prefix never drops during this
                // phase
                forall|jj: int|
                    0 <= jj < old_len && mid_devices[jj].spec_connected() ==> (
                    #[trigger] self.spec_devices()[jj]).spec_connected(),
                // every appended session has its creation on record
                forall|k: int|
                    old_len <= k < self.spec_devices().len() ==> #[trigger] spec_creation_recorded(
                        events@,
                        k,
                    ),
                // every processed unit with a new identity has been handled
                forall|i: int|
                    0 <= i < orig_found.len() - found@.len() && !old_ids.contains(
                        (#[trigger] orig_found[i]).0@,
                    ) ==> (exists|e: int, k: int|
                        0 <= e < events@.len() && old_len <= k < self.spec_devices().len()
                            && events@[e] == ScanEvent::Connected(k as usize) && self.spec_ids()[k]
                            == orig_found[i].0@) || (exists|e: int|
                        0 <= e < events@.len() && events@[e] == ScanEvent::ConnectionFailed),
                // no recorded creation event is repeated
                forall|e1: int, e2: int|
                    0 <= e1 < e2 < events@.len() && (#[trigger] events@[e1]) == (
                    #[trigger] events@[e2]) ==> !(events@[e1] is Connected),
            decreases found@.len(),
        {
            let ghost i = orig_found.len() - found@.len();
            let (identifier, channel) = found.remove(0);
            proof {
                assert(orig_found[i].0@ == identifier@);
                assert(found@ =~= orig_found.subrange(
                    orig_found.len() - found@.len(),
                    orig_found.len() as int,
                ));
                assert(all_found_ids[i] == identifier@);
                assert(all_found_ids.contains(identifier@));
            }
            let ghost pre_devices = self.spec_devices();
            let ghost pre_ids = self.spec_ids();
            let ghost pre_events = events@;
            match self.find_index(&identifier) {
                Some(index) => {
                    proof {
                        assert(pre_ids[index as int] == identifier@);
                    }
                    let device = &mut self.devices[index];
                    let connected = device.is_connected();
                    if !connected {
                        match device.reconnect(channel) {
                            Ok(()) => {
                                events.push(ScanEvent::Reconnected(index));
                            },
                            Err(_) => {
                                events.push(ScanEvent::ReconnectionFailed(index));
                            },
                        }
                    }
                    proof {
                        // the session at `index` kept its identity; every
                        // other session is untouched
                        assert forall|jj: int|
                            0 <= jj < self.spec_devices().len() implies #[trigger] self.spec_ids()[jj] == pre_ids[jj] by {
                            assert(self.spec_ids()[jj] == self.spec_devices()[jj].spec_identifier());
                            assert(pre_ids[jj] == pre_devices[jj].spec_identifier());
                            if jj != index as int {
                                assert(self.spec_devices()[jj] == pre_devices[jj]);
                            }
                        }
                        assert forall|a: int, b: int|
                            0 <= a < b < self.spec_ids().len() implies self.spec_ids()[a] != self.spec_ids()[b] by {
                            assert(self.spec_ids()[a] == pre_ids[a]);
                            assert(self.spec_ids()[b] == pre_ids[b]);
                        }
                        if connected {
                            // already connected: nothing was written back
                            assert(self.spec_devices() =~= pre_devices);
                        } else {
                            // only connected sessions sit past the old
                            // prefix, so a reconnection targets a known one
                            assert(index < old_len);
                            assert(old_ids[index as int] == identifier@);
                        }
                        assert forall|k: int|
                            old_len <= k < self.spec_devices().len() implies !old_ids.contains(
                                #[trigger] self.spec_ids()[k],
                            ) && all_found_ids.contains(self.spec_ids()[k]) && self.spec_devices()[k].spec_connected() by {
                            assert(self.spec_devices()[k] == pre_devices[k]);
                            assert(pre_ids[k] == pre_devices[k].spec_identifier());
                        }
                        assert forall|jj: int|
                            0 <= jj < old_len && !all_found_ids.contains(old_ids[jj]) implies !(
                            #[trigger] self.spec_devices()[jj]).spec_connected() by {
                            if jj != index as int {
                                assert(self.spec_devices()[jj] == pre_devices[jj]);
                            }
                        }
                        assert forall|e: int|
                            0 <= e < events@.len() implies spec_event_scope(
                                #[trigger] events@[e],
                                old_len,
                                self.spec_devices().len() as int,
                                old_ids,
                                all_found_ids,
                            ) by {
                            if e < pre_events.len() {
                                assert(events@[e] == pre_events[e]);
                            }
                        }
                        // a session that came back up has its reconnection
                        // on record
                        assert forall|jj: int|
                            0 <= jj < old_len && (#[trigger] self.spec_devices()[jj]).spec_connected() && !mid_devices[jj].spec_connected() implies exists|e: int|
                                0 <= e < events@.len() && events@[e] == ScanEvent::Reconnected(
                                    jj as usize,
                                ) by {
                            if jj == index as int && !connected {
                                assert(0 <= pre_events.len() < events@.len() && events@[pre_events.len() as int] == ScanEvent::Reconnected(index));
                            } else {
                                if jj != index as int {
                                    assert(self.spec_devices()[jj] == pre_devices[jj]);
                                }
                                let e0 = choose|e: int|
                                    0 <= e < pre_events.len() && pre_events[e] == ScanEvent::Reconnected(jj as usize);
                                assert(events@[e0] == pre_events[e0]);
                            }
                        }
                        // the processed unit's reconnection attempt is on
                        // record
                        assert forall|ii: int|
                            0 <= ii < orig_found.len() - found@.len() && (exists|j: int|
                                0 <= j < old_len && old_ids[j] == (#[trigger] orig_found[ii]).0@
                                    && !old_devices[j].spec_connected()) implies (exists|e: int, j: int|
                                0 <= e < events@.len() && 0 <= j < old_len && old_ids[j] == orig_found[ii].0@ && (events@[e] == ScanEvent::Reconnected(j as usize) || events@[e] == ScanEvent::ReconnectionFailed(j as usize))) by {
                            if ii < i {
                                let (e0, j0) = choose|e: int, j: int|
                                    0 <= e < pre_events.len() && 0 <= j < old_len && old_ids[j] == orig_found[ii].0@ && (pre_events[e] == ScanEvent::Reconnected(j as usize) || pre_events[e] == ScanEvent::ReconnectionFailed(j as usize));
                                assert(events@[e0] == pre_events[e0]);
                            } else {
                                let j0 = choose|j: int|
                                    0 <= j < old_len && old_ids[j] == orig_found[ii].0@ && !old_devices[j].spec_connected();
                                assert(old_ids[j0] == identifier@);
                                assert(j0 == index as int);
                                assert(!mid_devices[j0].spec_connected());
                                if connected {
                                    // it came back up through an earlier
                                    // duplicate of this identity
                                    assert(pre_devices[j0].spec_connected());
                                    let e0 = choose|e: int|
                                        0 <= e < pre_events.len() && pre_events[e] == ScanEvent::Reconnected(j0 as usize);
                                    assert(events@[e0] == pre_events[e0]);
                                } else {
                                    assert(0 <= pre_events.len() < events@.len());
                                    assert(events@[pre_events.len() as int] == ScanEvent::Reconnected(index) || events@[pre_events.len() as int] == ScanEvent::ReconnectionFailed(index));
                                }
                            }
                        }
                        // connectivity on the old prefix never drops: a
                        // reconnection is only attempted on a disconnected
                        // session
                        assert forall|jj: int|
                            0 <= jj < old_len && mid_devices[jj].spec_connected() implies (
                            #[trigger] self.spec_devices()[jj]).spec_connected() by {
                            assert(pre_devices[jj].spec_connected());
                            if jj != index as int {
                                assert(self.spec_devices()[jj] == pre_devices[jj]);
                            } else {
                                assert(connected);
                                assert(self.spec_devices() =~= pre_devices);
                            }
                        }
                        // appended sessions keep their creation on record
                        assert forall|k: int|
                            old_len <= k < self.spec_devices().len() implies #[trigger] spec_creation_recorded(
                                events@,
                                k,
                            ) by {
                            assert(spec_creation_recorded(pre_events, k));
                            let e0 = choose|e: int|
                                0 <= e < pre_events.len() && pre_events[e] == ScanEvent::Connected(k as usize);
                            assert(events@[e0] == pre_events[e0]);
                        }
                        // a processed new identity stays handled; the
                        // processed unit itself is known here, so its
                        // session was appended by an earlier duplicate
                        assert forall|ii: int|
                            0 <= ii < orig_found.len() - found@.len() && !old_ids.contains(
                                (#[trigger] orig_found[ii]).0@,
                            ) implies (exists|e: int, k: int|
                                0 <= e < events@.len() && old_len <= k < self.spec_devices().len() && events@[e] == ScanEvent::Connected(k as usize) && self.spec_ids()[k] == orig_found[ii].0@) || (exists|e: int|
                                0 <= e < events@.len() && events@[e] == ScanEvent::ConnectionFailed) by {
                            if ii < i {
                                if exists|e: int, k: int|
                                    0 <= e < pre_events.len() && old_len <= k < pre_devices.len() && pre_events[e] == ScanEvent::Connected(k as usize) && pre_ids[k] == orig_found[ii].0@ {
                                    let (e0, k0) = choose|e: int, k: int|
                                        0 <= e < pre_events.len() && old_len <= k < pre_devices.len() && pre_events[e] == ScanEvent::Connected(k as usize) && pre_ids[k] == orig_found[ii].0@;
                                    assert(events@[e0] == pre_events[e0]);
                                    assert(self.spec_ids()[k0] == pre_ids[k0]);
                                } else {
                                    let e0 = choose|e: int|
                                        0 <= e < pre_events.len() && pre_events[e] == ScanEvent::ConnectionFailed;
                                    assert(events@[e0] == pre_events[e0]);
                                }
                            } else {
                                assert(pre_ids[index as int] == identifier@);
                                if index < old_len {
                                    assert(old_ids[index as int] == identifier@);
                                    assert(old_ids.contains(identifier@));
                                }
                                assert(index >= old_len);
                                assert(spec_creation_recorded(pre_events, index as int));
                                let e0 = choose|e: int|
                                    0 <= e < pre_events.len() && pre_events[e] == ScanEvent::Connected(index as usize);
                                assert(events@[e0] == pre_events[e0]);
                                assert(self.spec_ids()[index as int] == pre_ids[index as int]);
                            }
                        }
                        // no creation event was added, so none is repeated
                        assert forall|e1: int, e2: int|
                            0 <= e1 < e2 < events@.len() && (#[trigger] events@[e1]) == (
                            #[trigger] events@[e2]) implies !(events@[e1] is Connected) by {
                            assert(events@[e1] == pre_events[e1]);
                            if e2 < pre_events.len() {
                                assert(events@[e2] == pre_events[e2]);
                            } else {
                                assert(events@[e2] == ScanEvent::Reconnected(index) || events@[e2] == ScanEvent::ReconnectionFailed(index));
                            }
                        }
                    }
                },
                None => {
                    proof {
                        assert forall|j: int| 0 <= j < old_len implies #[trigger] old_ids[j] != identifier@ by {
                            assert(self.spec_ids()[j] == old_ids[j]);
                        }
                        assert(!old_ids.contains(identifier@));
                    }
                    match WiimoteDevice::with_identifier(identifier, channel) {
                        Ok(device) => {
                            let index = self.devices.len();
                            self.devices.push(device);
                            events.push(ScanEvent::Connected(index));
                            proof {
                                assert(self.spec_devices() =~= pre_devices.push(device));
                                assert forall|jj: int|
                                    0 <= jj < self.spec_devices().len() implies #[trigger] self.spec_ids()[jj] == (if jj < pre_ids.len() {
                                        pre_ids[jj]
                                    } else {
                                        identifier@
                                    }) by {
                                    assert(self.spec_ids()[jj] == self.spec_devices()[jj].spec_identifier());
                                    if jj < pre_ids.len() {
                                        assert(self.spec_devices()[jj] == pre_devices[jj]);
                                        assert(pre_ids[jj] == pre_devices[jj].spec_identifier());
                                    }
                                }
                                assert forall|a: int, b: int|
                                    0 <= a < b < self.spec_ids().len() implies self.spec_ids()[a] != self.spec_ids()[b] by {
                                    if b < pre_ids.len() {
                                        assert(self.spec_ids()[a] == pre_ids[a]);
                                        assert(self.spec_ids()[b] == pre_ids[b]);
                                    } else {
                                        assert(self.spec_ids()[b] == identifier@);
                                        assert(self.spec_ids()[a] == pre_ids[a]);
                                        assert(!pre_ids.contains(identifier@));
                                    }
                                }
                                assert forall|e: int|
                                    0 <= e < events@.len() implies spec_event_scope(
                                        #[trigger] events@[e],
                                        old_len,
                                        self.spec_devices().len() as int,
                                        old_ids,
                                        all_found_ids,
                                    ) by {
                                    if e < pre_events.len() {
                                        assert(events@[e] == pre_events[e]);
                                    }
                                }
                                assert forall|jj: int|
                                    0 <= jj < old_len && (#[trigger] self.spec_devices()[jj]).spec_connected() && !mid_devices[jj].spec_connected() implies exists|e: int|
                                        0 <= e < events@.len() && events@[e] == ScanEvent::Reconnected(jj as usize) by {
                                    assert(self.spec_devices()[jj] == pre_devices[jj]);
                                    let e0 = choose|e: int|
                                        0 <= e < pre_events.len() && pre_events[e] == ScanEvent::Reconnected(jj as usize);
                                    assert(events@[e0] == pre_events[e0]);
                                }
                                assert forall|ii: int|
                                    0 <= ii < orig_found.len() - found@.len() && (exists|j: int|
                                        0 <= j < old_len && old_ids[j] == (#[trigger] orig_found[ii]).0@
                                            && !old_devices[j].spec_connected()) implies (exists|e: int, j: int|
                                        0 <= e < events@.len() && 0 <= j < old_len && old_ids[j] == orig_found[ii].0@ && (events@[e] == ScanEvent::Reconnected(j as usize) || events@[e] == ScanEvent::ReconnectionFailed(j as usize))) by {
                                    if ii < i {
                                        let (e0, j0) = choose|e: int, j: int|
                                            0 <= e < pre_events.len() && 0 <= j < old_len && old_ids[j] == orig_found[ii].0@ && (pre_events[e] == ScanEvent::Reconnected(j as usize) || pre_events[e] == ScanEvent::ReconnectionFailed(j as usize));
                                        assert(events@[e0] == pre_events[e0]);
                                    } else {
                                        assert(orig_found[ii].0@ == identifier@);
                                    }
                                }
                                // connectivity on the old prefix is
                                // untouched by an append
                                assert forall|jj: int|
                                    0 <= jj < old_len && mid_devices[jj].spec_connected() implies (
                                    #[trigger] self.spec_devices()[jj]).spec_connected() by {
                                    assert(self.spec_devices()[jj] == pre_devices[jj]);
                                }
                                // the appended session's creation is on
                                // record; earlier ones keep theirs
                                assert forall|k: int|
                                    old_len <= k < self.spec_devices().len() implies #[trigger] spec_creation_recorded(
                                        events@,
                                        k,
                                    ) by {
                                    if k < pre_devices.len() {
                                        assert(spec_creation_recorded(pre_events, k));
                                        let e0 = choose|e: int|
                                            0 <= e < pre_events.len() && pre_events[e] == ScanEvent::Connected(k as usize);
                                        assert(events@[e0] == pre_events[e0]);
                                    } else {
                                        assert(k == index as int);
                                        assert(0 <= pre_events.len() < events@.len());
                                        assert(events@[pre_events.len() as int] == ScanEvent::Connected(index));
                                    }
                                }
                                // the processed new identity is handled by
                                // the session just appended
                                assert forall|ii: int|
                                    0 <= ii < orig_found.len() - found@.len() && !old_ids.contains(
                                        (#[trigger] orig_found[ii]).0@,
                                    ) implies (exists|e: int, k: int|
                                        0 <= e < events@.len() && old_len <= k < self.spec_devices().len() && events@[e] == ScanEvent::Connected(k as usize) && self.spec_ids()[k] == orig_found[ii].0@) || (exists|e: int|
                                        0 <= e < events@.len() && events@[e] == ScanEvent::ConnectionFailed) by {
                                    if ii < i {
                                        if exists|e: int, k: int|
                                            0 <= e < pre_events.len() && old_len <= k < pre_devices.len() && pre_events[e] == ScanEvent::Connected(k as usize) && pre_ids[k] == orig_found[ii].0@ {
                                            let (e0, k0) = choose|e: int, k: int|
                                                0 <= e < pre_events.len() && old_len <= k < pre_devices.len() && pre_events[e] == ScanEvent::Connected(k as usize) && pre_ids[k] == orig_found[ii].0@;
                                            assert(events@[e0] == pre_events[e0]);
                                            assert(self.spec_ids()[k0] == pre_ids[k0]);
                                        } else {
                                            let e0 = choose|e: int|
                                                0 <= e < pre_events.len() && pre_events[e] == ScanEvent::ConnectionFailed;
                                            assert(events@[e0] == pre_events[e0]);
                                        }
                                    } else {
                                        assert(orig_found[ii].0@ == identifier@);
                                        assert(0 <= pre_events.len() < events@.len());
                                        assert(events@[pre_events.len() as int] == ScanEvent::Connected(index));
                                        assert(self.spec_ids()[index as int] == identifier@);
                                    }
                                }
                                // the one added creation event names the
                                // fresh index, which no earlier event can
                                assert forall|e1: int, e2: int|
                                    0 <= e1 < e2 < events@.len() && (#[trigger] events@[e1]) == (
                                    #[trigger] events@[e2]) implies !(events@[e1] is Connected) by {
                                    assert(events@[e1] == pre_events[e1]);
                                    if e2 < pre_events.len() {
                                        assert(events@[e2] == pre_events[e2]);
                                    } else {
                                        assert(events@[e2] == ScanEvent::Connected(index));
                                        assert(spec_event_scope(
                                            pre_events[e1],
                                            old_len,
                                            pre_devices.len() as int,
                                            old_ids,
                                            all_found_ids,
                                        ));
                                        assert(false);
                                    }
                                }
                            }
                        },
                        Err(_) => {
                            events.push(ScanEvent::ConnectionFailed);
                            proof {
                                assert forall|e: int|
                                    0 <= e < events@.len() implies spec_event_scope(
                                        #[trigger] events@[e],
                                        old_len,
                                        self.spec_devices().len() as int,
                                        old_ids,
                                        all_found_ids,
                                    ) by {
                                    if e < pre_events.len() {
                                        assert(events@[e] == pre_events[e]);
                                    }
                                }
                                assert forall|jj: int|
                                    0 <= jj < old_len && (#[trigger] self.spec_devices()[jj]).spec_connected() && !mid_devices[jj].spec_connected() implies exists|e: int|
                                        0 <= e < events@.len() && events@[e] == ScanEvent::Reconnected(jj as usize) by {
                                    let e0 = choose|e: int|
                                        0 <= e < pre_events.len() && pre_events[e] == ScanEvent::Reconnected(jj as usize);
                                    assert(events@[e0] == pre_events[e0]);
                                }
                                assert forall|ii: int|
                                    0 <= ii < orig_found.len() - found@.len() && (exists|j: int|
                                        0 <= j < old_len && old_ids[j] == (#[trigger] orig_found[ii]).0@
                                            && !old_devices[j].spec_connected()) implies (exists|e: int, j: int|
                                        0 <= e < events@.len() && 0 <= j < old_len && old_ids[j] == orig_found[ii].0@ && (events@[e] == ScanEvent::Reconnected(j as usize) || events@[e] == ScanEvent::ReconnectionFailed(j as usize))) by {
                                    if ii < i {
                                        let (e0, j0) = choose|e: int, j: int|
                                            0 <= e < pre_events.len() && 0 <= j < old_len && old_ids[j] == orig_found[ii].0@ && (pre_events[e] == ScanEvent::Reconnected(j as usize) || pre_events[e] == ScanEvent::ReconnectionFailed(j as usize));
                                        assert(events@[e0] == pre_events[e0]);
                                    } else {
                                        assert(orig_found[ii].0@ == identifier@);
                                    }
                                }
                                // earlier creations stay on record
                                assert forall|k: int|
                                    old_len <= k < self.spec_devices().len() implies #[trigger] spec_creation_recorded(
                                        events@,
                                        k,
                                    ) by {
                                    assert(spec_creation_recorded(pre_events, k));
                                    let e0 = choose|e: int|
                                        0 <= e < pre_events.len() && pre_events[e] == ScanEvent::Connected(k as usize);
                                    assert(events@[e0] == pre_events[e0]);
                                }
                                // the processed new identity is handled by
                                // the failure just recorded
                                assert forall|ii: int|
                                    0 <= ii < orig_found.len() - found@.len() && !old_ids.contains(
                                        (#[trigger] orig_found[ii]).0@,
                                    ) implies (exists|e: int, k: int|
                                        0 <= e < events@.len() && old_len <= k < self.spec_devices().len() && events@[e] == ScanEvent::Connected(k as usize) && self.spec_ids()[k] == orig_found[ii].0@) || (exists|e: int|
                                        0 <= e < events@.len() && events@[e] == ScanEvent::ConnectionFailed) by {
                                    assert(0 <= pre_events.len() < events@.len());
                                    assert(events@[pre_events.len() as int] == ScanEvent::ConnectionFailed);
                                }
                                // no creation event was added, so none is
                                // repeated
                                assert forall|e1: int, e2: int|
                                    0 <= e1 < e2 < events@.len() && (#[trigger] events@[e1]) == (
                                    #[trigger] events@[e2]) implies !(events@[e1] is Connected) by {
                                    assert(events@[e1] == pre_events[e1]);
                                    if e2 < pre_events.len() {
                                        assert(events@[e2] == pre_events[e2]);
                                    } else {
                                        assert(events@[e2] == ScanEvent::ConnectionFailed);
                                    }
                                }
                            }
                        },
                    }
                },
            }
        }
        events
    }
}

} // verus!
