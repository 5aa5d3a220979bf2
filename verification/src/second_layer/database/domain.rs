//! Rows of the network and hub tables, results of network queries, and the
//! buffer in which telemetry waits before it is written to the database.

use vstd::prelude::*;

verus! {

/// Result of a network operation on the database.
pub struct NetworkResult {
    /// Whether the operation succeeded.
    pub result: bool,
    /// Whether no network is left registered after the operation.
    pub zero_networks: bool,
}

/// The whole persisted topology (networks and hubs).
pub struct AllNetworksResult {
    pub networks: Option<Vec<NetworkRow>>,
    pub hubs: Option<Vec<HubRow>>,
}

/// A row of the `networks` table.
#[derive(Debug, PartialEq, Clone)]
pub struct NetworkRow {
    /// Unique identifier of the network.
    pub id_network: String,
    /// Whether the network is active.
    pub active: bool,
}

/// A row of the `hubs` table.
#[derive(Default, Debug, Clone, PartialEq, Eq, Hash)]
pub struct HubRow {
    /// Unique identifier of the hub.
    pub id: String,
    /// Human readable device name.
    pub device_name: String,
    /// Network the hub belongs to.
    pub network_id: String,
}

/// Telemetry of a hub, as sorted into the batch buffer: measurements,
/// monitor reports, air-quality alerts and temperature alerts. Any other hub
/// message is `Other` and is not buffered.
#[derive(Debug, Clone)]
pub enum Telemetry<M, N, A, T> {
    Measurement(M),
    Monitor(N),
    AlertAir(A),
    AlertTh(T),
    Other,
}

/// Which vector of the buffer a batch upload carries.
#[derive(Debug, Clone, Copy, PartialEq, Eq, Structural)]
pub enum BatchKind {
    Measurement,
    Monitor,
    AlertAir,
    AlertTh,
}

/// Telemetry grouped by kind: filled as hub messages arrive, written to the
/// database when a vector reaches `batch_size` (or on the flush timer), and
/// rebuilt from the database to upload the kept data in batches.
#[derive(Debug, Clone)]
pub struct TableDataVector<M, N, A, T> {
    pub measurement: Vec<M>,
    pub alert_air: Vec<A>,
    pub alert_th: Vec<T>,
    pub monitor: Vec<N>,
    /// Length at which a vector is full.
    pub batch_size: usize,
}

/// The batch uploads a buffer calls for, in order: measurements, monitor
/// reports, air-quality alerts, temperature alerts, each when its vector is
/// not empty.
pub open spec fn spec_upload_kinds(measurement: nat, monitor: nat, alert_air: nat, alert_th: nat) -> Seq<BatchKind> {
    (if measurement > 0 { seq![BatchKind::Measurement] } else { Seq::empty() })
        + (if monitor > 0 { seq![BatchKind::Monitor] } else { Seq::empty() })
        + (if alert_air > 0 { seq![BatchKind::AlertAir] } else { Seq::empty() })
        + (if alert_th > 0 { seq![BatchKind::AlertTh] } else { Seq::empty() })
}

impl<M, N, A, T> TableDataVector<M, N, A, T> {
    /// An empty buffer whose vectors are full at `batch_size`.
    pub fn new(batch_size: usize) -> (r: Self)
        ensures
            r.measurement@.len() == 0,
            r.alert_air@.len() == 0,
            r.alert_th@.len() == 0,
            r.monitor@.len() == 0,
            r.batch_size == batch_size,
    {
        Self { measurement: Vec::new(), alert_air: Vec::new(), alert_th: Vec::new(), monitor: Vec::new(), batch_size }
    }

    /// A buffer holding the given vectors (a batch read back from the database).
    pub fn new_pop(measurement: Vec<M>, alert_air: Vec<A>, alert_th: Vec<T>, monitor: Vec<N>, batch_size: usize) -> (r: Self)
        ensures
            r.measurement@ == measurement@,
            r.alert_air@ == alert_air@,
            r.alert_th@ == alert_th@,
            r.monitor@ == monitor@,
            r.batch_size == batch_size,
    {
        Self { measurement, alert_air, alert_th, monitor, batch_size }
    }

    /// Every vector is empty.
    pub fn is_empty(&self) -> (r: bool)
        ensures
            r == (self.measurement@.len() == 0 && self.alert_air@.len() == 0 && self.alert_th@.len() == 0
                && self.monitor@.len() == 0),
    {
        self.measurement.len() == 0 && self.alert_air.len() == 0 && self.alert_th.len() == 0 && self.monitor.len() == 0
    }

    /// Some vector has reached `batch_size`: time to write the buffer.
    pub fn is_some_vector_full(&self) -> (r: bool)
        ensures
            r == (self.measurement@.len() == self.batch_size || self.alert_air@.len() == self.batch_size
                || self.alert_th@.len() == self.batch_size || self.monitor@.len() == self.batch_size),
    {
        self.measurement.len() == self.batch_size || self.alert_air.len() == self.batch_size
            || self.alert_th.len() == self.batch_size || self.monitor.len() == self.batch_size
    }

    /// Empties every vector; `batch_size` stays.
    pub fn clear(&mut self)
        ensures
            final(self).measurement@.len() == 0,
            final(self).alert_air@.len() == 0,
            final(self).alert_th@.len() == 0,
            final(self).monitor@.len() == 0,
            final(self).batch_size == old(self).batch_size,
    {
        self.measurement.clear();
        self.alert_air.clear();
        self.alert_th.clear();
        self.monitor.clear();
    }

    /// The batch uploads this buffer calls for (see `spec_upload_kinds`).
    pub fn upload_kinds(&self) -> (r: Vec<BatchKind>)
        ensures
            r@ == spec_upload_kinds(self.measurement@.len(), self.monitor@.len(), self.alert_air@.len(), self.alert_th@.len()),
    {
        let mut r: Vec<BatchKind> = Vec::new();
        if self.measurement.len() > 0 {
            r.push(BatchKind::Measurement);
        }
        let ghost a = r@;
        if self.monitor.len() > 0 {
            r.push(BatchKind::Monitor);
        }
        let ghost b = r@;
        if self.alert_air.len() > 0 {
            r.push(BatchKind::AlertAir);
        }
        let ghost c = r@;
        if self.alert_th.len() > 0 {
            r.push(BatchKind::AlertTh);
        }
        proof {
            let e = Seq::<BatchKind>::empty();
            let sm = if self.measurement@.len() > 0 { seq![BatchKind::Measurement] } else { e };
            let sn = if self.monitor@.len() > 0 { seq![BatchKind::Monitor] } else { e };
            let sa = if self.alert_air@.len() > 0 { seq![BatchKind::AlertAir] } else { e };
            let st = if self.alert_th@.len() > 0 { seq![BatchKind::AlertTh] } else { e };
            assert(a =~= sm);
            assert(b =~= sm + sn);
            assert(c =~= sm + sn + sa);
            assert(r@ =~= sm + sn + sa + st);
        }
        r
    }
}

/// Puts a hub's telemetry at the end of the vector of its kind; any other
/// message leaves the buffer as it was.
pub fn sort_by_vectors<M, N, A, T>(msg: Telemetry<M, N, A, T>, tdv: &mut TableDataVector<M, N, A, T>)
    ensures
        final(tdv).batch_size == old(tdv).batch_size,
        match msg {
            Telemetry::Measurement(m) => final(tdv).measurement@ == old(tdv).measurement@.push(m)
                && final(tdv).monitor@ == old(tdv).monitor@ && final(tdv).alert_air@ == old(tdv).alert_air@
                && final(tdv).alert_th@ == old(tdv).alert_th@,
            Telemetry::Monitor(n) => final(tdv).monitor@ == old(tdv).monitor@.push(n)
                && final(tdv).measurement@ == old(tdv).measurement@ && final(tdv).alert_air@ == old(tdv).alert_air@
                && final(tdv).alert_th@ == old(tdv).alert_th@,
            Telemetry::AlertAir(a) => final(tdv).alert_air@ == old(tdv).alert_air@.push(a)
                && final(tdv).measurement@ == old(tdv).measurement@ && final(tdv).monitor@ == old(tdv).monitor@
                && final(tdv).alert_th@ == old(tdv).alert_th@,
            Telemetry::AlertTh(t) => final(tdv).alert_th@ == old(tdv).alert_th@.push(t)
                && final(tdv).measurement@ == old(tdv).measurement@ && final(tdv).monitor@ == old(tdv).monitor@
                && final(tdv).alert_air@ == old(tdv).alert_air@,
            Telemetry::Other => final(tdv).measurement@ == old(tdv).measurement@ && final(tdv).monitor@ == old(tdv).monitor@
                && final(tdv).alert_air@ == old(tdv).alert_air@ && final(tdv).alert_th@ == old(tdv).alert_th@,
        },
{
    match msg {
        Telemetry::Measurement(m) => tdv.measurement.push(m),
        Telemetry::Monitor(n) => tdv.monitor.push(n),
        Telemetry::AlertAir(a) => tdv.alert_air.push(a),
        Telemetry::AlertTh(t) => tdv.alert_th.push(t),
        Telemetry::Other => {},
    }
}

/// Every kind of telemetry the buffer holds gets its batch upload, and only
/// those: a kind is in the upload list exactly when its vector is not empty,
/// each kind at most once, so the list is empty exactly when the buffer is.
pub proof fn law_every_kept_kind_is_uploaded(measurement: nat, monitor: nat, alert_air: nat, alert_th: nat)
    ensures
        ({
            let u = spec_upload_kinds(measurement, monitor, alert_air, alert_th);
            &&& u.contains(BatchKind::Measurement) <==> measurement > 0
            &&& u.contains(BatchKind::Monitor) <==> monitor > 0
            &&& u.contains(BatchKind::AlertAir) <==> alert_air > 0
            &&& u.contains(BatchKind::AlertTh) <==> alert_th > 0
            &&& forall|i: int, j: int| 0 <= i < j < u.len() ==> u[i] != u[j]
            &&& (u.len() == 0 <==> (measurement == 0 && monitor == 0 && alert_air == 0 && alert_th == 0))
        }),
{
    let e = Seq::<BatchKind>::empty();
    let sm = if measurement > 0 { seq![BatchKind::Measurement] } else { e };
    let sn = if monitor > 0 { seq![BatchKind::Monitor] } else { e };
    let sa = if alert_air > 0 { seq![BatchKind::AlertAir] } else { e };
    let st = if alert_th > 0 { seq![BatchKind::AlertTh] } else { e };
    let u = spec_upload_kinds(measurement, monitor, alert_air, alert_th);
    assert(u == sm + sn + sa + st);
    let kinds = seq![BatchKind::Measurement, BatchKind::Monitor, BatchKind::AlertAir, BatchKind::AlertTh];
    let present = seq![measurement > 0, monitor > 0, alert_air > 0, alert_th > 0];
    assert forall|k: int| 0 <= k < 4 implies (u.contains(#[trigger] kinds[k]) <==> present[k]) by {
        if present[k] {
            if k == 0 {
                assert(u[0] == kinds[k]);
            } else if k == 1 {
                assert(u[sm.len() as int] == kinds[k]);
            } else if k == 2 {
                assert(u[(sm.len() + sn.len()) as int] == kinds[k]);
            } else {
                assert(u[(sm.len() + sn.len() + sa.len()) as int] == kinds[k]);
            }
        }
        if u.contains(kinds[k]) {
            let i = choose|i: int| 0 <= i < u.len() && u[i] == kinds[k];
            if i < sm.len() {
                assert(u[i] == sm[i]);
            } else if i < sm.len() + sn.len() {
                assert(u[i] == sn[i - sm.len()]);
            } else if i < sm.len() + sn.len() + sa.len() {
                assert(u[i] == sa[i - sm.len() - sn.len()]);
            } else {
                assert(u[i] == st[i - sm.len() - sn.len() - sa.len()]);
            }
        }
    }
    assert(kinds[0] == BatchKind::Measurement);
    assert(kinds[1] == BatchKind::Monitor);
    assert(kinds[2] == BatchKind::AlertAir);
    assert(kinds[3] == BatchKind::AlertTh);
    assert forall|i: int, j: int| 0 <= i < j < u.len() implies u[i] != u[j] by {
        let ai = if i < sm.len() { 0int } else if i < sm.len() + sn.len() { 1int } else if i < sm.len() + sn.len() + sa.len() { 2int } else { 3int };
        let aj = if j < sm.len() { 0int } else if j < sm.len() + sn.len() { 1int } else if j < sm.len() + sn.len() + sa.len() { 2int } else { 3int };
        assert(u[i] == kinds[ai]);
        assert(u[j] == kinds[aj]);
    }
}

} // verus!
