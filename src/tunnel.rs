//! The reverse tunnel: the master, which pairs each public client with a
//! data connection that the slave opens on request, and the slave, which
//! opens one data connection for each request it reads.
//!
//! Both are state machines. The caller performs the action that each one
//! returns and reports how it went as the next event.
use vstd::prelude::*;

verus! {

/// The byte that the master writes on the control channel to ask the slave
/// for a data connection.
pub const CONTROL_SIGNAL: u8 = 0x37;

/// Where the master stands.
#[derive(PartialEq, Eq, Structural, Clone, Copy, Debug)]
pub enum MasterPhase {
    /// Waiting for the slave's control connection.
    AwaitSlave,
    /// Waiting for a public client.
    AwaitClient,
    /// Writing the control signal for the client just accepted.
    Signalling,
    /// Waiting for the slave's data connection for that client.
    AwaitData,
    /// No more clients are served. Relays already running go on.
    Stopped,
}

/// How the last action of the master went.
#[derive(PartialEq, Eq, Structural, Clone, Copy, Debug)]
pub enum MasterEvent {
    /// The control listener accepted the slave's control connection.
    SlaveAccepted,
    /// The client listener accepted a client.
    ClientAccepted,
    /// The control signal was written.
    SignalSent,
    /// The control listener accepted a data connection.
    DataAccepted,
    /// The last action failed.
    Failed,
}

/// What the master's caller does next.
#[derive(PartialEq, Eq, Structural, Clone, Copy, Debug)]
pub enum MasterAction {
    /// Accept one connection on the control listener: the control channel.
    AcceptSlave,
    /// Accept one client on the client listener.
    AcceptClient,
    /// Write this byte on the control channel.
    SendSignal(u8),
    /// Accept the next connection on the control listener: the data
    /// connection for the client being paired.
    AcceptData,
    /// Start a relay between the client and the data connection just
    /// accepted, then accept the next client.
    SpawnRelay,
    /// Serve no more clients; let running relays finish.
    Stop,
}

/// The abstract state of the master: its phase, how many clients and data
/// connections it accepted and signals it sent, and for each relay it
/// started, the ordinals of its client and of its data connection.
pub struct MasterView {
    pub phase: MasterPhase,
    pub clients: nat,
    pub signals: nat,
    pub data: nat,
    pub pairs: Seq<(nat, nat)>,
}

/// A master that waits for its slave.
pub open spec fn master_start() -> MasterView {
    MasterView { phase: MasterPhase::AwaitSlave, clients: 0, signals: 0, data: 0, pairs: seq![] }
}

/// The state after event `e` in state `v`.
pub open spec fn master_step(v: MasterView, e: MasterEvent) -> MasterView {
    let stopped = MasterView { phase: MasterPhase::Stopped, ..v };
    match (v.phase, e) {
        (MasterPhase::AwaitSlave, MasterEvent::SlaveAccepted) => MasterView {
            phase: MasterPhase::AwaitClient,
            ..v
        },
        (MasterPhase::AwaitClient, MasterEvent::ClientAccepted) => MasterView {
            phase: MasterPhase::Signalling,
            clients: v.clients + 1,
            ..v
        },
        (MasterPhase::AwaitClient, MasterEvent::Failed) => v,
        (MasterPhase::Signalling, MasterEvent::SignalSent) => MasterView {
            phase: MasterPhase::AwaitData,
            signals: v.signals + 1,
            ..v
        },
        (MasterPhase::AwaitData, MasterEvent::DataAccepted) => MasterView {
            phase: MasterPhase::AwaitClient,
            data: v.data + 1,
            pairs: v.pairs.push(((v.clients - 1) as nat, v.data)),
            ..v
        },
        _ => stopped,
    }
}

/// The action that goes with the step from `v` by `e`.
pub open spec fn master_action(v: MasterView, e: MasterEvent) -> MasterAction {
    let t = master_step(v, e);
    match t.phase {
        MasterPhase::AwaitSlave => MasterAction::AcceptSlave,
        MasterPhase::AwaitClient => if v.phase == MasterPhase::AwaitData {
            MasterAction::SpawnRelay
        } else {
            MasterAction::AcceptClient
        },
        MasterPhase::Signalling => MasterAction::SendSignal(CONTROL_SIGNAL),
        MasterPhase::AwaitData => MasterAction::AcceptData,
        MasterPhase::Stopped => MasterAction::Stop,
    }
}

/// The state after the events `es`, one after the other, from `v`.
pub open spec fn master_run(v: MasterView, es: Seq<MasterEvent>) -> MasterView
    decreases es.len(),
{
    if es.len() == 0 {
        v
    } else {
        master_run(master_step(v, es[0]), es.drop_first())
    }
}

/// The k-th relay joins the k-th client with the k-th data connection.
pub open spec fn pairs_in_order(pairs: Seq<(nat, nat)>) -> bool {
    forall|k: int| 0 <= k < pairs.len() ==> #[trigger] pairs[k] == (k as nat, k as nat)
}

/// The counts agree with the phase: one signal per client, one data
/// connection per signal, at most one pairing in flight.
pub open spec fn master_inv(v: MasterView) -> bool {
    &&& pairs_in_order(v.pairs)
    &&& match v.phase {
        MasterPhase::AwaitSlave => v.clients == 0 && v.signals == 0 && v.data == 0
            && v.pairs.len() == 0,
        MasterPhase::AwaitClient => v.clients == v.signals && v.signals == v.data && v.data
            == v.pairs.len(),
        MasterPhase::Signalling => v.clients == v.signals + 1 && v.signals == v.data && v.data
            == v.pairs.len(),
        MasterPhase::AwaitData => v.clients == v.signals && v.signals == v.data + 1 && v.data
            == v.pairs.len(),
        MasterPhase::Stopped => true,
    }
}

/// The master of a reverse tunnel.
pub struct Master {
    phase: MasterPhase,
    state: Ghost<MasterView>,
}

impl View for Master {
    type V = MasterView;

    closed spec fn view(&self) -> MasterView {
        self.state@
    }
}

impl Master {
    /// The master's internal state agrees with its abstract state.
    pub closed spec fn wf(&self) -> bool {
        self.phase == self.state@.phase
    }

    /// A master that first accepts its slave.
    pub fn new() -> (r: (Master, MasterAction))
        ensures
            r.0.wf(),
            r.0@ == master_start(),
            r.1 == MasterAction::AcceptSlave,
    {
        (Master { phase: MasterPhase::AwaitSlave, state: Ghost(master_start()) }, MasterAction::AcceptSlave)
    }

    /// The current phase.
    pub fn phase(&self) -> (r: MasterPhase)
        requires
            self.wf(),
        ensures
            r == self@.phase,
    {
        self.phase
    }

    /// Takes how the last action went and says what to do next.
    pub fn on_event(&mut self, e: MasterEvent) -> (a: MasterAction)
        requires
            old(self).wf(),
        ensures
            final(self).wf(),
            final(self)@ == master_step(old(self)@, e),
            a == master_action(old(self)@, e),
    {
        let ghost v = self.state@;
        self.state = Ghost(master_step(v, e));
        match (self.phase, e) {
            (MasterPhase::AwaitSlave, MasterEvent::SlaveAccepted) => {
                self.phase = MasterPhase::AwaitClient;
                MasterAction::AcceptClient
            },
            (MasterPhase::AwaitClient, MasterEvent::ClientAccepted) => {
                self.phase = MasterPhase::Signalling;
                MasterAction::SendSignal(CONTROL_SIGNAL)
            },
            (MasterPhase::AwaitClient, MasterEvent::Failed) => MasterAction::AcceptClient,
            (MasterPhase::Signalling, MasterEvent::SignalSent) => {
                self.phase = MasterPhase::AwaitData;
                MasterAction::AcceptData
            },
            (MasterPhase::AwaitData, MasterEvent::DataAccepted) => {
                self.phase = MasterPhase::AwaitClient;
                MasterAction::SpawnRelay
            },
            _ => {
                self.phase = MasterPhase::Stopped;
                MasterAction::Stop
            },
        }
    }
}

proof fn lemma_master_step_inv(v: MasterView, e: MasterEvent)
    requires
        master_inv(v),
    ensures
        master_inv(master_step(v, e)),
{
    let t = master_step(v, e);
    if v.phase == MasterPhase::AwaitData && e == MasterEvent::DataAccepted {
        assert forall|k: int| 0 <= k < t.pairs.len() implies #[trigger] t.pairs[k] == (
            k as nat,
            k as nat,
        ) by {
            if k < v.pairs.len() {
                assert(t.pairs[k] == v.pairs[k]);
            }
        }
    }
}

proof fn lemma_master_run_inv(v: MasterView, es: Seq<MasterEvent>)
    requires
        master_inv(v),
    ensures
        master_inv(master_run(v, es)),
    decreases es.len(),
{
    if es.len() > 0 {
        lemma_master_step_inv(v, es[0]);
        lemma_master_run_inv(master_step(v, es[0]), es.drop_first());
    }
}

/// Pairing by order: whatever the master has gone through, the n-th relay it
/// started joins its n-th client with the n-th data connection it accepted,
/// it has sent one signal per client, and it never has more than one client
/// waiting for its data connection.
pub proof fn lemma_master_pairs_in_order(es: Seq<MasterEvent>)
    ensures
        pairs_in_order(master_run(master_start(), es).pairs),
        master_run(master_start(), es).phase != MasterPhase::Stopped ==> {
            let v = master_run(master_start(), es);
            &&& v.signals <= v.clients <= v.signals + 1
            &&& v.data <= v.signals <= v.data + 1
            &&& v.pairs.len() == v.data
        },
{
    lemma_master_run_inv(master_start(), es);
}

/// Once the master stops (for instance because the control signal could
/// not be written), it accepts no client, sends no signal and starts no
/// relay, whatever comes after.
pub proof fn lemma_master_stop_is_final(v: MasterView, es: Seq<MasterEvent>)
    requires
        v.phase == MasterPhase::Stopped,
    ensures
        master_run(v, es).phase == MasterPhase::Stopped,
        master_run(v, es).clients == v.clients,
        master_run(v, es).signals == v.signals,
        master_run(v, es).pairs == v.pairs,
        es.len() > 0 ==> master_action(v, es[0]) == MasterAction::Stop,
    decreases es.len(),
{
    if es.len() > 0 {
        lemma_master_stop_is_final(master_step(v, es[0]), es.drop_first());
    }
}

/// A failed write of the control signal stops the master at once: no
/// further client is accepted and no relay is added, while the relays it
/// started stay as they were.
pub proof fn lemma_signal_failure_stops_master(v: MasterView, es: Seq<MasterEvent>)
    requires
        v.phase == MasterPhase::Signalling,
    ensures
        master_step(v, MasterEvent::Failed).phase == MasterPhase::Stopped,
        master_action(v, MasterEvent::Failed) == MasterAction::Stop,
        master_step(v, MasterEvent::Failed).pairs == v.pairs,
        master_run(master_step(v, MasterEvent::Failed), es).phase == MasterPhase::Stopped,
        master_run(master_step(v, MasterEvent::Failed), es).pairs == v.pairs,
{
    lemma_master_stop_is_final(master_step(v, MasterEvent::Failed), es);
}

/// Where the slave stands.
#[derive(PartialEq, Eq, Structural, Clone, Copy, Debug)]
pub enum SlavePhase {
    /// Opening the control connection to the master.
    Connecting,
    /// Reading the next control signal.
    AwaitSignal,
    /// Opening a data connection to the master.
    OpeningData,
    /// The slave has ended.
    Stopped,
}

/// How the last action of the slave went.
#[derive(PartialEq, Eq, Structural, Clone, Copy, Debug)]
pub enum SlaveEvent {
    /// The control connection is open.
    Connected,
    /// This byte was read from the control connection.
    SignalRead(u8),
    /// The data connection is open.
    DataOpened,
    /// The last action failed, or the control connection ended.
    Failed,
}

/// What the slave's caller does next.
#[derive(PartialEq, Eq, Structural, Clone, Copy, Debug)]
pub enum SlaveAction {
    /// Connect to the master: the control connection.
    ConnectControl,
    /// Read one byte from the control connection.
    ReadSignal,
    /// Connect to the master again: a data connection.
    OpenData,
    /// Run a SOCKS5 session on the data connection just opened, on its own,
    /// and read the next signal.
    SpawnSession,
    /// End the slave.
    Stop,
}

/// The abstract state of the slave: its phase, the signals it read and the
/// data connections it opened.
pub struct SlaveView {
    pub phase: SlavePhase,
    pub signals: nat,
    pub opened: nat,
}

/// A slave that connects to its master.
pub open spec fn slave_start() -> SlaveView {
    SlaveView { phase: SlavePhase::Connecting, signals: 0, opened: 0 }
}

/// The state after event `e` in state `v`. Every byte read is a signal.
pub open spec fn slave_step(v: SlaveView, e: SlaveEvent) -> SlaveView {
    match (v.phase, e) {
        (SlavePhase::Connecting, SlaveEvent::Connected) => SlaveView {
            phase: SlavePhase::AwaitSignal,
            ..v
        },
        (SlavePhase::AwaitSignal, SlaveEvent::SignalRead(_)) => SlaveView {
            phase: SlavePhase::OpeningData,
            signals: v.signals + 1,
            ..v
        },
        (SlavePhase::OpeningData, SlaveEvent::DataOpened) => SlaveView {
            phase: SlavePhase::AwaitSignal,
            opened: v.opened + 1,
            ..v
        },
        _ => SlaveView { phase: SlavePhase::Stopped, ..v },
    }
}

/// The action that goes with the step from `v` by `e`.
pub open spec fn slave_action(v: SlaveView, e: SlaveEvent) -> SlaveAction {
    match slave_step(v, e).phase {
        SlavePhase::Connecting => SlaveAction::ConnectControl,
        SlavePhase::AwaitSignal => if v.phase == SlavePhase::OpeningData {
            SlaveAction::SpawnSession
        } else {
            SlaveAction::ReadSignal
        },
        SlavePhase::OpeningData => SlaveAction::OpenData,
        SlavePhase::Stopped => SlaveAction::Stop,
    }
}

/// The state after the events `es`, one after the other, from `v`.
pub open spec fn slave_run(v: SlaveView, es: Seq<SlaveEvent>) -> SlaveView
    decreases es.len(),
{
    if es.len() == 0 {
        v
    } else {
        slave_run(slave_step(v, es[0]), es.drop_first())
    }
}

/// The slave of a reverse tunnel.
pub struct Slave {
    phase: SlavePhase,
    state: Ghost<SlaveView>,
}

impl View for Slave {
    type V = SlaveView;

    closed spec fn view(&self) -> SlaveView {
        self.state@
    }
}

impl Slave {
    /// The slave's internal state agrees with its abstract state.
    pub closed spec fn wf(&self) -> bool {
        self.phase == self.state@.phase
    }

    /// A slave that first opens its control connection.
    pub fn new() -> (r: (Slave, SlaveAction))
        ensures
            r.0.wf(),
            r.0@ == slave_start(),
            r.1 == SlaveAction::ConnectControl,
    {
        (Slave { phase: SlavePhase::Connecting, state: Ghost(slave_start()) }, SlaveAction::ConnectControl)
    }

    /// The current phase.
    pub fn phase(&self) -> (r: SlavePhase)
        requires
            self.wf(),
        ensures
            r == self@.phase,
    {
        self.phase
    }

    /// Takes how the last action went and says what to do next.
    pub fn on_event(&mut self, e: SlaveEvent) -> (a: SlaveAction)
        requires
            old(self).wf(),
        ensures
            final(self).wf(),
            final(self)@ == slave_step(old(self)@, e),
            a == slave_action(old(self)@, e),
    {
        let ghost v = self.state@;
        self.state = Ghost(slave_step(v, e));
        match (self.phase, e) {
            (SlavePhase::Connecting, SlaveEvent::Connected) => {
                self.phase = SlavePhase::AwaitSignal;
                SlaveAction::ReadSignal
            },
            (SlavePhase::AwaitSignal, SlaveEvent::SignalRead(_)) => {
                self.phase = SlavePhase::OpeningData;
                SlaveAction::OpenData
            },
            (SlavePhase::OpeningData, SlaveEvent::DataOpened) => {
                self.phase = SlavePhase::AwaitSignal;
                SlaveAction::SpawnSession
            },
            _ => {
                self.phase = SlavePhase::Stopped;
                SlaveAction::Stop
            },
        }
    }
}

proof fn lemma_slave_run_counts(v: SlaveView, es: Seq<SlaveEvent>)
    requires
        v.opened <= v.signals <= v.opened + 1,
        v.phase == SlavePhase::AwaitSignal ==> v.signals == v.opened,
        v.phase == SlavePhase::OpeningData ==> v.signals == v.opened + 1,
        v.phase == SlavePhase::Connecting ==> v.signals == 0 && v.opened == 0,
    ensures
        ({
            let t = slave_run(v, es);
            &&& t.opened <= t.signals <= t.opened + 1
            &&& t.phase == SlavePhase::AwaitSignal ==> t.signals == t.opened
            &&& t.phase == SlavePhase::OpeningData ==> t.signals == t.opened + 1
        }),
    decreases es.len(),
{
    if es.len() > 0 {
        lemma_slave_run_counts(slave_step(v, es[0]), es.drop_first());
    }
}

/// One data connection per signal: whatever the slave has gone through, it
/// has opened a data connection for every signal it read but the last, and
/// for that one too unless it is opening it now or failed to; it never opens
/// one that no signal asked for.
pub proof fn lemma_slave_one_connection_per_signal(es: Seq<SlaveEvent>)
    ensures
        ({
            let t = slave_run(slave_start(), es);
            &&& t.opened <= t.signals <= t.opened + 1
            &&& t.phase == SlavePhase::AwaitSignal ==> t.signals == t.opened
        }),
{
    lemma_slave_run_counts(slave_start(), es);
}

/// Every byte read on the control connection is a request for a data
/// connection, whatever its value.
pub proof fn lemma_slave_any_byte_is_signal(v: SlaveView, b: u8, c: u8)
    requires
        v.phase == SlavePhase::AwaitSignal,
    ensures
        slave_step(v, SlaveEvent::SignalRead(b)) == slave_step(v, SlaveEvent::SignalRead(c)),
        slave_action(v, SlaveEvent::SignalRead(b)) == SlaveAction::OpenData,
{
}

} // verus!
