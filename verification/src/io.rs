use vstd::prelude::*;

verus! {

/// A message from one direction of a relay to the other.
#[derive(Debug, PartialEq, Eq)]
pub enum SyncMsg<E> {
    /// The sender finished; the receiver now stops after an idle timeout.
    SetTimeOut,
    /// The sender failed to shut its writer down with this error; the
    /// receiver stops with it.
    Terminate(E),
    /// Stop now.
    Done,
}

/// Where one direction of a relay stands.
#[derive(Clone, Copy, Debug, PartialEq, Eq, Structural)]
pub enum Phase {
    /// Waiting for data from the reader, or for the other direction (or the
    /// idle timer, once armed).
    Relaying,
    /// Writing the chunk of this many bytes just read.
    Writing(usize),
    /// Shutting the writer down after the reader reached its end.
    ShuttingDown,
    /// The direction has stopped.
    Finished,
}

/// One direction of a relay: it copies from a reader to a writer until the
/// reader ends, an error occurs, the other direction asks it to stop, or, once
/// the other direction is done, no data arrives within the idle timeout.
#[derive(Clone, Copy, Debug, PartialEq, Eq, Structural)]
pub struct Relay {
    /// The number of bytes written so far.
    pub transferred: usize,
    /// Whether the idle timer is armed: then it is waited on in place of the
    /// other direction's messages.
    pub need_timeout: bool,
    pub phase: Phase,
}

/// What happened since the last action.
#[derive(Debug, PartialEq, Eq)]
pub enum RelayEvent<E> {
    /// A message arrived from the other direction.
    Message(SyncMsg<E>),
    /// The other direction is gone and will send nothing more.
    ChannelClosed,
    /// The idle timer ran out.
    TimerElapsed,
    /// The reader produced this many bytes; zero means it reached its end.
    Read(usize),
    ReadFailed(E),
    /// The pending chunk was written completely.
    Written,
    WriteFailed(E),
    /// The writer was shut down.
    ShutDown,
    ShutdownFailed(E),
}

/// What to do next.
#[derive(Debug, PartialEq, Eq)]
pub enum RelayAction<E> {
    /// Wait for whichever comes first: data from the reader, or, as
    /// `need_timeout` says, the idle timer or a message of the other direction.
    Wait,
    /// Write the first this many bytes of the buffer.
    Write(usize),
    /// Shut the writer down.
    Shutdown,
    /// Stop: send `notify` to the other direction if present, and end with
    /// `result`, the number of bytes written or an error.
    Finish { notify: Option<SyncMsg<E>>, result: Result<usize, E> },
}

impl Relay {
    /// A direction that has written nothing and waits with its timer unarmed.
    pub open spec fn initial() -> Relay {
        Relay { transferred: 0, need_timeout: false, phase: Phase::Relaying }
    }

    /// Whether the event can happen in this state: reads and the messages or
    /// the timer (as armed) while relaying, the end of a write while writing,
    /// the end of a shut-down while shutting down, nothing once finished.
    pub open spec fn accepts<E>(self, ev: RelayEvent<E>) -> bool {
        match self.phase {
            Phase::Relaying => match ev {
                RelayEvent::Message(_) => !self.need_timeout,
                RelayEvent::ChannelClosed => !self.need_timeout,
                RelayEvent::TimerElapsed => self.need_timeout,
                RelayEvent::Read(_) => true,
                RelayEvent::ReadFailed(_) => true,
                _ => false,
            },
            Phase::Writing(n) => match ev {
                RelayEvent::Written => self.transferred + n <= usize::MAX,
                RelayEvent::WriteFailed(_) => true,
                _ => false,
            },
            Phase::ShuttingDown => match ev {
                RelayEvent::ShutDown => true,
                RelayEvent::ShutdownFailed(_) => true,
                _ => false,
            },
            Phase::Finished => false,
        }
    }

    /// The state and action after an accepted event.
    pub open spec fn next<E>(self, ev: RelayEvent<E>) -> (Relay, RelayAction<E>) {
        let stop = Relay { phase: Phase::Finished, ..self };
        match self.phase {
            Phase::Writing(n) => match ev {
                RelayEvent::Written => (
                    Relay { transferred: (self.transferred + n) as usize, phase: Phase::Relaying, ..self },
                    RelayAction::Wait,
                ),
                RelayEvent::WriteFailed(e) => (stop, RelayAction::Finish { notify: None, result: Err(e) }),
                _ => (self, RelayAction::Wait),
            },
            Phase::ShuttingDown => match ev {
                RelayEvent::ShutdownFailed(e) => (
                    stop,
                    RelayAction::Finish {
                        notify: Some(SyncMsg::Terminate(e)),
                        result: Ok(self.transferred),
                    },
                ),
                _ => (
                    stop,
                    RelayAction::Finish { notify: Some(SyncMsg::SetTimeOut), result: Ok(self.transferred) },
                ),
            },
            _ => match ev {
                RelayEvent::Message(SyncMsg::SetTimeOut) => (
                    Relay { need_timeout: true, ..self },
                    RelayAction::Wait,
                ),
                RelayEvent::ChannelClosed => (Relay { need_timeout: true, ..self }, RelayAction::Wait),
                RelayEvent::Message(SyncMsg::Terminate(e)) => (
                    stop,
                    RelayAction::Finish { notify: None, result: Err(e) },
                ),
                RelayEvent::ReadFailed(e) => (stop, RelayAction::Finish { notify: None, result: Err(e) }),
                RelayEvent::Read(n) => if n == 0 {
                    (Relay { phase: Phase::ShuttingDown, ..self }, RelayAction::Shutdown)
                } else {
                    (Relay { phase: Phase::Writing(n), ..self }, RelayAction::Write(n))
                },
                _ => (stop, RelayAction::Finish { notify: None, result: Ok(self.transferred) }),
            },
        }
    }

    /// A fresh direction.
    pub fn new() -> (r: Relay)
        ensures
            r == Relay::initial(),
    {
        Relay { transferred: 0, need_timeout: false, phase: Phase::Relaying }
    }

    /// Takes an event and returns what to do next.
    pub fn step<E>(&mut self, ev: RelayEvent<E>) -> (a: RelayAction<E>)
        requires
            old(self).accepts(ev),
        ensures
            (*final(self), a) == old(self).next(ev),
    {
        match self.phase {
            Phase::Writing(n) => match ev {
                RelayEvent::Written => {
                    self.transferred = self.transferred + n;
                    self.phase = Phase::Relaying;
                    RelayAction::Wait
                },
                RelayEvent::WriteFailed(e) => {
                    self.phase = Phase::Finished;
                    RelayAction::Finish { notify: None, result: Err(e) }
                },
                _ => RelayAction::Wait,
            },
            Phase::ShuttingDown => {
                self.phase = Phase::Finished;
                match ev {
                    RelayEvent::ShutdownFailed(e) => RelayAction::Finish {
                        notify: Some(SyncMsg::Terminate(e)),
                        result: Ok(self.transferred),
                    },
                    _ => RelayAction::Finish {
                        notify: Some(SyncMsg::SetTimeOut),
                        result: Ok(self.transferred),
                    },
                }
            },
            _ => match ev {
                RelayEvent::Message(SyncMsg::SetTimeOut) => {
                    self.need_timeout = true;
                    RelayAction::Wait
                },
                RelayEvent::ChannelClosed => {
                    self.need_timeout = true;
                    RelayAction::Wait
                },
                RelayEvent::Message(SyncMsg::Terminate(e)) => {
                    self.phase = Phase::Finished;
                    RelayAction::Finish { notify: None, result: Err(e) }
                },
                RelayEvent::ReadFailed(e) => {
                    self.phase = Phase::Finished;
                    RelayAction::Finish { notify: None, result: Err(e) }
                },
                RelayEvent::Read(n) => {
                    if n == 0 {
                        self.phase = Phase::ShuttingDown;
                        RelayAction::Shutdown
                    } else {
                        self.phase = Phase::Writing(n);
                        RelayAction::Write(n)
                    }
                },
                _ => {
                    self.phase = Phase::Finished;
                    RelayAction::Finish { notify: None, result: Ok(self.transferred) }
                },
            },
        }
    }
}

/// The state after taking the events in order.
pub open spec fn run<E>(s: Relay, evs: Seq<RelayEvent<E>>) -> Relay
    decreases evs.len(),
{
    if evs.len() == 0 {
        s
    } else {
        run(s.next(evs[0]).0, evs.drop_first())
    }
}

/// Whether every event is accepted in the state it arrives in.
pub open spec fn run_accepts<E>(s: Relay, evs: Seq<RelayEvent<E>>) -> bool
    decreases evs.len(),
{
    if evs.len() == 0 {
        true
    } else {
        s.accepts(evs[0]) && run_accepts(s.next(evs[0]).0, evs.drop_first())
    }
}

/// The total size of the chunks whose writes completed along the events.
pub open spec fn written_total<E>(s: Relay, evs: Seq<RelayEvent<E>>) -> nat
    decreases evs.len(),
{
    if evs.len() == 0 {
        0
    } else {
        let here: nat = match (s.phase, evs[0]) {
            (Phase::Writing(n), RelayEvent::Written) => n as nat,
            _ => 0,
        };
        here + written_total(s.next(evs[0]).0, evs.drop_first())
    }
}

/// Counting: along any run, the count of bytes transferred grows by exactly
/// the sizes of the chunks whose writes completed, and an armed idle timer
/// stays armed.
pub proof fn lemma_run_counts_written_bytes<E>(s: Relay, evs: Seq<RelayEvent<E>>)
    requires
        run_accepts(s, evs),
    ensures
        run(s, evs).transferred == s.transferred + written_total(s, evs),
        s.need_timeout ==> run(s, evs).need_timeout,
    decreases evs.len(),
{
    if evs.len() > 0 {
        lemma_run_counts_written_bytes(s.next(evs[0]).0, evs.drop_first());
    }
}

/// A stopped direction takes no further event; when a direction stops with
/// success, the count it reports is the number of bytes it wrote.
pub proof fn lemma_finish_reports_count<E>(s: Relay, ev: RelayEvent<E>)
    ensures
        s.phase == Phase::Finished ==> !s.accepts(ev),
        s.accepts(ev) ==> match s.next(ev).1 {
            RelayAction::Finish { notify: _, result: Ok(c) } => c == s.transferred && s.next(ev).0.phase
                == Phase::Finished,
            RelayAction::Finish { notify: _, result: Err(_) } => s.next(ev).0.phase == Phase::Finished,
            _ => s.next(ev).0.phase != Phase::Finished,
        },
{
}

/// A direction that stops successfully reports the total size of the chunks
/// it wrote since it started.
pub proof fn lemma_reported_count_is_total_written<E>(evs: Seq<RelayEvent<E>>, last: RelayEvent<E>)
    requires
        run_accepts(Relay::initial(), evs),
        run(Relay::initial(), evs).accepts(last),
    ensures
        run(Relay::initial(), evs).next(last).1 matches RelayAction::Finish { notify: _, result: Ok(c) }
            ==> c == written_total(Relay::initial(), evs),
{
    lemma_run_counts_written_bytes(Relay::initial(), evs);
    lemma_finish_reports_count(run(Relay::initial(), evs), last);
}

/// The end of the reader's data always leads to shutting the writer down, and
/// the shut-down always ends the direction successfully while telling the
/// other direction: to arm its idle timer when the shut-down succeeded, to
/// stop with the shut-down's error when it failed.
pub proof fn lemma_end_of_stream_notifies_other<E>(s: Relay, ev: RelayEvent<E>)
    requires
        s.accepts(ev),
    ensures
        s.phase == Phase::Relaying && ev == RelayEvent::<E>::Read(0) ==> s.next(ev).1
            is Shutdown && s.next(ev).0.phase == Phase::ShuttingDown,
        s.phase == Phase::ShuttingDown ==> match ev {
            RelayEvent::ShutDown => s.next(ev).1 == (RelayAction::Finish::<E> {
                notify: Some(SyncMsg::SetTimeOut),
                result: Ok(s.transferred),
            }),
            RelayEvent::ShutdownFailed(e) => s.next(ev).1 == (RelayAction::Finish::<E> {
                notify: Some(SyncMsg::Terminate(e)),
                result: Ok(s.transferred),
            }),
            _ => false,
        },
{
}

/// A failed read ends the direction at once with that very error, whatever it
/// has relayed so far: nothing is told to the other direction and the count
/// stays as it was.
pub proof fn lemma_read_failure_ends_with_its_error<E>(s: Relay, e: E)
    requires
        s.accepts(RelayEvent::ReadFailed(e)),
    ensures
        s.next(RelayEvent::ReadFailed(e)).1 == (RelayAction::Finish::<E> { notify: None, result: Err(e) }),
        s.next(RelayEvent::ReadFailed(e)).0.phase == Phase::Finished,
        s.next(RelayEvent::ReadFailed(e)).0.transferred == s.transferred,
{
}

/// A failed write ends the direction at once with that very error, telling
/// the other direction nothing.
pub proof fn lemma_write_failure_ends_with_its_error<E>(s: Relay, e: E)
    requires
        s.accepts(RelayEvent::WriteFailed(e)),
    ensures
        s.next(RelayEvent::WriteFailed(e)).1 == (RelayAction::Finish::<E> { notify: None, result: Err(e) }),
        s.next(RelayEvent::WriteFailed(e)).0.phase == Phase::Finished,
{
}

/// Data read is written in full before anything else is read: a read of `n`
/// bytes (more than zero) asks to write exactly those `n` bytes, and only the
/// completion of that write adds `n` to the count and goes back to waiting.
pub proof fn lemma_read_then_write<E>(s: Relay, n: usize)
    requires
        s.accepts(RelayEvent::<E>::Read(n)),
        n > 0,
    ensures
        s.next(RelayEvent::<E>::Read(n)).1 == RelayAction::<E>::Write(n),
        s.next(RelayEvent::<E>::Read(n)).0.phase == Phase::Writing(n),
        s.next(RelayEvent::<E>::Read(n)).0.transferred == s.transferred,
        s.next(RelayEvent::<E>::Read(n)).0.accepts(RelayEvent::<E>::Written) ==> {
            let w = s.next(RelayEvent::<E>::Read(n)).0.next(RelayEvent::<E>::Written);
            &&& w.1 == RelayAction::<E>::Wait
            &&& w.0.transferred == s.transferred + n
            &&& w.0.phase == Phase::Relaying
        },
{
}

/// While both directions run, the other direction reporting that it is done
/// (or going away) arms the idle timer and keeps waiting, without changing the
/// count or the phase; its asking to stop ends this direction successfully
/// with the count of bytes written.
pub proof fn lemma_messages_from_the_other_side<E>(s: Relay)
    requires
        s.phase == Phase::Relaying,
        !s.need_timeout,
    ensures
        s.next(RelayEvent::<E>::Message(SyncMsg::SetTimeOut)).1 == RelayAction::<E>::Wait,
        s.next(RelayEvent::<E>::Message(SyncMsg::SetTimeOut)).0 == (Relay { need_timeout: true, ..s }),
        s.next(RelayEvent::<E>::ChannelClosed).1 == RelayAction::<E>::Wait,
        s.next(RelayEvent::<E>::ChannelClosed).0 == (Relay { need_timeout: true, ..s }),
        s.next(RelayEvent::<E>::Message(SyncMsg::Done)).1 == (RelayAction::<E>::Finish {
            notify: None,
            result: Ok(s.transferred),
        }),
        s.next(RelayEvent::<E>::Message(SyncMsg::Done)).0.phase == Phase::Finished,
{
}

/// The other direction's failure is passed on unchanged, and the idle timer
/// running out ends the direction successfully.
pub proof fn lemma_peer_failure_and_timeout<E>(s: Relay, ev: RelayEvent<E>)
    requires
        s.accepts(ev),
    ensures
        ev matches RelayEvent::Message(SyncMsg::Terminate(e)) ==> s.next(ev).1 == (RelayAction::Finish::<E> {
            notify: None,
            result: Err(e),
        }),
        ev is TimerElapsed ==> s.next(ev).1 == (RelayAction::Finish::<E> {
            notify: None,
            result: Ok(s.transferred),
        }),
{
}

/// While both directions are running, no idle timeout applies: a fresh
/// direction has its timer unarmed, and the timer gets armed only when the
/// other direction reports that it is done or goes away.
pub proof fn lemma_timer_armed_by_other_side<E>(s: Relay, ev: RelayEvent<E>)
    requires
        s.accepts(ev),
    ensures
        !Relay::initial().need_timeout,
        !s.need_timeout && s.next(ev).0.need_timeout ==> (ev matches RelayEvent::Message(SyncMsg::SetTimeOut)
            || ev is ChannelClosed),
{
}

/// Whether the upload direction's task ended with a byte count; only then is
/// the download direction's result needed.
pub fn upload_succeeded<E>(up: &Result<Result<usize, E>, E>) -> (r: bool)
    ensures
        r == (*up matches Ok(Ok(_))),
{
    match up {
        Ok(Ok(_)) => true,
        _ => false,
    }
}

/// The result of a whole relay from the outcomes of its two directions, as
/// [`combine_directions`] computes it.
pub open spec fn combined<E>(up: Result<Result<usize, E>, E>, down: Result<Result<usize, E>, E>) -> Result<
    (int, int),
    E,
> {
    match up {
        Err(e) => Err(e),
        Ok(Err(e)) => Err(e),
        Ok(Ok(u)) => match down {
            Err(e) => Err(e),
            Ok(Err(e)) => Err(e),
            Ok(Ok(d)) => Ok((u as int, d as int)),
        },
    }
}

/// A relay reports, for each direction, the bytes it relayed: when both
/// directions start fresh, take their events, and stop successfully, the
/// relay's result is the pair of the total sizes of the chunks written upward
/// and downward.
pub proof fn lemma_relay_reports_both_totals<E>(
    up_evs: Seq<RelayEvent<E>>,
    up_last: RelayEvent<E>,
    down_evs: Seq<RelayEvent<E>>,
    down_last: RelayEvent<E>,
)
    requires
        run_accepts(Relay::initial(), up_evs),
        run(Relay::initial(), up_evs).accepts(up_last),
        run_accepts(Relay::initial(), down_evs),
        run(Relay::initial(), down_evs).accepts(down_last),
    ensures
        run(Relay::initial(), up_evs).next(up_last).1 matches RelayAction::Finish { notify: _, result: Ok(u) }
            ==> (run(Relay::initial(), down_evs).next(down_last).1 matches RelayAction::Finish {
            notify: _,
            result: Ok(d),
        } ==> combined::<E>(Ok(Ok(u)), Ok(Ok(d))) == Ok::<(int, int), E>(
            (written_total(Relay::initial(), up_evs) as int, written_total(Relay::initial(), down_evs) as int),
        )),
{
    lemma_reported_count_is_total_written(up_evs, up_last);
    lemma_reported_count_is_total_written(down_evs, down_last);
}

/// The result of a whole relay from the results of its two directions, each
/// given as the outcome of the task that ran it (the outer error: the task
/// could not be joined) and the direction's own result: the upload direction
/// is looked at first, and the first error met is returned; otherwise the two
/// byte counts.
pub fn combine_directions<E>(up: Result<Result<usize, E>, E>, down: Result<Result<usize, E>, E>) -> (r:
    Result<(u64, u64), E>)
    ensures
        match up {
            Err(e) => r == Err::<(u64, u64), E>(e),
            Ok(Err(e)) => r == Err::<(u64, u64), E>(e),
            Ok(Ok(u)) => match down {
                Err(e) => r == Err::<(u64, u64), E>(e),
                Ok(Err(e)) => r == Err::<(u64, u64), E>(e),
                Ok(Ok(d)) => r matches Ok((a, b)) && a == u && b == d,
            },
        },
        match r {
            Ok((a, b)) => combined(up, down) == Ok::<(int, int), E>((a as int, b as int)),
            Err(e) => combined(up, down) == Err::<(int, int), E>(e),
        },
{
    let u = match up {
        Err(e) => return Err(e),
        Ok(Err(e)) => return Err(e),
        Ok(Ok(u)) => u,
    };
    let d = match down {
        Err(e) => return Err(e),
        Ok(Err(e)) => return Err(e),
        Ok(Ok(d)) => d,
    };
    Ok((u as u64, d as u64))
}

} // verus!
