//! The watch stream adapter: what the file watcher delivers about the
//! control file, how a delivery is classified, and how the deliveries of one
//! poll cycle are folded into the signals the supervisor acts on.
//!
//! Watching itself is file-system work and happens outside this crate. The
//! caller hands over each thing it received as a [`Delivery`].

use vstd::prelude::*;

verus! {

/// How long the watcher waits for a burst of changes to settle before it
/// reports them as one event, in milliseconds.
pub const DEBOUNCE_MS: u64 = 100;

/// How long one poll of the watcher may block, in milliseconds. It is also
/// the interval at which the child's health is checked.
pub const POLL_MS: u64 = 50;

/// The kind of a notification as the debouncing watcher reports it.
#[derive(Clone, Copy, Debug, PartialEq, Eq, Structural)]
pub enum RawEvent {
    /// A first write was seen; the settled `Write` follows later.
    NoticeWrite,
    /// A removal or rename was seen; the settled event follows later.
    NoticeRemove,
    /// The file was created.
    Create,
    /// The file was written and has settled.
    Write,
    /// The file's attributes changed.
    Chmod,
    /// The file was removed.
    Remove,
    /// The file was renamed.
    Rename,
    /// The watcher lost track and asks for a rescan.
    Rescan,
    /// The watcher reports an error.
    Error,
}

/// The outcome of one bounded wait on the watcher's queue.
#[derive(Clone, Copy, Debug, PartialEq, Eq, Structural)]
pub enum Delivery {
    /// Nothing arrived within the timeout.
    TimedOut,
    /// A notification arrived.
    Delivered(RawEvent),
    /// The queue could not be read.
    Disconnected,
}

/// A classified notification about the control file.
#[derive(Clone, Copy, Debug, PartialEq, Eq, Structural)]
pub enum WatchEvent {
    /// The control file was written: a restart is asked for.
    Modified,
    /// The control file was deleted: the supervisor is asked to quit.
    Removed,
    /// Anything else; it asks for nothing.
    Other,
}

/// What the supervisor is to do at the end of a poll cycle.
#[derive(Clone, Copy, Debug, PartialEq, Eq, Structural)]
pub enum Verdict {
    /// Stop the child and end the run.
    Quit,
    /// Stop the child and start it again.
    Restart,
    /// Leave the child alone.
    Continue,
}

/// The class of a raw notification: a settled write is `Modified`, a settled
/// removal is `Removed`, every other kind is `Other`.
pub open spec fn classified(raw: RawEvent) -> WatchEvent {
    match raw {
        RawEvent::Write => WatchEvent::Modified,
        RawEvent::Remove => WatchEvent::Removed,
        _ => WatchEvent::Other,
    }
}

/// The event that a delivery surfaces to the supervisor, if any. A timeout,
/// a read failure and every notification of class `Other` surface nothing.
pub open spec fn surfaced(delivery: Delivery) -> Option<WatchEvent> {
    match delivery {
        Delivery::Delivered(RawEvent::Write) => Some(WatchEvent::Modified),
        Delivery::Delivered(RawEvent::Remove) => Some(WatchEvent::Removed),
        _ => None,
    }
}

/// Whether a delivery is a watch-read error: the queue was unreadable, or the
/// watcher itself reported an error. Such a delivery is logged and otherwise
/// counts as no event.
pub open spec fn is_fault(delivery: Delivery) -> bool {
    delivery == Delivery::Disconnected || delivery == Delivery::Delivered(RawEvent::Error)
}

/// Classifies a raw notification.
pub fn classify(raw: RawEvent) -> (event: WatchEvent)
    ensures
        event == classified(raw),
{
    match raw {
        RawEvent::Write => WatchEvent::Modified,
        RawEvent::Remove => WatchEvent::Removed,
        _ => WatchEvent::Other,
    }
}

/// The event that one poll hands to the supervisor: `None` where nothing
/// arrived, where the read failed, and where the notification is of no
/// interest.
pub fn surface(delivery: Delivery) -> (event: Option<WatchEvent>)
    ensures
        event == surfaced(delivery),
        event matches Some(e) ==> delivery matches Delivery::Delivered(raw) && e == classified(raw)
            && e != WatchEvent::Other,
{
    match delivery {
        Delivery::Delivered(raw) => match classify(raw) {
            WatchEvent::Other => None,
            event => Some(event),
        },
        _ => None,
    }
}

/// What was asked of the supervisor during one poll cycle.
///
/// Both `restart` and `quit` may be set; [`Signals::verdict`] says which one
/// wins.
#[derive(Clone, Copy, Debug, PartialEq, Eq, Structural)]
pub struct Signals {
    /// A restart was requested.
    pub restart: bool,
    /// Quitting was requested.
    pub quit: bool,
    /// A watch-read error occurred and is to be logged.
    pub fault: bool,
}

impl Signals {
    /// The signals of a cycle in which nothing happened.
    pub open spec fn quiet() -> Signals {
        Signals { restart: false, quit: false, fault: false }
    }

    /// These signals after one more delivery has been taken into account.
    /// A mark, once set, stays set.
    pub open spec fn noting(self, delivery: Delivery) -> Signals {
        Signals {
            restart: self.restart || surfaced(delivery) == Some(WatchEvent::Modified),
            quit: self.quit || surfaced(delivery) == Some(WatchEvent::Removed),
            fault: self.fault || is_fault(delivery),
        }
    }

    /// The signals of a whole batch of deliveries: a mark is set exactly if
    /// some delivery of the batch sets it.
    pub open spec fn of(batch: Seq<Delivery>) -> Signals {
        Signals {
            restart: exists|i: int|
                0 <= i < batch.len() && surfaced(#[trigger] batch[i]) == Some(WatchEvent::Modified),
            quit: exists|i: int|
                0 <= i < batch.len() && surfaced(#[trigger] batch[i]) == Some(WatchEvent::Removed),
            fault: exists|i: int| 0 <= i < batch.len() && is_fault(#[trigger] batch[i]),
        }
    }

    /// The verdict of a cycle: removal beats modification beats silence.
    pub open spec fn decided(self) -> Verdict {
        if self.quit {
            Verdict::Quit
        } else if self.restart {
            Verdict::Restart
        } else {
            Verdict::Continue
        }
    }

    /// The signals of a cycle in which nothing has happened yet.
    pub fn none() -> (signals: Signals)
        ensures
            signals == Signals::quiet(),
    {
        Signals { restart: false, quit: false, fault: false }
    }

    /// Takes one delivery into account.
    pub fn note(self, delivery: Delivery) -> (signals: Signals)
        ensures
            signals == self.noting(delivery),
    {
        let event = surface(delivery);
        let fault = match delivery {
            Delivery::Disconnected => true,
            Delivery::Delivered(RawEvent::Error) => true,
            _ => false,
        };
        Signals {
            restart: self.restart || matches!(event, Some(WatchEvent::Modified)),
            quit: self.quit || matches!(event, Some(WatchEvent::Removed)),
            fault: self.fault || fault,
        }
    }

    /// Folds everything that one poll cycle received into its signals.
    pub fn collect(batch: &[Delivery]) -> (signals: Signals)
        ensures
            signals == Signals::of(batch@),
    {
        let mut signals = Signals::none();
        let mut i: usize = 0;
        while i < batch.len()
            invariant
                i <= batch.len(),
                signals == Signals::of(batch@.take(i as int)),
            decreases batch.len() - i,
        {
            proof {
                lemma_of_push(batch@.take(i as int), batch@[i as int]);
                assert(batch@.take(i as int).push(batch@[i as int]) =~= batch@.take(i + 1));
            }
            signals = signals.note(batch[i]);
            i = i + 1;
        }
        assert(batch@.take(i as int) =~= batch@);
        signals
    }

    /// Which request wins this cycle.
    pub fn verdict(self) -> (verdict: Verdict)
        ensures
            verdict == self.decided(),
            verdict is Quit <==> self.quit,
            verdict is Restart <==> self.restart && !self.quit,
    {
        if self.quit {
            Verdict::Quit
        } else if self.restart {
            Verdict::Restart
        } else {
            Verdict::Continue
        }
    }
}

/// The signals of a batch with one more delivery at its end are the signals
/// of the batch after noting that delivery.
pub proof fn lemma_of_push(batch: Seq<Delivery>, delivery: Delivery)
    ensures
        Signals::of(batch.push(delivery)) == Signals::of(batch).noting(delivery),
{
    let longer = batch.push(delivery);
    let last = batch.len() as int;
    assert(longer[last] == delivery);
    assert forall|i: int| 0 <= i < batch.len() implies #[trigger] longer[i] == batch[i] by {}
    let a = Signals::of(longer);
    let b = Signals::of(batch).noting(delivery);
    assert(a.restart == b.restart) by {
        if b.restart {
            if Signals::of(batch).restart {
                let i = choose|i: int|
                    0 <= i < batch.len() && surfaced(#[trigger] batch[i]) == Some(
                        WatchEvent::Modified,
                    );
                assert(surfaced(longer[i]) == Some(WatchEvent::Modified));
            } else {
                assert(surfaced(longer[last]) == Some(WatchEvent::Modified));
            }
        }
        if a.restart {
            let i = choose|i: int|
                0 <= i < longer.len() && surfaced(#[trigger] longer[i]) == Some(
                    WatchEvent::Modified,
                );
            if i < last {
                assert(surfaced(batch[i]) == Some(WatchEvent::Modified));
            }
        }
    }
    assert(a.quit == b.quit) by {
        if b.quit {
            if Signals::of(batch).quit {
                let i = choose|i: int|
                    0 <= i < batch.len() && surfaced(#[trigger] batch[i]) == Some(
                        WatchEvent::Removed,
                    );
                assert(surfaced(longer[i]) == Some(WatchEvent::Removed));
            } else {
                assert(surfaced(longer[last]) == Some(WatchEvent::Removed));
            }
        }
        if a.quit {
            let i = choose|i: int|
                0 <= i < longer.len() && surfaced(#[trigger] longer[i]) == Some(
                    WatchEvent::Removed,
                );
            if i < last {
                assert(surfaced(batch[i]) == Some(WatchEvent::Removed));
            }
        }
    }
    assert(a.fault == b.fault) by {
        if b.fault {
            if Signals::of(batch).fault {
                let i = choose|i: int| 0 <= i < batch.len() && is_fault(#[trigger] batch[i]);
                assert(is_fault(longer[i]));
            } else {
                assert(is_fault(longer[last]));
            }
        }
        if a.fault {
            let i = choose|i: int| 0 <= i < longer.len() && is_fault(#[trigger] longer[i]);
            if i < last {
                assert(is_fault(batch[i]));
            }
        }
    }
}

} // verus!
