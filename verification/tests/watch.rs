use rstrtr::watch::{classify, surface, Delivery, RawEvent, Signals, Verdict, WatchEvent};
use rstrtr::watch::{DEBOUNCE_MS, POLL_MS};

#[test]
fn settled_write_is_modified() {
    assert_eq!(classify(RawEvent::Write), WatchEvent::Modified);
}

#[test]
fn settled_remove_is_removed() {
    assert_eq!(classify(RawEvent::Remove), WatchEvent::Removed);
}

#[test]
fn every_other_kind_is_other() {
    let others = [
        RawEvent::NoticeWrite,
        RawEvent::NoticeRemove,
        RawEvent::Create,
        RawEvent::Chmod,
        RawEvent::Rename,
        RawEvent::Rescan,
        RawEvent::Error,
    ];
    for raw in others {
        assert_eq!(classify(raw), WatchEvent::Other);
    }
}

#[test]
fn timeout_surfaces_nothing() {
    assert_eq!(surface(Delivery::TimedOut), None);
}

#[test]
fn read_failure_surfaces_nothing() {
    assert_eq!(surface(Delivery::Disconnected), None);
    assert_eq!(surface(Delivery::Delivered(RawEvent::Error)), None);
}

#[test]
fn write_and_remove_surface() {
    assert_eq!(
        surface(Delivery::Delivered(RawEvent::Write)),
        Some(WatchEvent::Modified)
    );
    assert_eq!(
        surface(Delivery::Delivered(RawEvent::Remove)),
        Some(WatchEvent::Removed)
    );
}

#[test]
fn uninteresting_kinds_are_discarded() {
    let others = [
        RawEvent::NoticeWrite,
        RawEvent::NoticeRemove,
        RawEvent::Create,
        RawEvent::Chmod,
        RawEvent::Rename,
        RawEvent::Rescan,
    ];
    for raw in others {
        assert_eq!(surface(Delivery::Delivered(raw)), None);
    }
}

#[test]
fn quiet_cycle_has_no_marks() {
    let signals = Signals::none();
    assert_eq!(
        signals,
        Signals {
            restart: false,
            quit: false,
            fault: false
        }
    );
    assert_eq!(signals.verdict(), Verdict::Continue);
}

#[test]
fn note_marks_restart_on_write() {
    let signals = Signals::none().note(Delivery::Delivered(RawEvent::Write));
    assert_eq!(
        signals,
        Signals {
            restart: true,
            quit: false,
            fault: false
        }
    );
    assert_eq!(signals.verdict(), Verdict::Restart);
}

#[test]
fn note_marks_quit_on_remove() {
    let signals = Signals::none().note(Delivery::Delivered(RawEvent::Remove));
    assert_eq!(
        signals,
        Signals {
            restart: false,
            quit: true,
            fault: false
        }
    );
    assert_eq!(signals.verdict(), Verdict::Quit);
}

#[test]
fn note_marks_fault_on_read_errors() {
    let broken = Signals::none().note(Delivery::Disconnected);
    assert_eq!(
        broken,
        Signals {
            restart: false,
            quit: false,
            fault: true
        }
    );
    let reported = Signals::none().note(Delivery::Delivered(RawEvent::Error));
    assert_eq!(reported, broken);
    assert_eq!(broken.verdict(), Verdict::Continue);
}

#[test]
fn note_leaves_marks_alone_on_timeout_and_notices() {
    let before = Signals {
        restart: true,
        quit: false,
        fault: false,
    };
    assert_eq!(before.note(Delivery::TimedOut), before);
    assert_eq!(before.note(Delivery::Delivered(RawEvent::NoticeWrite)), before);
    assert_eq!(before.note(Delivery::Delivered(RawEvent::Chmod)), before);
}

#[test]
fn marks_stay_set() {
    let all = Signals {
        restart: true,
        quit: true,
        fault: true,
    };
    assert_eq!(all.note(Delivery::TimedOut), all);
    assert_eq!(all.note(Delivery::Delivered(RawEvent::Write)), all);
    assert_eq!(all.note(Delivery::Delivered(RawEvent::Remove)), all);
}

#[test]
fn removal_beats_modification() {
    let both = Signals {
        restart: true,
        quit: true,
        fault: false,
    };
    assert_eq!(both.verdict(), Verdict::Quit);
    let write_then_remove = Signals::collect(&[
        Delivery::Delivered(RawEvent::Write),
        Delivery::Delivered(RawEvent::Remove),
    ]);
    assert_eq!(write_then_remove, both);
    let remove_then_write = Signals::collect(&[
        Delivery::Delivered(RawEvent::Remove),
        Delivery::Delivered(RawEvent::Write),
    ]);
    assert_eq!(remove_then_write, both);
}

#[test]
fn collect_of_nothing_is_quiet() {
    assert_eq!(Signals::collect(&[]), Signals::none());
    assert_eq!(Signals::collect(&[Delivery::TimedOut]), Signals::none());
}

#[test]
fn many_writes_ask_for_one_restart() {
    let one = Signals::collect(&[Delivery::Delivered(RawEvent::Write)]);
    let mut batch: Vec<Delivery> = Vec::new();
    for _ in 0..25 {
        batch.push(Delivery::Delivered(RawEvent::NoticeWrite));
        batch.push(Delivery::Delivered(RawEvent::Write));
    }
    let many = Signals::collect(&batch);
    assert_eq!(many, one);
    assert_eq!(many.verdict(), Verdict::Restart);
}

#[test]
fn collect_agrees_with_noting_one_by_one() {
    let batch = [
        Delivery::TimedOut,
        Delivery::Delivered(RawEvent::Chmod),
        Delivery::Delivered(RawEvent::Error),
        Delivery::Delivered(RawEvent::Write),
        Delivery::Delivered(RawEvent::Rescan),
    ];
    let mut folded = Signals::none();
    for delivery in batch {
        folded = folded.note(delivery);
    }
    assert_eq!(Signals::collect(&batch), folded);
    assert_eq!(
        folded,
        Signals {
            restart: true,
            quit: false,
            fault: true
        }
    );
}

#[test]
fn timing_constants() {
    assert_eq!(DEBOUNCE_MS, 100);
    assert_eq!(POLL_MS, 50);
}
