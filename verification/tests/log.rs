use std::cell::RefCell;
use std::rc::Rc;

use passivate::cancellation::{Cancellation, Cancelled};
use passivate::log_entry::{format_time_of_day, LogEntry};
use passivate::log_message::{timestamp_from_reading, LogMessage, Timestamp};
use passivate::tx_log::{format_log_line, forwards, TxLog};
use passivate::tx_rx::{Rx, RxError, TryRecvFailure, Tx};

struct SpyTx {
    sent: Rc<RefCell<Vec<String>>>,
}

impl Tx<LogMessage> for SpyTx {
    fn send(&self, message: LogMessage) {
        self.sent.borrow_mut().push(message.content);
    }
}

struct QueueRx {
    waiting: RefCell<Vec<LogMessage>>,
}

impl Rx<LogMessage> for QueueRx {
    fn recv(&self) -> Result<LogMessage, RxError> {
        self.try_recv().map_err(|_| RxError::Recv)
    }

    fn try_recv(&self) -> Result<LogMessage, RxError> {
        let mut waiting = self.waiting.borrow_mut();
        if waiting.is_empty() {
            Err(RxError::TryRecv(TryRecvFailure::Empty))
        } else {
            Ok(waiting.remove(0))
        }
    }
}

fn at(seconds: i64) -> Timestamp {
    Timestamp { seconds, subsec_nanos: 0 }
}

#[test]
pub fn a_log_entry_shows_the_utc_time_of_day() {
    // 1_662_921_288 seconds after the epoch is 2022-09-11 18:34:48 UTC.
    let entry = LogEntry::from(LogMessage::new_with_timestamp("Hey, this is a log message!".to_string(), at(1_662_921_288)));

    assert_eq!("18:34:48", entry.timestamp);
    assert_eq!("Hey, this is a log message!", entry.message);
}

#[test]
pub fn times_of_day_wrap_at_midnight_and_before_the_epoch() {
    assert_eq!("00:00:00", format_time_of_day(at(0)));
    assert_eq!("23:59:59", format_time_of_day(at(-1)));
    assert_eq!("01:01:01", format_time_of_day(at(86_400 + 3_661)));
    assert_eq!("23:59:60", format_time_of_day(Timestamp { seconds: 86_399, subsec_nanos: 1_500_000_000 }));
}

#[test]
pub fn only_passivate_records_are_forwarded() {
    let log = TxLog::new(SpyTx { sent: Rc::new(RefCell::new(Vec::new())) });

    assert!(log.log_record("passivate_core::compose", "INFO", "Passivate started."));
    assert!(!log.log_record("eframe", "INFO", "window opened"));

    assert!(forwards("passivate"));
    assert!(!forwards("passiv"));
    assert_eq!("ERROR - failed", format_log_line("ERROR", "failed"));
}

#[test]
pub fn log_is_stored_in_view_state() {
    let mut view_state: passivate::passivate_view_state::PassivateViewState<()> =
        passivate::passivate_view_state::PassivateViewState::new();
    let rx = QueueRx { waiting: RefCell::new(vec![LogMessage::new("example log".to_string())]) };
    let configuration = passivate::configuration::PassivateConfiguration::default();

    let action = view_state.update_view_state(None, &configuration, &rx);

    assert!(action.is_none());
    assert_eq!(1, view_state.logs().len());
    assert_eq!("example log", view_state.logs()[0].message);
}

#[test]
pub fn a_new_message_is_sent_now() {
    let message = LogMessage::new("x".to_string());

    assert_eq!("x", message.content);
    assert!(message.timestamp.seconds > 1_600_000_000);
}

#[test]
pub fn check_fails_once_cancelled_through_any_clone() {
    let cancellation = Cancellation::default();
    let mut clone = cancellation.clone();

    assert_eq!(Ok(()), cancellation.check());
    assert!(!cancellation.is_cancelled());

    clone.cancel();

    assert!(cancellation.is_cancelled());
    assert_eq!(Err(Cancelled), cancellation.check());
    assert_eq!(Err(Cancelled), Cancellation::outcome(true));
    assert_eq!(Ok(()), Cancellation::outcome(false));
}

#[test]
pub fn a_record_is_sent_as_its_level_then_its_message() {
    let sent = Rc::new(RefCell::new(Vec::new()));
    let log = TxLog::new(SpyTx { sent: sent.clone() });

    assert!(log.log_record("passivate_core::compose", "INFO", "Passivate started."));
    assert!(!log.log_record("eframe", "WARN", "ignored"));

    assert_eq!(vec!["INFO - Passivate started.".to_string()], *sent.borrow());
}

#[test]
pub fn clock_readings_become_moments() {
    assert_eq!(Timestamp { seconds: 5, subsec_nanos: 7 }, timestamp_from_reading(Ok((5, 7))));
    assert_eq!(Timestamp { seconds: -2, subsec_nanos: 500_000_000 }, timestamp_from_reading(Err((1, 500_000_000))));
    assert_eq!(Timestamp { seconds: -3, subsec_nanos: 0 }, timestamp_from_reading(Err((3, 0))));
    assert_eq!(Timestamp { seconds: i64::MAX, subsec_nanos: 999_999_999 }, timestamp_from_reading(Ok((u64::MAX, 0))));
    assert_eq!(Timestamp { seconds: i64::MIN, subsec_nanos: 0 }, timestamp_from_reading(Err((u64::MAX, 1))));
}
