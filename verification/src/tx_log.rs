//! A logger that forwards Passivate's own log records to a channel.
use vstd::prelude::*;

use crate::log_message::LogMessage;
use crate::text::has_prefix;
use crate::tx_rx::Tx;

verus! {

/// A logger that sends each log record of Passivate's own modules (those
/// whose target starts with `passivate`) as a `LogMessage`.
pub struct TxLog<TTx: Tx<LogMessage>> {
    tx: TTx,
}

/// Whether a record with this target is forwarded: its target starts with
/// `passivate`.
pub open spec fn forwards_target(target: Seq<char>) -> bool {
    has_prefix(target, "passivate"@)
}

/// The text of a forwarded record: `LEVEL - message`.
pub open spec fn log_line(level: Seq<char>, args: Seq<char>) -> Seq<char> {
    level + " - "@ + args
}

/// The text of a forwarded record: `LEVEL - message`.
pub fn format_log_line(level: &str, args: &str) -> (r: String)
    ensures
        r@ == log_line(level@, args@),
{
    let mut line = String::from_str(level);
    line.append(" - ");
    line.append(args);
    line
}

/// Whether a record with this target is forwarded.
pub fn forwards(target: &str) -> (r: bool)
    ensures
        r == forwards_target(target@),
{
    crate::text::starts_with(target, "passivate")
}

impl<TTx: Tx<LogMessage>> TxLog<TTx> {
    /// A logger sending through `tx`.
    pub fn new(tx: TTx) -> (r: Self)
        ensures
            r.tx() == tx,
    {
        TxLog { tx }
    }

    /// The channel the logger sends through.
    pub closed spec fn tx(&self) -> TTx {
        self.tx
    }

    /// Forwards a record with the given target, level and message text if its
    /// target starts with `passivate`, as a message `LEVEL - message` made
    /// now; says whether it was sent.
    pub fn log_record(&self, target: &str, level: &str, args: &str) -> (sent: bool)
        ensures
            sent == forwards_target(target@),
            sent ==> exists|m: LogMessage| #[trigger]
                self.tx().sends(m) && m.content@ == log_line(level@, args@)
                    && m.timestamp.subsec_nanos < 1_000_000_000,
    {
        if forwards(target) {
            let message = LogMessage::new(format_log_line(level, args));
            let ghost m = message;
            self.tx.send(message);
            assert(self.tx().sends(m));
            true
        } else {
            false
        }
    }
}

} // verus!
