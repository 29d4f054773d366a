//! Driver for a MAX17205 fuel gauge on a shared, interrupt-driven I2C bus.
//!
//! The device state machine (`max17205`) performs each logical read as a
//! sequence of bus transactions, lending its single scratch buffer to the
//! bus and getting it back on each completion. The syscall adapter
//! (`driver`) turns finished readings into process upcalls.
mod bus;
mod decode;
mod driver;
mod error;
mod laws;
mod max17205;
mod registers;

pub use bus::{BusOp, I2CError, Transfer, TransferView};
pub use decode::{le_at, le_u16, le_u64, le_value};
pub use error::{into_statuscode, status_code, ErrorCode};
pub use registers::{Endpoint, Register, UPPER_RANGE_START};
pub use max17205::{
    address_write, begin_view, outcome, register_read, spec_begin, spec_complete, step_finish,
    step_read, step_write, Completion, CompletionView, GaugeView, Operation, Reading, State,
    BUFFER_LEN, MAX17205,
};
pub use driver::{
    after_report, command_operation, lemma_upcall_words_recover, pack_capacity, schedule_onto, upcall_args, CommandReturn, DriverView,
    MAX17205Client, MAX17205Driver, ScheduledUpcall, Upcall,
};
pub use laws::{
    expected_reading, feed, lemma_busy_rejected, lemma_error_releases,
    lemma_next_operation_proceeds, lemma_operation_reports_once, lemma_success_reports_reading,
    run, transaction_count, whole_buffers,
};
