//! A Bluetooth byte-stream bridge over a blocking, timeout-less foreign socket.
//!
//! The library holds the decisions of the bridge: classifying foreign
//! exceptions, the shared receive queue, the background reader's loop steps,
//! the timeout-bounded read, the write scratch buffer, the connection
//! lifecycle and a device's socket cache. The foreign calls themselves, the
//! threads and the clock are driven by the caller, which hands each outcome
//! back as a plain value.

pub mod agent;
pub mod bridge;
pub mod cache;
pub mod error;
pub mod exception;
pub mod poll;
pub mod profile;
pub mod queue;
pub mod reader;
pub mod stream;
pub mod text;
pub mod types;
pub mod uuid;

pub use agent::{passkey_step, PasskeyEvent, PasskeyStep};
pub use bridge::{write_error, BridgeCore, ClosePlan, LinkState, WritePlan};
pub use cache::SocketCache;
pub use error::{BridgeError, ErrorKind};
pub use exception::{lowered_reports_closure, reports_closure, classify_exception};
pub use poll::{PollStep, ReadPoll, POLL_INTERVAL_MS};
pub use profile::{socket_settings_plan, SocketSetting};
pub use queue::ByteQueue;
pub use reader::{
    after_check, after_read, read_batch_size, restore_callback, ReadOutcome, ReaderAction,
    WORK_BUFFER_SIZE,
};
pub use text::{contains_text, same_text};
pub use types::{
    BluetoothAdapterAddress, BluetoothCommand, BluetoothDiscoveryTrait,
    BluetoothL2capProfileSettings, BluetoothResponse, BluetoothRfcommProfileSettings,
    BluetoothRfcommSocketTrait, BluetoothSocketTrait, Dummy, MessageFromBluetoothHost,
    PairingStatus, ResponseToPasskey,
};
pub use uuid::BluetoothUuid;
