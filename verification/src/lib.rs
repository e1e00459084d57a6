//! A verified core for a client of a real-time audio server.
//!
//! The server drives all audio work through C-style callbacks on its own
//! real-time thread. This crate holds the verified heart of such a client:
//! typed handler registration with a replace-only-on-confirmation protocol
//! ([`HandlerRegistry`]), bounds-checked per-period buffer views
//! ([`BufferView`]), random access to the timestamped events of one period
//! ([`MidiEventBuf`]), capability-typed port handles ([`Port`]), and a
//! bounded, best-effort notification queue ([`NotificationQueue`]) that
//! carries results from real-time callbacks back to application code
//! without blocking.
//!
//! Everything that talks to the server itself — connection setup, port
//! registration, the raw callback trampolines — is unverified glue outside
//! this crate; it hands plain values in and takes plain values out, and the
//! contracts here pin down what happens to them.

mod buffer;
mod callbackhandler;
mod client;
mod connector;
mod midi;
mod notify;
pub mod options;
mod port;
pub mod port_flags;
mod port_type;
mod registry;
pub mod status;
mod types;

pub use buffer::BufferView;
pub use callbackhandler::CallbackContext;
pub use callbackhandler::MetadataHandler;
pub use callbackhandler::MetadataHandlers;
pub use callbackhandler::ProcessHandler;
pub use callbackhandler::all_installable;
pub use callbackhandler::handler_installable;
pub use callbackhandler::is_installable;
pub use client::disconnect_outcome;
pub use client::open_outcome;
pub use client::resolve_client_name;
pub use client::result_from_return_code;
pub use connector::Connector;
pub use midi::MidiEvent;
pub use midi::MidiEventBuf;
pub use midi::MidiEventRef;
pub use midi::times_sorted;
pub use notify::Notification;
pub use notify::NotificationQueue;
pub use notify::NotifyingHandler;
pub use notify::SendOutcome;
pub use notify::lemma_bounded_best_effort;
pub use notify::lemma_send_all_delivers;
pub use notify::lemma_send_preserves_messages;
pub use notify::spec_send;
pub use notify::spec_send_all;
pub use options::Options;
pub use port::InputPortHandle;
pub use port::OutputPortHandle;
pub use port::Port;
pub use port::UnknownPortHandle;
pub use port_flags::PortFlags;
pub use port_type::PortType;
pub use registry::HandlerRegistry;
pub use registry::lemma_at_most_one_per_category;
pub use registry::lemma_replace_keeps_exactly_one;
pub use registry::metadata_commit;
pub use registry::process_commit;
pub use status::Status;
pub use types::NumFrames;
pub use types::PortConnectStatus;
pub use types::PortId;
