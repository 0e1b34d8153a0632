//! A local, append-only analytics event recorder: builds a structured
//! "track" event carrying a stable anonymous client identifier and a
//! timestamp, renders it as a JSON document, and prepares it for
//! persistence as a standalone file in a cache directory.

use vstd::prelude::*;

mod decimal;
mod event;
mod identity;
mod record;

pub use decimal::dec_digits;
pub use decimal::digit_char;
pub use decimal::u64_to_dec;
pub use event::Event;
pub use event::event_json;
pub use event::lemma_serialization_deterministic;
pub use identity::CLIENT_ID_METAFILE;
pub use identity::identity_lookup;
pub use identity::identity_store_after;
pub use identity::identity_writes;
pub use identity::is_lower_hex_digit;
pub use identity::is_uuid_hyphenated;
pub use identity::lemma_identity_idempotent;
pub use identity::resolve_client_id;
pub use identity::stored_view;
pub use record::event_file_name;
pub use record::event_file_name_spec;
pub use record::prepare_event_file;
pub use record::timestamp;
pub use record::timestamp_render;
pub use record::timestamp_string;
pub use record::NANOS_PER_SEC;

verus! {

/// The one event kind currently defined; callers may pass any other
/// non-empty string as an event name.
pub const EVENT_BUILDER_PROJECT_CREATE: &'static str = "builder-project-create";

} // verus!
