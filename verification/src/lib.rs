//! Small sequence and text utilities: sub-sequence search, offset-bounded
//! linear search, draining a pull-based producer into a vector, hex encoding
//! of bytes, and best-effort UTF-8 decoding with a readable fallback.

mod search;
mod stream;
mod text;

pub use search::index_of;
pub use search::index_of_from;
pub use search::matches_at;
pub use stream::accumulate;
pub use stream::lemma_no_upcoming_collects_nothing;
pub use stream::Producer;
pub use stream::StackProducer;
pub use text::byte_list_render;
pub use text::debug_render;
pub use text::dec_digit;
pub use text::dec_render;
pub use text::hex_digit;
pub use text::hex_pair;
pub use text::hex_render;
pub use text::lemma_hex_render_len;
pub use text::make_hex_string;
pub use text::to_string;
pub use text::to_string_s;
