//! A small functional I/O library: whole-buffer read operations over any
//! byte source, and cursor-driven wrappers over collected sequences.

mod codec;
mod cursor;
mod lines;
mod read;
mod source;

pub use codec::lemma_encode_decode_round_trip;
pub use codec::string_chars;
pub use cursor::Chars;
pub use cursor::Lines;
pub use cursor::iter_step;
pub use cursor::lemma_iteration_skips_first;
pub use cursor::seq_first;
pub use cursor::seq_get;
pub use lines::first_nl;
pub use lines::lemma_first_nl_at;
pub use lines::lemma_first_nl_props;
pub use lines::lemma_terminators_stripped;
pub use lines::lemma_trailing_crlf;
pub use lines::lemma_trailing_newline;
pub use lines::line_before;
pub use lines::spec_lines;
pub use lines::split_lines;
pub use read::SimpleIO;
pub use source::ByteSource;
pub use source::FailSource;
pub use source::MemSource;
pub use source::ReadError;
