//! A CPU-bound hashing benchmark workload: a fixed 32-byte scratch buffer is
//! rebuilt for each iteration (constant tag, zero padding, little-endian
//! counter) and fed to a streaming SHA-256 accumulator; the final digest and
//! the iteration count are rendered as a one-line report.

mod args;
mod buffer;
mod hashing;
mod report;
mod workload;

pub use args::DEFAULT_ITERATIONS;
pub use args::digits_of;
pub use args::effective_iterations;
pub use args::is_u64_numeral;
pub use args::lemma_default_substitution;
pub use args::numeral_value;
pub use args::parse_u64;
pub use args::spec_effective_iterations;

pub use buffer::BUFFER_SIZE;
pub use buffer::COUNTER_SIZE;
pub use buffer::MAX_TAG_LEN;
pub use buffer::buffer_bytes;
pub use buffer::init_buffer;
pub use buffer::lemma_buffer_layout;
pub use buffer::prefix_region;
pub use buffer::write_counter;
pub use buffer::zero_bytes;

pub use hashing::Sha256Accumulator;
pub use hashing::absorbed_bytes;
pub use hashing::sha256_of;

pub use report::dec_chars;
pub use report::digit_char;
pub use report::format_report;
pub use report::frac3_chars;
pub use report::hex_chars;
pub use report::hex_digit_char;
pub use report::is_hex_char;
pub use report::lemma_hex_chars_form;
pub use report::report_chars;
pub use report::to_hex;

pub use workload::Workload;
pub use workload::benchmark_tag;
pub use workload::benchmark_tag_vec;
pub use workload::digest_spec;
pub use workload::hash_stream;
pub use workload::lemma_digest_deterministic;
pub use workload::lemma_hash_stream_len;
pub use workload::lemma_stream_iteration_sensitive;
pub use workload::lemma_zero_iterations;
