//! Benchmark score acquisition: storage keys, search addresses, score
//! extraction from listing pages and the per-processor acquisition state.
pub mod text;
pub mod key;
pub mod url;
pub mod scrape;
pub mod cpu;

pub use cpu::{not_found, Cpu, Exist};
pub use key::prepare_table_name;
pub use scrape::{extract_scores, probe_page, PageError, Probe, ScorePair};
pub use url::to_url;
