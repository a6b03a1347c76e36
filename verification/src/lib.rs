//! A minimal mock HTTP API backend: fixed seed data, lookup and listing
//! handlers, a health report, and a deterministic micro-benchmark, each
//! response stamped with fresh server metadata. The HTTP transport lives
//! outside this library; every handler here is a verified function of the
//! shared read-only state and freshly sampled clock values.

mod data;
mod handlers;
mod platform;
mod state;
mod strfmt;

pub use handlers::BENCHMARK_ITERATIONS;
pub use handlers::BENCHMARK_SUM;
pub use handlers::benchmark_result;
pub use handlers::build_health;
pub use handlers::build_performance;
pub use handlers::find_post_index;
pub use handlers::find_user_index;
pub use handlers::get_post_handler;
pub use handlers::get_post_with_info;
pub use handlers::get_posts_handler;
pub use handlers::get_user_handler;
pub use handlers::get_user_with_info;
pub use handlers::get_users_handler;
pub use handlers::health_handler;
pub use handlers::performance_handler;
pub use handlers::render_post;
pub use handlers::render_user;
pub use handlers::threads_desc;
pub use state::AppState;

pub use data::ErrorResponse;
pub use data::HealthResponse;
pub use data::MemoryInfo;
pub use data::PerformanceResponse;
pub use data::Post;
pub use data::ServerInfo;
pub use data::User;
pub use data::post_core_matches;
pub use data::user_core_matches;
pub use strfmt::char_of_digit;
pub use strfmt::dec_str;
pub use strfmt::dec_val;
pub use strfmt::digit_val;
pub use strfmt::format_uptime;
pub use strfmt::lemma_dec_val_of_dec_str;
pub use strfmt::lemma_uptime_str_injective;
pub use strfmt::pad3_str;
pub use strfmt::u64_to_dec;
pub use strfmt::uptime_str;
