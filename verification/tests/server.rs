use mock_server::AppState;
use mock_server::BENCHMARK_SUM;
use mock_server::benchmark_result;
use mock_server::build_health;
use mock_server::build_performance;
use mock_server::find_post_index;
use mock_server::find_user_index;
use mock_server::format_uptime;
use mock_server::get_post_handler;
use mock_server::get_posts_handler;
use mock_server::get_user_handler;
use mock_server::get_users_handler;
use mock_server::health_handler;
use mock_server::performance_handler;
use mock_server::u64_to_dec;

fn seed_state() -> AppState {
    AppState::new("rust-mock-api-3".to_string(), "3003".to_string())
}

fn parse_uptime_millis(s: &str) -> u64 {
    let body = s.strip_suffix('s').expect("uptime ends with s");
    let (secs, frac) = body.split_once('.').expect("uptime has a dot");
    assert_eq!(frac.len(), 3);
    secs.parse::<u64>().unwrap() * 1000 + frac.parse::<u64>().unwrap()
}

#[test]
fn seed_posts_contents() {
    let state = seed_state();
    assert_eq!(state.posts.len(), 3);
    assert_eq!(state.posts[0].id, 1);
    assert_eq!(state.posts[0].title, "Post 1");
    assert_eq!(state.posts[0].body, "This is post 1");
    assert_eq!(state.posts[0].user_id, 1);
    assert_eq!(state.posts[1].id, 2);
    assert_eq!(state.posts[1].title, "Post 2");
    assert_eq!(state.posts[1].user_id, 1);
    assert_eq!(state.posts[2].id, 3);
    assert_eq!(state.posts[2].title, "Post 3");
    assert_eq!(state.posts[2].user_id, 2);
}

#[test]
fn seed_users_contents() {
    let state = seed_state();
    assert_eq!(state.users.len(), 2);
    assert_eq!(state.users[0].id, 1);
    assert_eq!(state.users[0].name, "John Doe");
    assert_eq!(state.users[0].email, "john@example.com");
    assert_eq!(state.users[1].id, 2);
    assert_eq!(state.users[1].name, "Jane Smith");
    assert_eq!(state.users[1].email, "jane@example.com");
}

#[test]
fn get_post_returns_requested_id() {
    let state = seed_state();
    for id in 1u32..=3 {
        let r = get_post_handler(id, &state);
        let post = r.expect("seeded id must be found");
        assert_eq!(post.id, id);
    }
}

#[test]
fn get_post_unknown_id_is_not_found() {
    let state = seed_state();
    for id in [0u32, 4, 99, u32::MAX] {
        let r = get_post_handler(id, &state);
        let err = r.err().expect("unknown id must be a 404");
        assert_eq!(err.error, "Post not found");
    }
}

#[test]
fn get_user_returns_requested_id() {
    let state = seed_state();
    for id in 1u32..=2 {
        let r = get_user_handler(id, &state);
        let user = r.expect("seeded id must be found");
        assert_eq!(user.id, id);
    }
}

#[test]
fn get_user_unknown_id_is_not_found() {
    let state = seed_state();
    for id in [0u32, 3, 42] {
        let r = get_user_handler(id, &state);
        let err = r.err().expect("unknown id must be a 404");
        assert_eq!(err.error, "User not found");
    }
}

#[test]
fn list_posts_keeps_seed_order() {
    let state = seed_state();
    let posts = get_posts_handler(&state);
    assert_eq!(posts.len(), 3);
    for (i, post) in posts.iter().enumerate() {
        assert_eq!(post.id, state.posts[i].id);
        assert_eq!(post.title, state.posts[i].title);
        assert_eq!(post.body, state.posts[i].body);
        assert_eq!(post.user_id, state.posts[i].user_id);
    }
}

#[test]
fn list_users_keeps_seed_order() {
    let state = seed_state();
    let users = get_users_handler(&state);
    assert_eq!(users.len(), 2);
    for (i, user) in users.iter().enumerate() {
        assert_eq!(user.id, state.users[i].id);
        assert_eq!(user.name, state.users[i].name);
        assert_eq!(user.email, state.users[i].email);
    }
}

#[test]
fn uptime_is_non_decreasing_across_calls() {
    let state = seed_state();
    let mut last: u64 = 0;
    for _ in 0..5 {
        let health = health_handler(&state);
        let ms = parse_uptime_millis(&health.uptime);
        assert!(ms >= last);
        last = ms;
    }
}

#[test]
fn performance_result_is_deterministic() {
    let state = seed_state();
    let first = performance_handler(&state);
    let second = performance_handler(&state);
    assert_eq!(first.result, second.result);
    assert_eq!(first.result, BENCHMARK_SUM);
    assert_eq!(first.result, 4_999_950_000u64);
    assert_eq!(benchmark_result(), 4_999_950_000u64);
}

#[test]
fn performance_fields() {
    let state = seed_state();
    let perf = performance_handler(&state);
    assert_eq!(perf.language, "Rust");
    assert_eq!(perf.server, "rust-mock-api-3");
    assert_eq!(perf.concurrency, "async/await tokio");
    let expected = format!("{}x tokio worker threads", num_cpus::get());
    assert_eq!(perf.threads, expected);
}

#[test]
fn health_reports_healthy_and_cpu_count() {
    let state = seed_state();
    let health = health_handler(&state);
    assert_eq!(health.status, "healthy");
    assert_eq!(health.language, "Rust");
    assert_eq!(health.server, "rust-mock-api-3");
    assert_eq!(health.port, "3003");
    assert_eq!(health.memory.rss, "N/A");
    assert_eq!(health.memory.threads, num_cpus::get() as u32);
    assert!(health.memory.threads >= 1);
    assert_eq!(health.threads, "async tokio");
}

#[test]
fn scenario_post_two_and_user_three() {
    let state = seed_state();
    let post = get_post_handler(2, &state).expect("post 2 is seeded");
    assert_eq!(post.title, "Post 2");
    let err = get_user_handler(3, &state).err().expect("user 3 is not seeded");
    assert_eq!(err.error, "User not found");
}

#[test]
fn server_info_identifies_instance() {
    let state = AppState::new("backend-7".to_string(), "8080".to_string());
    let info = state.create_server_info();
    assert_eq!(info.language, "Rust");
    assert_eq!(info.server, "backend-7");
    assert_eq!(info.port, "8080");
    let ms = parse_uptime_millis(&info.uptime);
    assert!(ms < 60_000, "a fresh state cannot be up for a minute");
}

#[test]
fn build_health_concrete_values() {
    let h = build_health("srv", "80", "2024-01-01T00:00:00+00:00".to_string(), 1500, 8);
    assert_eq!(h.status, "healthy");
    assert_eq!(h.language, "Rust");
    assert_eq!(h.server, "srv");
    assert_eq!(h.port, "80");
    assert_eq!(h.timestamp, "2024-01-01T00:00:00+00:00");
    assert_eq!(h.uptime, "1.500s");
    assert_eq!(h.memory.rss, "N/A");
    assert_eq!(h.memory.threads, 8);
    assert_eq!(h.threads, "async tokio");
}

#[test]
fn build_performance_concrete_values() {
    let p = build_performance("srv", "2024-01-01T00:00:00+00:00".to_string(), 12345, 678, 4);
    assert_eq!(p.language, "Rust");
    assert_eq!(p.server, "srv");
    assert_eq!(p.timestamp, "2024-01-01T00:00:00+00:00");
    assert_eq!(p.result, 12345);
    assert_eq!(p.processing_time, 678);
    assert_eq!(p.concurrency, "async/await tokio");
    assert_eq!(p.threads, "4x tokio worker threads");
}

#[test]
fn find_index_matches_seed_positions() {
    let state = seed_state();
    assert_eq!(find_post_index(&state.posts, 1), Some(0));
    assert_eq!(find_post_index(&state.posts, 3), Some(2));
    assert_eq!(find_post_index(&state.posts, 7), None);
    assert_eq!(find_user_index(&state.users, 2), Some(1));
    assert_eq!(find_user_index(&state.users, 3), None);
}

#[test]
fn format_uptime_concrete_values() {
    assert_eq!(format_uptime(0), "0.000s");
    assert_eq!(format_uptime(1), "0.001s");
    assert_eq!(format_uptime(12), "0.012s");
    assert_eq!(format_uptime(123), "0.123s");
    assert_eq!(format_uptime(1000), "1.000s");
    assert_eq!(format_uptime(1234), "1.234s");
    assert_eq!(format_uptime(59_999), "59.999s");
    assert_eq!(format_uptime(3_600_005), "3600.005s");
}

#[test]
fn u64_to_dec_concrete_values() {
    assert_eq!(u64_to_dec(0), "0");
    assert_eq!(u64_to_dec(7), "7");
    assert_eq!(u64_to_dec(42), "42");
    assert_eq!(u64_to_dec(100), "100");
    assert_eq!(u64_to_dec(4_999_950_000), "4999950000");
    assert_eq!(u64_to_dec(u64::MAX), "18446744073709551615");
}
