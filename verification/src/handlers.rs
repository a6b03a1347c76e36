//! The request handlers: one per endpoint, each a pure function of the
//! shared read-only state and freshly sampled clock values.

use vstd::prelude::*;

use crate::data::ErrorResponse;
use crate::data::HealthResponse;
use crate::data::MemoryInfo;
use crate::data::PerformanceResponse;
use crate::data::Post;
use crate::data::ServerInfo;
use crate::data::User;
use crate::data::post_core_matches;
use crate::data::user_core_matches;
use crate::platform;
use crate::state::AppState;
use crate::strfmt::dec_str;
use crate::strfmt::format_uptime;
use crate::strfmt::u64_to_dec;
use crate::strfmt::uptime_str;

verus! {

/// The sum of the integers 0 through 99999, which the benchmark loop must
/// reproduce exactly.
pub const BENCHMARK_SUM: u64 = 4999950000;

/// How many integers the benchmark loop adds up.
pub const BENCHMARK_ITERATIONS: u64 = 100000;

/// The wraparound sum of the integers 0 through 99999. The true sum fits
/// in 64 bits, so no wrap ever occurs and the result is exactly
/// `BENCHMARK_SUM`, on every call.
pub fn benchmark_result() -> (r: u64)
    ensures
        r == BENCHMARK_SUM,
{
    let mut result: u64 = 0;
    let mut i: u64 = 0;
    while i < BENCHMARK_ITERATIONS
        invariant
            i <= BENCHMARK_ITERATIONS,
            2 * (result as int) == (i as int) * (i as int - 1),
            result <= BENCHMARK_SUM,
        decreases BENCHMARK_ITERATIONS - i,
    {
        proof {
            let gi = i as int;
            let gr = result as int;
            assert((gi + 1) * gi <= 100000int * 99999int) by (nonlinear_arith)
                requires
                    0 <= gi <= 99999,
            ;
            assert(2 * (gr + gi) == (gi + 1) * gi) by (nonlinear_arith)
                requires
                    2 * gr == gi * (gi - 1),
            ;
        }
        result = result.wrapping_add(i);
        i += 1;
    }
    proof {
        assert(2 * (result as int) == 100000int * 99999int);
    }
    result
}

/// Index of the first (by the state invariant, only) post with the given
/// id, if any.
pub fn find_post_index(posts: &Vec<Post>, id: u32) -> (r: Option<usize>)
    ensures
        match r {
            Some(i) => i < posts@.len() && (#[trigger] posts@[i as int]).id == id && forall|j: int|
                0 <= j < i ==> (#[trigger] posts@[j]).id != id,
            None => forall|j: int| 0 <= j < posts@.len() ==> (#[trigger] posts@[j]).id != id,
        },
{
    let mut k: usize = 0;
    while k < posts.len()
        invariant
            k <= posts@.len(),
            forall|j: int| 0 <= j < k ==> (#[trigger] posts@[j]).id != id,
        decreases posts@.len() - k,
    {
        if posts[k].id == id {
            return Some(k);
        }
        k += 1;
    }
    None
}

/// Index of the first (by the state invariant, only) user with the given
/// id, if any.
pub fn find_user_index(users: &Vec<User>, id: u32) -> (r: Option<usize>)
    ensures
        match r {
            Some(i) => i < users@.len() && (#[trigger] users@[i as int]).id == id && forall|j: int|
                0 <= j < i ==> (#[trigger] users@[j]).id != id,
            None => forall|j: int| 0 <= j < users@.len() ==> (#[trigger] users@[j]).id != id,
        },
{
    let mut k: usize = 0;
    while k < users.len()
        invariant
            k <= users@.len(),
            forall|j: int| 0 <= j < k ==> (#[trigger] users@[j]).id != id,
        decreases users@.len() - k,
    {
        if users[k].id == id {
            return Some(k);
        }
        k += 1;
    }
    None
}

/// The given post with its embedded server metadata replaced by `info`.
pub fn render_post(p: &Post, info: ServerInfo) -> (r: Post)
    ensures
        post_core_matches(r, *p),
        r.server_info == info,
{
    Post {
        id: p.id,
        title: p.title.clone(),
        body: p.body.clone(),
        user_id: p.user_id,
        server_info: info,
    }
}

/// The given user with its embedded server metadata replaced by `info`.
pub fn render_user(u: &User, info: ServerInfo) -> (r: User)
    ensures
        user_core_matches(r, *u),
        r.server_info == info,
{
    User { id: u.id, name: u.name.clone(), email: u.email.clone(), server_info: info }
}

/// Lookup of a post by id with already-built server metadata: 200 with
/// the matching post exactly when some seeded post has the requested id,
/// 404 with "Post not found" otherwise.
pub fn get_post_with_info(state: &AppState, id: u32, info: ServerInfo) -> (r: Result<
    Post,
    ErrorResponse,
>)
    ensures
        (r is Ok) <==> exists|i: int|
            0 <= i < state.posts@.len() && (#[trigger] state.posts@[i]).id == id,
        r is Ok ==> r->Ok_0.id == id && r->Ok_0.server_info == info,
        r is Ok ==> exists|i: int|
            0 <= i < state.posts@.len() && (#[trigger] state.posts@[i]).id == id
                && post_core_matches(r->Ok_0, state.posts@[i]) && (forall|j: int|
                0 <= j < i ==> (#[trigger] state.posts@[j]).id != id),
        r is Err ==> r->Err_0.error@ == "Post not found"@ && r->Err_0.server_info == info,
{
    match find_post_index(&state.posts, id) {
        Some(i) => Ok(render_post(&state.posts[i], info)),
        None => Err(ErrorResponse { error: "Post not found".to_owned(), server_info: info }),
    }
}

/// Lookup of a user by id with already-built server metadata: 200 with
/// the matching user exactly when some seeded user has the requested id,
/// 404 with "User not found" otherwise.
pub fn get_user_with_info(state: &AppState, id: u32, info: ServerInfo) -> (r: Result<
    User,
    ErrorResponse,
>)
    ensures
        (r is Ok) <==> exists|i: int|
            0 <= i < state.users@.len() && (#[trigger] state.users@[i]).id == id,
        r is Ok ==> r->Ok_0.id == id && r->Ok_0.server_info == info,
        r is Ok ==> exists|i: int|
            0 <= i < state.users@.len() && (#[trigger] state.users@[i]).id == id
                && user_core_matches(r->Ok_0, state.users@[i]) && (forall|j: int|
                0 <= j < i ==> (#[trigger] state.users@[j]).id != id),
        r is Err ==> r->Err_0.error@ == "User not found"@ && r->Err_0.server_info == info,
{
    match find_user_index(&state.users, id) {
        Some(i) => Ok(render_user(&state.users[i], info)),
        None => Err(ErrorResponse { error: "User not found".to_owned(), server_info: info }),
    }
}

/// Handler for `GET /posts/{id}`: the metadata is stamped at the current
/// moment; the body is found if and only if the id is seeded.
pub fn get_post_handler(id: u32, state: &AppState) -> (r: Result<Post, ErrorResponse>)
    ensures
        (r is Ok) <==> exists|i: int|
            0 <= i < state.posts@.len() && (#[trigger] state.posts@[i]).id == id,
        r is Ok ==> r->Ok_0.id == id && r->Ok_0.server_info.fresh_for(
            state.server_name@,
            state.port@,
        ),
        r is Ok ==> exists|i: int|
            0 <= i < state.posts@.len() && (#[trigger] state.posts@[i]).id == id
                && post_core_matches(r->Ok_0, state.posts@[i]) && (forall|j: int|
                0 <= j < i ==> (#[trigger] state.posts@[j]).id != id),
        r is Err ==> r->Err_0.error@ == "Post not found"@ && r->Err_0.server_info.fresh_for(
            state.server_name@,
            state.port@,
        ),
{
    let info = state.create_server_info();
    get_post_with_info(state, id, info)
}

/// Handler for `GET /users/{id}`: the metadata is stamped at the current
/// moment; the body is found if and only if the id is seeded.
pub fn get_user_handler(id: u32, state: &AppState) -> (r: Result<User, ErrorResponse>)
    ensures
        (r is Ok) <==> exists|i: int|
            0 <= i < state.users@.len() && (#[trigger] state.users@[i]).id == id,
        r is Ok ==> r->Ok_0.id == id && r->Ok_0.server_info.fresh_for(
            state.server_name@,
            state.port@,
        ),
        r is Ok ==> exists|i: int|
            0 <= i < state.users@.len() && (#[trigger] state.users@[i]).id == id
                && user_core_matches(r->Ok_0, state.users@[i]) && (forall|j: int|
                0 <= j < i ==> (#[trigger] state.users@[j]).id != id),
        r is Err ==> r->Err_0.error@ == "User not found"@ && r->Err_0.server_info.fresh_for(
            state.server_name@,
            state.port@,
        ),
{
    let info = state.create_server_info();
    get_user_with_info(state, id, info)
}

/// Handler for `GET /posts`: every seeded post in seed order, each with
/// metadata stamped at the current moment.
pub fn get_posts_handler(state: &AppState) -> (r: Vec<Post>)
    ensures
        r@.len() == state.posts@.len(),
        forall|i: int| 0 <= i < r@.len() ==> post_core_matches(#[trigger] r@[i], state.posts@[i]),
        forall|i: int|
            0 <= i < r@.len() ==> (#[trigger] r@[i]).server_info.fresh_for(
                state.server_name@,
                state.port@,
            ),
{
    let mut out: Vec<Post> = Vec::new();
    let mut k: usize = 0;
    while k < state.posts.len()
        invariant
            k <= state.posts@.len(),
            out@.len() == k,
            forall|i: int| 0 <= i < k ==> post_core_matches(#[trigger] out@[i], state.posts@[i]),
            forall|i: int|
                0 <= i < k ==> (#[trigger] out@[i]).server_info.fresh_for(
                    state.server_name@,
                    state.port@,
                ),
        decreases state.posts@.len() - k,
    {
        let info = state.create_server_info();
        let p = render_post(&state.posts[k], info);
        out.push(p);
        k += 1;
    }
    out
}

/// Handler for `GET /users`: every seeded user in seed order, each with
/// metadata stamped at the current moment.
pub fn get_users_handler(state: &AppState) -> (r: Vec<User>)
    ensures
        r@.len() == state.users@.len(),
        forall|i: int| 0 <= i < r@.len() ==> user_core_matches(#[trigger] r@[i], state.users@[i]),
        forall|i: int|
            0 <= i < r@.len() ==> (#[trigger] r@[i]).server_info.fresh_for(
                state.server_name@,
                state.port@,
            ),
{
    let mut out: Vec<User> = Vec::new();
    let mut k: usize = 0;
    while k < state.users.len()
        invariant
            k <= state.users@.len(),
            out@.len() == k,
            forall|i: int| 0 <= i < k ==> user_core_matches(#[trigger] out@[i], state.users@[i]),
            forall|i: int|
                0 <= i < k ==> (#[trigger] out@[i]).server_info.fresh_for(
                    state.server_name@,
                    state.port@,
                ),
        decreases state.users@.len() - k,
    {
        let info = state.create_server_info();
        let u = render_user(&state.users[k], info);
        out.push(u);
        k += 1;
    }
    out
}

/// The health body built from already-sampled clock values and CPU count:
/// every field is pinned down.
pub fn build_health(server_name: &str, port: &str, timestamp: String, uptime_ms: u64, cpus: u32) -> (r:
    HealthResponse)
    ensures
        r.status@ == "healthy"@,
        r.language@ == "Rust"@,
        r.server@ == server_name@,
        r.port@ == port@,
        r.timestamp@ == timestamp@,
        r.uptime@ == uptime_str(uptime_ms as nat),
        r.memory.rss@ == "N/A"@,
        r.memory.threads == cpus,
        r.threads@ == "async tokio"@,
{
    HealthResponse {
        status: "healthy".to_owned(),
        language: "Rust".to_owned(),
        server: server_name.to_owned(),
        port: port.to_owned(),
        timestamp: timestamp,
        uptime: format_uptime(uptime_ms),
        memory: MemoryInfo { rss: "N/A".to_owned(), threads: cpus },
        threads: "async tokio".to_owned(),
    }
}

/// Handler for `GET /health`: always healthy, with the platform's CPU
/// count (at least 1) in the memory section and metadata stamped at the
/// current moment.
pub fn health_handler(state: &AppState) -> (r: HealthResponse)
    ensures
        r.status@ == "healthy"@,
        r.language@ == "Rust"@,
        r.server@ == state.server_name@,
        r.port@ == state.port@,
        r.memory.rss@ == "N/A"@,
        r.memory.threads >= 1,
        r.threads@ == "async tokio"@,
        exists|ms: nat| r.uptime@ == uptime_str(ms),
{
    let uptime_ms = platform::elapsed_millis(&state.start_time);
    let timestamp = platform::now_rfc3339();
    let cpus = platform::cpu_count();
    let r = build_health(state.server_name.as_str(), state.port.as_str(), timestamp, uptime_ms, cpus);
    proof {
        assert(r.uptime@ == uptime_str(uptime_ms as nat));
    }
    r
}

/// The thread-count description the performance body carries for a
/// machine with `c` logical CPUs.
pub open spec fn threads_desc(c: nat) -> Seq<char> {
    dec_str(c) + "x tokio worker threads"@
}

/// The performance body built from an already-computed sum and timing:
/// every field is pinned down.
pub fn build_performance(
    server_name: &str,
    timestamp: String,
    result: u64,
    processing_micros: u128,
    cpus: u32,
) -> (r: PerformanceResponse)
    ensures
        r.language@ == "Rust"@,
        r.server@ == server_name@,
        r.timestamp@ == timestamp@,
        r.result == result,
        r.processing_time == processing_micros,
        r.concurrency@ == "async/await tokio"@,
        r.threads@ == threads_desc(cpus as nat),
{
    let mut threads = u64_to_dec(cpus as u64);
    threads.append("x tokio worker threads");
    PerformanceResponse {
        language: "Rust".to_owned(),
        server: server_name.to_owned(),
        timestamp: timestamp,
        result: result,
        processing_time: processing_micros,
        concurrency: "async/await tokio".to_owned(),
        threads: threads,
    }
}

/// Handler for `GET /performance`: times the benchmark loop alone and
/// always reports the same `result`, the exact sum of 0 through 99999.
pub fn performance_handler(state: &AppState) -> (r: PerformanceResponse)
    ensures
        r.result == BENCHMARK_SUM,
        r.language@ == "Rust"@,
        r.server@ == state.server_name@,
        r.concurrency@ == "async/await tokio"@,
        exists|c: nat| c >= 1 && r.threads@ == threads_desc(c),
{
    let start = platform::instant_now();
    let result = benchmark_result();
    let processing_micros = platform::elapsed_micros(&start);
    let timestamp = platform::now_rfc3339();
    let cpus = platform::cpu_count();
    let r = build_performance(
        state.server_name.as_str(),
        timestamp,
        result,
        processing_micros,
        cpus,
    );
    proof {
        assert(cpus as nat >= 1 && r.threads@ == threads_desc(cpus as nat));
    }
    r
}

} // verus!
