//! The immutable per-process state: instance name, port, start time, and
//! the seeded post and user collections, built once and never mutated.

use vstd::prelude::*;

use crate::data::Post;
use crate::data::ServerInfo;
use crate::data::User;
use crate::platform;

verus! {

/// Read-only state shared by every request handler.
pub struct AppState {
    pub server_name: String,
    pub port: String,
    pub start_time: std::time::Instant,
    pub posts: Vec<Post>,
    pub users: Vec<User>,
}

impl AppState {
    /// Ids are unique within each collection, so a lookup by id has at
    /// most one match.
    pub open spec fn wf(self) -> bool {
        &&& forall|i: int, j: int|
            0 <= i < j < self.posts@.len() ==> (#[trigger] self.posts@[i]).id != (
            #[trigger] self.posts@[j]).id
        &&& forall|i: int, j: int|
            0 <= i < j < self.users@.len() ==> (#[trigger] self.users@[i]).id != (
            #[trigger] self.users@[j]).id
    }

    /// Builds the fixed seed data for the named instance and records the
    /// start time for later uptime readings.
    pub fn new(server_name: String, port: String) -> (r: AppState)
        ensures
            r.wf(),
            r.server_name@ == server_name@,
            r.port@ == port@,
            r.posts@.len() == 3,
            r.posts@[0].id == 1 && r.posts@[0].title@ == "Post 1"@ && r.posts@[0].body@
                == "This is post 1"@ && r.posts@[0].user_id == 1,
            r.posts@[1].id == 2 && r.posts@[1].title@ == "Post 2"@ && r.posts@[1].body@
                == "This is post 2"@ && r.posts@[1].user_id == 1,
            r.posts@[2].id == 3 && r.posts@[2].title@ == "Post 3"@ && r.posts@[2].body@
                == "This is post 3"@ && r.posts@[2].user_id == 2,
            r.users@.len() == 2,
            r.users@[0].id == 1 && r.users@[0].name@ == "John Doe"@ && r.users@[0].email@
                == "john@example.com"@,
            r.users@[1].id == 2 && r.users@[1].name@ == "Jane Smith"@ && r.users@[1].email@
                == "jane@example.com"@,
    {
        let start_time = platform::instant_now();

        let mut posts: Vec<Post> = Vec::new();
        posts.push(
            Post {
                id: 1,
                title: "Post 1".to_owned(),
                body: "This is post 1".to_owned(),
                user_id: 1,
                server_info: ServerInfo::new(server_name.as_str(), port.as_str(), &start_time),
            },
        );
        posts.push(
            Post {
                id: 2,
                title: "Post 2".to_owned(),
                body: "This is post 2".to_owned(),
                user_id: 1,
                server_info: ServerInfo::new(server_name.as_str(), port.as_str(), &start_time),
            },
        );
        posts.push(
            Post {
                id: 3,
                title: "Post 3".to_owned(),
                body: "This is post 3".to_owned(),
                user_id: 2,
                server_info: ServerInfo::new(server_name.as_str(), port.as_str(), &start_time),
            },
        );

        let mut users: Vec<User> = Vec::new();
        users.push(
            User {
                id: 1,
                name: "John Doe".to_owned(),
                email: "john@example.com".to_owned(),
                server_info: ServerInfo::new(server_name.as_str(), port.as_str(), &start_time),
            },
        );
        users.push(
            User {
                id: 2,
                name: "Jane Smith".to_owned(),
                email: "jane@example.com".to_owned(),
                server_info: ServerInfo::new(server_name.as_str(), port.as_str(), &start_time),
            },
        );

        AppState { server_name, port, start_time, posts, users }
    }

    /// Fresh server metadata for this instance, stamped at the current
    /// moment.
    pub fn create_server_info(&self) -> (r: ServerInfo)
        ensures
            r.fresh_for(self.server_name@, self.port@),
    {
        ServerInfo::new(self.server_name.as_str(), self.port.as_str(), &self.start_time)
    }
}

} // verus!
