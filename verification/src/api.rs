use vstd::prelude::*;

use crate::config::NotifierConfig;

verus! {

/// A topic as the forum reports it.
#[derive(Clone, Debug)]
pub struct TopicData {
    pub archetype: String,
    pub details: Details,
}

#[derive(Clone, Debug)]
pub struct Details {
    pub allowed_users: Vec<User>,
}

#[derive(Clone, Debug)]
pub struct User {
    pub id: String,
}

/// The forum API client's fixed endpoints. The HTTP calls themselves are
/// transport and live with the caller; this type only fixes where they go.
#[derive(Clone, Debug)]
pub struct Api {
    pub config: NotifierConfig,
    pub active_user_endpoint: String,
    pub topic_endpoint: String,
    pub posts_endpoint: String,
}

impl Api {
    pub fn new(config: NotifierConfig) -> (api: Api)
        ensures
            api.config == config,
            api.active_user_endpoint@ == "/admin/users/list/active.json?filter={}"@,
            api.topic_endpoint@ == "/t/{}.json"@,
            api.posts_endpoint@ == "posts.json"@,
    {
        Api {
            config,
            active_user_endpoint: String::from_str("/admin/users/list/active.json?filter={}"),
            topic_endpoint: String::from_str("/t/{}.json"),
            posts_endpoint: String::from_str("posts.json"),
        }
    }
}

} // verus!
