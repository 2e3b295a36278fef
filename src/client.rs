//! One request per operation of the service: its verb, its path under the
//! entry point, its query string and its body.

use vstd::prelude::*;
use vstd::string::StringExecFns;
use crate::model::{Item, User};
use crate::query::{CursorQuery, OffsetQuery, UserIdQuery, WriteBackQuery};
use crate::request::{append_query, with_query, ClientConfig, Method, Request};
use crate::text::join_pairs;

verus! {

impl ClientConfig {
    /// Creates or replaces a user; `body` is the user as JSON.
    pub fn insert_user(&self, body: String) -> (r: Request)
        ensures
            r.describes(Method::Post, self.entry() + "api/user"@, Some(body@), self.key()),
    {
        self.request(Method::Post, self.url("api/user"), Some(body))
    }

    /// Fetches a user.
    pub fn get_user(&self, user_id: &str) -> (r: Request)
        ensures
            r.describes(Method::Get, self.entry() + "api/user/"@ + user_id@, None, self.key()),
    {
        let mut url = self.url("api/user/");
        url.append(user_id);
        self.request(Method::Get, url, None)
    }

    /// Removes a user.
    pub fn delete_user(&self, user_id: &str) -> (r: Request)
        ensures
            r.describes(Method::Delete, self.entry() + "api/user/"@ + user_id@, None, self.key()),
    {
        let mut url = self.url("api/user/");
        url.append(user_id);
        self.request(Method::Delete, url, None)
    }

    /// Updates `user`; `body` is the user as JSON.
    pub fn update_user(&self, user: &User, body: String) -> (r: Request)
        ensures
            r.describes(
                Method::Patch,
                self.entry() + "api/user/"@ + user.user_id@,
                Some(body@),
                self.key(),
            ),
    {
        let mut url = self.url("api/user/");
        url.append(user.user_id.as_str());
        self.request(Method::Patch, url, Some(body))
    }

    /// Lists users, a page at a time.
    pub fn list_users(&self, query: &CursorQuery) -> (r: Request)
        ensures
            r.describes(
                Method::Get,
                with_query(self.entry() + "api/users"@, join_pairs(query.pairs())),
                None,
                self.key(),
            ),
    {
        let url = append_query(self.url("api/users"), query.to_query_string());
        self.request(Method::Get, url, None)
    }

    /// Creates or replaces users; `body` is the list of users as JSON.
    pub fn insert_users(&self, body: String) -> (r: Request)
        ensures
            r.describes(Method::Post, self.entry() + "api/users"@, Some(body@), self.key()),
    {
        self.request(Method::Post, self.url("api/users"), Some(body))
    }

    /// Creates or replaces an item; `body` is the item as JSON.
    pub fn insert_item(&self, body: String) -> (r: Request)
        ensures
            r.describes(Method::Post, self.entry() + "api/item"@, Some(body@), self.key()),
    {
        self.request(Method::Post, self.url("api/item"), Some(body))
    }

    /// Fetches an item.
    pub fn get_item(&self, item_id: &str) -> (r: Request)
        ensures
            r.describes(Method::Get, self.entry() + "api/item/"@ + item_id@, None, self.key()),
    {
        let mut url = self.url("api/item/");
        url.append(item_id);
        self.request(Method::Get, url, None)
    }

    /// Removes an item.
    pub fn delete_item(&self, item_id: &str) -> (r: Request)
        ensures
            r.describes(Method::Delete, self.entry() + "api/item/"@ + item_id@, None, self.key()),
    {
        let mut url = self.url("api/item/");
        url.append(item_id);
        self.request(Method::Delete, url, None)
    }

    /// Updates `item`; `body` is the item as JSON.
    pub fn update_item(&self, item: &Item, body: String) -> (r: Request)
        ensures
            r.describes(
                Method::Patch,
                self.entry() + "api/item/"@ + item.item_id@,
                Some(body@),
                self.key(),
            ),
    {
        let mut url = self.url("api/item/");
        url.append(item.item_id.as_str());
        self.request(Method::Patch, url, Some(body))
    }

    /// Adds an item to a category.
    pub fn add_item_to_category(&self, item_id: &str, category: &str) -> (r: Request)
        ensures
            r.describes(
                Method::Put,
                self.entry() + "api/item/"@ + item_id@ + "/category/"@ + category@,
                None,
                self.key(),
            ),
    {
        let mut url = self.url("api/item/");
        url.append(item_id);
        url.append("/category/");
        url.append(category);
        self.request(Method::Put, url, None)
    }

    /// Takes an item out of a category.
    pub fn delete_item_to_category(&self, item_id: &str, category: &str) -> (r: Request)
        ensures
            r.describes(
                Method::Delete,
                self.entry() + "api/item/"@ + item_id@ + "/category/"@ + category@,
                None,
                self.key(),
            ),
    {
        let mut url = self.url("api/item/");
        url.append(item_id);
        url.append("/category/");
        url.append(category);
        self.request(Method::Delete, url, None)
    }

    /// Lists items, a page at a time.
    pub fn list_items(&self, query: &CursorQuery) -> (r: Request)
        ensures
            r.describes(
                Method::Get,
                with_query(self.entry() + "api/items"@, join_pairs(query.pairs())),
                None,
                self.key(),
            ),
    {
        let url = append_query(self.url("api/items"), query.to_query_string());
        self.request(Method::Get, url, None)
    }

    /// Creates or replaces items; `body` is the list of items as JSON.
    pub fn insert_items(&self, body: String) -> (r: Request)
        ensures
            r.describes(Method::Post, self.entry() + "api/items"@, Some(body@), self.key()),
    {
        self.request(Method::Post, self.url("api/items"), Some(body))
    }

    /// Lists feedback, a page at a time.
    pub fn list_feedback(&self, query: &CursorQuery) -> (r: Request)
        ensures
            r.describes(
                Method::Get,
                with_query(self.entry() + "api/feedback"@, join_pairs(query.pairs())),
                None,
                self.key(),
            ),
    {
        let url = append_query(self.url("api/feedback"), query.to_query_string());
        self.request(Method::Get, url, None)
    }

    /// Writes feedback over what is stored; `body` is the list of feedback as JSON.
    pub fn overwrite_feedback(&self, body: String) -> (r: Request)
        ensures
            r.describes(Method::Put, self.entry() + "api/feedback"@, Some(body@), self.key()),
    {
        self.request(Method::Put, self.url("api/feedback"), Some(body))
    }

    /// Adds feedback, keeping what is stored; `body` is the list of feedback as JSON.
    pub fn insert_feedback(&self, body: String) -> (r: Request)
        ensures
            r.describes(Method::Post, self.entry() + "api/feedback"@, Some(body@), self.key()),
    {
        self.request(Method::Post, self.url("api/feedback"), Some(body))
    }

    /// Lists feedback of one type, a page at a time.
    pub fn list_feedback_by_type(&self, feedback_type: &str, query: &CursorQuery) -> (r: Request)
        ensures
            r.describes(
                Method::Get,
                with_query(
                    self.entry() + "api/feedback/"@ + feedback_type@,
                    join_pairs(query.pairs()),
                ),
                None,
                self.key(),
            ),
    {
        let mut url = self.url("api/feedback/");
        url.append(feedback_type);
        let url = append_query(url, query.to_query_string());
        self.request(Method::Get, url, None)
    }

    /// Fetches the feedback of one type from a user on an item.
    pub fn get_feedback(&self, feedback_type: &str, user_id: &str, item_id: &str) -> (r: Request)
        ensures
            r.describes(
                Method::Get,
                self.entry() + "api/feedback/"@ + feedback_type@ + "/"@ + user_id@ + "/"@
                    + item_id@,
                None,
                self.key(),
            ),
    {
        let mut url = self.url("api/feedback/");
        url.append(feedback_type);
        url.append("/");
        url.append(user_id);
        url.append("/");
        url.append(item_id);
        self.request(Method::Get, url, None)
    }

    /// Removes the feedback of one type from a user on an item.
    pub fn delete_feedback(&self, feedback_type: &str, user_id: &str, item_id: &str) -> (r: Request)
        ensures
            r.describes(
                Method::Delete,
                self.entry() + "api/feedback/"@ + feedback_type@ + "/"@ + user_id@ + "/"@
                    + item_id@,
                None,
                self.key(),
            ),
    {
        let mut url = self.url("api/feedback/");
        url.append(feedback_type);
        url.append("/");
        url.append(user_id);
        url.append("/");
        url.append(item_id);
        self.request(Method::Delete, url, None)
    }

    /// Lists the feedback of every type from a user on an item.
    pub fn list_feedback_from_user_by_item(&self, user_id: &str, item_id: &str) -> (r: Request)
        ensures
            r.describes(
                Method::Get,
                self.entry() + "api/feedback/"@ + user_id@ + "/"@ + item_id@,
                None,
                self.key(),
            ),
    {
        let mut url = self.url("api/feedback/");
        url.append(user_id);
        url.append("/");
        url.append(item_id);
        self.request(Method::Get, url, None)
    }

    /// Removes the feedback of every type from a user on an item.
    pub fn delete_feedback_from_user_by_item(&self, user_id: &str, item_id: &str) -> (r: Request)
        ensures
            r.describes(
                Method::Delete,
                self.entry() + "api/feedback/"@ + user_id@ + "/"@ + item_id@,
                None,
                self.key(),
            ),
    {
        let mut url = self.url("api/feedback/");
        url.append(user_id);
        url.append("/");
        url.append(item_id);
        self.request(Method::Delete, url, None)
    }

    /// Lists the feedback on an item.
    pub fn list_feedback_by_item(&self, item_id: &str) -> (r: Request)
        ensures
            r.describes(
                Method::Get,
                self.entry() + "api/item/"@ + item_id@ + "/feedback"@,
                None,
                self.key(),
            ),
    {
        let mut url = self.url("api/item/");
        url.append(item_id);
        url.append("/feedback");
        self.request(Method::Get, url, None)
    }

    /// Lists the feedback of one type on an item.
    pub fn list_feedback_by_item_and_type(&self, item_id: &str, feedback_type: &str) -> (r: Request)
        ensures
            r.describes(
                Method::Get,
                self.entry() + "api/item/"@ + item_id@ + "/feedback/"@ + feedback_type@,
                None,
                self.key(),
            ),
    {
        let mut url = self.url("api/item/");
        url.append(item_id);
        url.append("/feedback/");
        url.append(feedback_type);
        self.request(Method::Get, url, None)
    }

    /// Lists the feedback from a user.
    pub fn list_feedback_from_user(&self, user_id: &str) -> (r: Request)
        ensures
            r.describes(
                Method::Get,
                self.entry() + "api/user/"@ + user_id@ + "/feedback"@,
                None,
                self.key(),
            ),
    {
        let mut url = self.url("api/user/");
        url.append(user_id);
        url.append("/feedback");
        self.request(Method::Get, url, None)
    }

    /// Lists the feedback of one type from a user.
    pub fn list_feedback_from_user_by_type(
        &self,
        user_id: &str,
        feedback_type: &str,
    ) -> (r: Request)
        ensures
            r.describes(
                Method::Get,
                self.entry() + "api/user/"@ + user_id@ + "/feedback/"@ + feedback_type@,
                None,
                self.key(),
            ),
    {
        let mut url = self.url("api/user/");
        url.append(user_id);
        url.append("/feedback/");
        url.append(feedback_type);
        self.request(Method::Get, url, None)
    }

    /// Fetches the items most like an item, best first.
    pub fn get_item_neighbors(&self, item_id: &str, query: &OffsetQuery) -> (r: Request)
        ensures
            r.describes(
                Method::Get,
                with_query(
                    self.entry() + "api/item/"@ + item_id@ + "/neighbors"@,
                    join_pairs(query.pairs()),
                ),
                None,
                self.key(),
            ),
    {
        let mut url = self.url("api/item/");
        url.append(item_id);
        url.append("/neighbors");
        let url = append_query(url, query.to_query_string());
        self.request(Method::Get, url, None)
    }

    /// Fetches the items of a category most like an item, best first.
    pub fn get_item_neighbors_by_category(
        &self,
        item_id: &str,
        category: &str,
        query: &OffsetQuery,
    ) -> (r: Request)
        ensures
            r.describes(
                Method::Get,
                with_query(
                    self.entry() + "api/item/"@ + item_id@ + "/neighbors/"@ + category@,
                    join_pairs(query.pairs()),
                ),
                None,
                self.key(),
            ),
    {
        let mut url = self.url("api/item/");
        url.append(item_id);
        url.append("/neighbors/");
        url.append(category);
        let url = append_query(url, query.to_query_string());
        self.request(Method::Get, url, None)
    }

    /// Fetches the latest items.
    pub fn get_latest(&self, query: &UserIdQuery) -> (r: Request)
        ensures
            r.describes(
                Method::Get,
                with_query(self.entry() + "api/latest"@, join_pairs(query.pairs())),
                None,
                self.key(),
            ),
    {
        let url = append_query(self.url("api/latest"), query.to_query_string());
        self.request(Method::Get, url, None)
    }

    /// Fetches the latest items of a category.
    pub fn get_latest_by_category(&self, category: &str, query: &UserIdQuery) -> (r: Request)
        ensures
            r.describes(
                Method::Get,
                with_query(self.entry() + "api/latest/"@ + category@, join_pairs(query.pairs())),
                None,
                self.key(),
            ),
    {
        let mut url = self.url("api/latest/");
        url.append(category);
        let url = append_query(url, query.to_query_string());
        self.request(Method::Get, url, None)
    }

    /// Fetches the most popular items.
    pub fn get_popular(&self, query: &UserIdQuery) -> (r: Request)
        ensures
            r.describes(
                Method::Get,
                with_query(self.entry() + "api/popular"@, join_pairs(query.pairs())),
                None,
                self.key(),
            ),
    {
        let url = append_query(self.url("api/popular"), query.to_query_string());
        self.request(Method::Get, url, None)
    }

    /// Fetches the most popular items of a category.
    pub fn get_popular_by_category(&self, category: &str, query: &UserIdQuery) -> (r: Request)
        ensures
            r.describes(
                Method::Get,
                with_query(self.entry() + "api/popular/"@ + category@, join_pairs(query.pairs())),
                None,
                self.key(),
            ),
    {
        let mut url = self.url("api/popular/");
        url.append(category);
        let url = append_query(url, query.to_query_string());
        self.request(Method::Get, url, None)
    }

    /// Fetches the items recommended to a user.
    pub fn get_recommend(&self, user_id: &str, query: &WriteBackQuery) -> (r: Request)
        ensures
            r.describes(
                Method::Get,
                with_query(self.entry() + "api/recommend/"@ + user_id@, join_pairs(query.pairs())),
                None,
                self.key(),
            ),
    {
        let mut url = self.url("api/recommend/");
        url.append(user_id);
        let url = append_query(url, query.to_query_string());
        self.request(Method::Get, url, None)
    }

    /// Fetches the users most like a user, best first.
    pub fn get_user_neighbors(&self, user_id: &str, query: &OffsetQuery) -> (r: Request)
        ensures
            r.describes(
                Method::Get,
                with_query(
                    self.entry() + "api/user/"@ + user_id@ + "/neighbors"@,
                    join_pairs(query.pairs()),
                ),
                None,
                self.key(),
            ),
    {
        let mut url = self.url("api/user/");
        url.append(user_id);
        url.append("/neighbors");
        let url = append_query(url, query.to_query_string());
        self.request(Method::Get, url, None)
    }

    /// Asks whether the service is up.
    pub fn is_live(&self) -> (r: Request)
        ensures
            r.describes(Method::Get, self.entry() + "api/health/live"@, None, self.key()),
    {
        self.request(Method::Get, self.url("api/health/live"), None)
    }

    /// Asks whether the service is ready to serve.
    pub fn is_ready(&self) -> (r: Request)
        ensures
            r.describes(Method::Get, self.entry() + "api/health/ready"@, None, self.key()),
    {
        self.request(Method::Get, self.url("api/health/ready"), None)
    }
}

} // verus!
