//! The user resource: path construction for the per-user endpoints.
//!
//! The accessors themselves are thin GET-and-decode wrappers around these
//! paths; building the path (and appending an optional feed query) is the
//! only logic they contain.

use vstd::prelude::*;

verus! {

use vstd::string::StringExecFns;

/// A named user of the platform.
pub struct User {
    /// The user's name, as it appears in the URL path.
    pub name: String,
}

/// The path of a user endpoint: `/user/<name><suffix>`, with `?<query>`
/// appended when a feed query is given.
pub open spec fn user_path(name: Seq<char>, suffix: Seq<char>, feed: Option<Seq<char>>) -> Seq<
    char,
> {
    match feed {
        Option::None => "/user/"@ + name + suffix,
        Option::Some(q) => "/user/"@ + name + suffix + "?"@ + q,
    }
}

/// The view of an optional query string.
pub open spec fn opt_view(feed: Option<&str>) -> Option<Seq<char>> {
    match feed {
        Option::None => Option::None,
        Option::Some(q) => Option::Some(q@),
    }
}

impl User {
    /// Creates a handle on the user with the given name.
    pub fn new(name: &str) -> (r: User)
        ensures
            r.name@ == name@,
    {
        User { name: name.to_owned() }
    }

    /// `/user/<name><suffix>[?<query>]`.
    fn build_path(&self, suffix: &str, feed: Option<&str>) -> (r: String)
        ensures
            r@ == user_path(self.name@, suffix@, opt_view(feed)),
    {
        let mut s = "/user/".to_owned();
        s.append(self.name.as_str());
        s.append(suffix);
        match feed {
            Option::None => s,
            Option::Some(q) => {
                s.append("?");
                s.append(q);
                s
            },
        }
    }

    /// Path of the about endpoint, which serves the user's profile data.
    pub fn about_path(&self) -> (r: String)
        ensures
            r@ == user_path(self.name@, "/about.json"@, Option::None),
    {
        self.build_path("/about.json", Option::None)
    }

    /// Path of the user's comment listing.
    pub fn comments_path(&self, feed: Option<&str>) -> (r: String)
        ensures
            r@ == user_path(self.name@, "/comments.json"@, opt_view(feed)),
    {
        self.build_path("/comments.json", feed)
    }

    /// Path of the user's submission listing.
    pub fn submissions_path(&self, feed: Option<&str>) -> (r: String)
        ensures
            r@ == user_path(self.name@, "/submitted.json"@, opt_view(feed)),
    {
        self.build_path("/submitted.json", feed)
    }

    /// Path of the user's overview listing.
    pub fn overview_path(&self, feed: Option<&str>) -> (r: String)
        ensures
            r@ == user_path(self.name@, "/overview.json"@, opt_view(feed)),
    {
        self.build_path("/overview.json", feed)
    }

    /// Path of the user's saved listing; the session must be logged in for
    /// the endpoint to answer.
    pub fn saved_path(&self, feed: Option<&str>) -> (r: String)
        ensures
            r@ == user_path(self.name@, "/saved.json"@, opt_view(feed)),
    {
        self.build_path("/saved.json", feed)
    }
}

impl PartialEq for User {
    /// Two user handles are the same user exactly when their names agree.
    fn eq(&self, other: &User) -> (r: bool) {
        self.name == other.name
    }
}

impl vstd::std_specs::cmp::PartialEqSpecImpl for User {
    open spec fn obeys_eq_spec() -> bool {
        true
    }

    open spec fn eq_spec(&self, other: &User) -> bool {
        self.name@ == other.name@
    }
}

} // verus!
