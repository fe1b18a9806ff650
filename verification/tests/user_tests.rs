use reddit_auth::user::User;

#[test]
fn about_path_formats_name() {
    let u = User::new("spez");
    assert_eq!(u.about_path(), "/user/spez/about.json");
}

#[test]
fn comments_path_without_feed() {
    let u = User::new("spez");
    assert_eq!(u.comments_path(None), "/user/spez/comments.json");
}

#[test]
fn comments_path_with_feed_query() {
    let u = User::new("spez");
    assert_eq!(u.comments_path(Some("limit=10")), "/user/spez/comments.json?limit=10");
}

#[test]
fn submissions_path_with_feed_query() {
    let u = User::new("spez");
    assert_eq!(
        u.submissions_path(Some("after=t3_abc&limit=25")),
        "/user/spez/submitted.json?after=t3_abc&limit=25"
    );
}

#[test]
fn overview_and_saved_paths() {
    let u = User::new("spez");
    assert_eq!(u.overview_path(None), "/user/spez/overview.json");
    assert_eq!(u.saved_path(Some("limit=5")), "/user/spez/saved.json?limit=5");
}

#[test]
fn users_compare_by_name() {
    assert!(User::new("a") == User::new("a"));
    assert!(User::new("a") != User::new("b"));
}
