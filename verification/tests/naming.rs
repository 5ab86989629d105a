use api_macros::ts_name_from_method_and_path;

#[test]
fn ts_name_multi_segment() {
    assert_eq!(
        ts_name_from_method_and_path("GET", "users/profile"),
        "GetUsersProfile"
    );
}

#[test]
fn ts_name_single_segment() {
    assert_eq!(
        ts_name_from_method_and_path("DELETE", "users"),
        "DeleteUsers"
    );
}

#[test]
fn ts_name_path_param_braces_stripped() {
    assert_eq!(
        ts_name_from_method_and_path("DELETE", "user/webauthn/credentials/{id}"),
        "DeleteUserWebauthnCredentialsId"
    );
}

#[test]
fn ts_name_hyphenated_segments() {
    assert_eq!(
        ts_name_from_method_and_path("POST", "auth/reset-password/complete"),
        "PostAuthResetPasswordComplete"
    );
}

#[test]
fn ts_name_camel_case_segment() {
    // Existing camelCase segment is correctly PascalCased.
    assert_eq!(
        ts_name_from_method_and_path("GET", "users/recentItems"),
        "GetUsersRecentItems"
    );
}

#[test]
fn ts_name_method_lowercased_to_title() {
    // All-caps HTTP verbs become title-case words.
    assert_eq!(
        ts_name_from_method_and_path("PATCH", "user/info"),
        "PatchUserInfo"
    );
    assert_eq!(
        ts_name_from_method_and_path("PUT", "user/customViews"),
        "PutUserCustomViews"
    );
}

#[test]
fn ts_name_empty_segments_contribute_nothing() {
    assert_eq!(ts_name_from_method_and_path("GET", "items/"), "GetItems");
    assert_eq!(ts_name_from_method_and_path("GET", "/a//b"), "GetAB");
    assert_eq!(ts_name_from_method_and_path("GET", ""), "Get");
}

#[test]
fn ts_name_braces_only_stripped_at_ends() {
    assert_eq!(
        ts_name_from_method_and_path("GET", "{{userId}}/x{y}z"),
        "GetUserIdXYZ"
    );
}

#[test]
fn ts_name_segments_compose() {
    for (m, p1, p2) in [("GET", "users", "profile"), ("POST", "a/{id}", "x-y/z"), ("PUT", "", "q")] {
        let whole = ts_name_from_method_and_path(m, &format!("{p1}/{p2}"));
        let parts = ts_name_from_method_and_path(m, p1) + &ts_name_from_method_and_path("", p2);
        assert_eq!(whole, parts);
    }
    assert_eq!(ts_name_from_method_and_path("", "users/profile"), "UsersProfile");
}

#[test]
fn ts_name_braces_around_segments_do_not_matter() {
    assert_eq!(
        ts_name_from_method_and_path("GET", "a/{id}/{{b}}"),
        ts_name_from_method_and_path("GET", "a/id/b")
    );
}

#[test]
fn ts_name_keeps_no_separators() {
    let name = ts_name_from_method_and_path("get", "user-info/{id}//a_b/{x-y}/c.d e");
    assert_eq!(name, "GetUserInfoIdABXYCDE");
    for c in ['/', '-', '{', '}', '_', '.', ' '] {
        assert!(!name.contains(c));
    }
}
