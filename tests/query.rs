use dino_park_fence::display::{parse_scope, str_equal, DisplayLevel};
use dino_park_fence::query::{choose_display, LookupKey, Query, ScopeAndUser, ViewWarning};

fn caller(scope: &str) -> ScopeAndUser {
    ScopeAndUser { user_id: "ad|Mozilla-LDAP|me".to_string(), scope: scope.to_string() }
}

#[test]
fn scope_names_parse_to_levels() {
    assert_eq!(parse_scope("public"), Some(DisplayLevel::Public));
    assert_eq!(parse_scope("authenticated"), Some(DisplayLevel::Authenticated));
    assert_eq!(parse_scope("vouched"), Some(DisplayLevel::Vouched));
    assert_eq!(parse_scope("ndaed"), Some(DisplayLevel::Ndaed));
    assert_eq!(parse_scope("staff"), Some(DisplayLevel::Staff));
    assert_eq!(parse_scope("private"), Some(DisplayLevel::Private));
    assert_eq!(parse_scope("Staff"), None);
    assert_eq!(parse_scope(""), None);
    assert_eq!(parse_scope("staffer"), None);
}

#[test]
fn levels_are_ordered_and_named() {
    assert!(DisplayLevel::Public.at_most(&DisplayLevel::Private));
    assert!(DisplayLevel::Staff.at_most(&DisplayLevel::Staff));
    assert!(!DisplayLevel::Staff.at_most(&DisplayLevel::Ndaed));
    assert!(DisplayLevel::Vouched.at_most(&DisplayLevel::Ndaed));
    assert_eq!(DisplayLevel::Ndaed.as_str(), "ndaed");
    assert_eq!(DisplayLevel::Authenticated.as_str(), "authenticated");
}

#[test]
fn string_equality_compares_characters() {
    assert!(str_equal("abc", "abc"));
    assert!(!str_equal("abc", "abd"));
    assert!(!str_equal("abc", "ab"));
    assert!(str_equal("", ""));
}

#[test]
fn self_view_reads_own_profile_at_private() {
    let r = Query.profile(&caller("staff"), None, None);
    assert_eq!(r.id, "ad|Mozilla-LDAP|me");
    assert_eq!(r.by, LookupKey::UserId);
    assert_eq!(r.filter, DisplayLevel::Private);
    assert_eq!(r.filter.as_str(), "private");
    assert_eq!(r.warning, None);
}

#[test]
fn view_above_scope_is_downgraded_to_public() {
    let r = Query.profile(
        &caller("public"),
        Some("alice".to_string()),
        Some(DisplayLevel::Authenticated),
    );
    assert_eq!(r.id, "alice");
    assert_eq!(r.by, LookupKey::PrimaryUsername);
    assert_eq!(r.filter, DisplayLevel::Public);
    assert_eq!(r.warning, Some(ViewWarning::DisplayAboveScope(DisplayLevel::Authenticated)));
}

#[test]
fn view_within_scope_is_kept() {
    let r = Query.profile(&caller("staff"), Some("bob".to_string()), Some(DisplayLevel::Vouched));
    assert_eq!(r.filter, DisplayLevel::Vouched);
    assert_eq!(r.warning, None);
    let r = Query.profile(&caller("staff"), None, Some(DisplayLevel::Staff));
    assert_eq!(r.filter, DisplayLevel::Staff);
    assert_eq!(r.by, LookupKey::UserId);
}

#[test]
fn other_user_without_view_uses_scope() {
    let r = Query.profile(&caller("ndaed"), Some("carol".to_string()), None);
    assert_eq!(r.filter, DisplayLevel::Ndaed);
    assert_eq!(r.by, LookupKey::PrimaryUsername);
    assert_eq!(r.warning, None);
}

#[test]
fn unreadable_scope_falls_back_to_public() {
    let r = Query.profile(&caller("admin"), None, None);
    assert_eq!(r.filter, DisplayLevel::Public);
    assert_eq!(r.warning, Some(ViewWarning::InvalidScope));
    let r = Query.profile(&caller("admin"), Some("dave".to_string()), Some(DisplayLevel::Public));
    assert_eq!(r.filter, DisplayLevel::Public);
    assert_eq!(r.warning, Some(ViewWarning::InvalidScope));
}

#[test]
fn filter_never_exceeds_scope_when_viewing() {
    let levels = [
        DisplayLevel::Public,
        DisplayLevel::Authenticated,
        DisplayLevel::Vouched,
        DisplayLevel::Ndaed,
        DisplayLevel::Staff,
        DisplayLevel::Private,
    ];
    for s in levels {
        for v in levels {
            for named in [false, true] {
                let (filter, _) = choose_display(Some(s), named, Some(v));
                assert!(filter.at_most(&s));
                if !v.at_most(&s) {
                    assert_eq!(filter, DisplayLevel::Public);
                }
            }
        }
    }
}
