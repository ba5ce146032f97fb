use vstd::prelude::*;
use crate::display::{DisplayLevel, level_named, parse_scope};

verus! {

/// The authenticated context of a request: who calls, and under which scope.
#[derive(Clone, Debug)]
pub struct ScopeAndUser {
    pub user_id: String,
    pub scope: String,
}

/// How the profile store is to find a profile.
#[derive(Clone, Copy, Debug, PartialEq, Eq, Structural)]
pub enum LookupKey {
    UserId,
    PrimaryUsername,
}

/// Why the view that a request asked for was narrowed to `Public`.
#[derive(Clone, Copy, Debug, PartialEq, Eq, Structural)]
pub enum ViewWarning {
    /// The caller's scope names no display level.
    InvalidScope,
    /// The requested level lies above the caller's scope.
    DisplayAboveScope(DisplayLevel),
}

/// A profile read, ready to be handed to the profile store.
#[derive(Debug)]
pub struct ProfileRequest {
    pub id: String,
    pub by: LookupKey,
    pub filter: DisplayLevel,
    pub warning: Option<ViewWarning>,
}

/// The level that a scope grants: the level it names, `Public` where it names none.
pub open spec fn scope_display(scope: Seq<char>) -> DisplayLevel {
    match level_named(scope) {
        Some(level) => level,
        None => DisplayLevel::Public,
    }
}

/// The filter under which a profile is read, given the level parsed from the
/// caller's scope, whether another user was named, and the requested view.
pub open spec fn effective_display(
    scope: Option<DisplayLevel>,
    has_username: bool,
    view_as: Option<DisplayLevel>,
) -> DisplayLevel {
    match scope {
        None => DisplayLevel::Public,
        Some(s) => match view_as {
            Some(v) => if v.rank() <= s.rank() {
                v
            } else {
                DisplayLevel::Public
            },
            None => if has_username {
                s
            } else {
                DisplayLevel::Private
            },
        },
    }
}

/// The warning that goes with the filter of `effective_display`, if any.
pub open spec fn view_warning(
    scope: Option<DisplayLevel>,
    view_as: Option<DisplayLevel>,
) -> Option<ViewWarning> {
    match scope {
        None => Some(ViewWarning::InvalidScope),
        Some(s) => match view_as {
            Some(v) => if v.rank() <= s.rank() {
                None
            } else {
                Some(ViewWarning::DisplayAboveScope(v))
            },
            None => None,
        },
    }
}

/// Chooses the filter for a profile read.
pub fn choose_display(
    scope: Option<DisplayLevel>,
    has_username: bool,
    view_as: Option<DisplayLevel>,
) -> (r: (DisplayLevel, Option<ViewWarning>))
    ensures
        r.0 == effective_display(scope, has_username, view_as),
        r.1 == view_warning(scope, view_as),
{
    match scope {
        None => (DisplayLevel::Public, Some(ViewWarning::InvalidScope)),
        Some(s) => match view_as {
            Some(v) => if v.at_most(&s) {
                (v, None)
            } else {
                (DisplayLevel::Public, Some(ViewWarning::DisplayAboveScope(v)))
            },
            None => if has_username {
                (s, None)
            } else {
                (DisplayLevel::Private, None)
            },
        },
    }
}

/// Resolver of profile reads.
pub struct Query;

impl Query {
    /// Plans the read of a profile: the named user's profile looked up by
    /// primary username, or else the caller's own looked up by user id, under
    /// the filter that the caller's scope allows.
    pub fn profile(
        &self,
        context: &ScopeAndUser,
        username: Option<String>,
        view_as: Option<DisplayLevel>,
    ) -> (r: ProfileRequest)
        ensures
            r.filter == effective_display(level_named(context.scope@), username is Some, view_as),
            r.warning == view_warning(level_named(context.scope@), view_as),
            match username {
                Some(name) => r.id@ == name@ && r.by == LookupKey::PrimaryUsername,
                None => r.id@ == context.user_id@ && r.by == LookupKey::UserId,
            },
    {
        let scope = parse_scope(context.scope.as_str());
        let (filter, warning) = choose_display(scope, username.is_some(), view_as);
        match username {
            Some(name) => ProfileRequest { id: name, by: LookupKey::PrimaryUsername, filter, warning },
            None => ProfileRequest {
                id: context.user_id.clone(),
                by: LookupKey::UserId,
                filter,
                warning,
            },
        }
    }
}

/// A requested view is never widened past the caller's scope: wherever a view
/// is requested or another user is named, the filter is at most the level that
/// the scope grants, and a requested view above that level becomes `Public`.
pub proof fn lemma_filter_bounded_by_scope(
    scope: Seq<char>,
    has_username: bool,
    view_as: Option<DisplayLevel>,
)
    ensures
        view_as is Some || has_username ==> effective_display(
            level_named(scope),
            has_username,
            view_as,
        ).rank() <= scope_display(scope).rank(),
        view_as is Some && view_as->0.rank() > scope_display(scope).rank() ==> effective_display(
            level_named(scope),
            has_username,
            view_as,
        ) == DisplayLevel::Public,
{
}

/// A caller reading their own profile with no requested view sees it at
/// `Private`, wherever their scope names a level.
pub proof fn lemma_self_view_is_private(scope: Seq<char>)
    requires
        level_named(scope) is Some,
    ensures
        effective_display(level_named(scope), false, None) == DisplayLevel::Private,
{
}

/// A caller reading another user's profile with no requested view sees it at
/// the level that their scope grants.
pub proof fn lemma_other_view_follows_scope(scope: Seq<char>)
    ensures
        effective_display(level_named(scope), true, None) == scope_display(scope),
{
}

} // verus!
