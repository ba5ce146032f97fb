use vstd::prelude::*;

verus! {

/// Visibility level of a profile attribute, from the most open to the most
/// restricted one.
#[derive(Clone, Copy, Debug, PartialEq, Eq, Structural)]
pub enum DisplayLevel {
    Public,
    Authenticated,
    Vouched,
    Ndaed,
    Staff,
    Private,
}

impl DisplayLevel {
    /// Position of the level in the order `Public < ... < Private`.
    pub open spec fn rank(self) -> nat {
        match self {
            DisplayLevel::Public => 0,
            DisplayLevel::Authenticated => 1,
            DisplayLevel::Vouched => 2,
            DisplayLevel::Ndaed => 3,
            DisplayLevel::Staff => 4,
            DisplayLevel::Private => 5,
        }
    }

    /// The name under which the level is written in a scope or a filter.
    pub open spec fn name(self) -> Seq<char> {
        match self {
            DisplayLevel::Public => "public"@,
            DisplayLevel::Authenticated => "authenticated"@,
            DisplayLevel::Vouched => "vouched"@,
            DisplayLevel::Ndaed => "ndaed"@,
            DisplayLevel::Staff => "staff"@,
            DisplayLevel::Private => "private"@,
        }
    }

    /// Whether `self` is at most `other` in the order of levels.
    pub fn at_most(&self, other: &DisplayLevel) -> (r: bool)
        ensures
            r == (self.rank() <= other.rank()),
    {
        self.index() <= other.index()
    }

    fn index(&self) -> (r: u8)
        ensures
            r as nat == self.rank(),
    {
        match self {
            DisplayLevel::Public => 0,
            DisplayLevel::Authenticated => 1,
            DisplayLevel::Vouched => 2,
            DisplayLevel::Ndaed => 3,
            DisplayLevel::Staff => 4,
            DisplayLevel::Private => 5,
        }
    }

    /// The level's name, as handed to the profile store as a filter.
    pub fn as_str(&self) -> (r: &'static str)
        ensures
            r@ == self.name(),
    {
        match self {
            DisplayLevel::Public => "public",
            DisplayLevel::Authenticated => "authenticated",
            DisplayLevel::Vouched => "vouched",
            DisplayLevel::Ndaed => "ndaed",
            DisplayLevel::Staff => "staff",
            DisplayLevel::Private => "private",
        }
    }
}

/// The level that a scope names, if it names one.
pub open spec fn level_named(s: Seq<char>) -> Option<DisplayLevel> {
    if s == DisplayLevel::Public.name() {
        Some(DisplayLevel::Public)
    } else if s == DisplayLevel::Authenticated.name() {
        Some(DisplayLevel::Authenticated)
    } else if s == DisplayLevel::Vouched.name() {
        Some(DisplayLevel::Vouched)
    } else if s == DisplayLevel::Ndaed.name() {
        Some(DisplayLevel::Ndaed)
    } else if s == DisplayLevel::Staff.name() {
        Some(DisplayLevel::Staff)
    } else if s == DisplayLevel::Private.name() {
        Some(DisplayLevel::Private)
    } else {
        None
    }
}

/// Character-wise equality of two strings.
pub fn str_equal(a: &str, b: &str) -> (r: bool)
    ensures
        r == (a@ == b@),
{
    let n = a.unicode_len();
    if n != b.unicode_len() {
        return false;
    }
    let mut i: usize = 0;
    while i < n
        invariant
            n == a@.len(),
            n == b@.len(),
            i <= n,
            a@.subrange(0, i as int) == b@.subrange(0, i as int),
        decreases n - i,
    {
        if a.get_char(i) != b.get_char(i) {
            return false;
        }
        assert(a@.subrange(0, i + 1) == a@.subrange(0, i as int).push(a@[i as int]));
        assert(b@.subrange(0, i + 1) == b@.subrange(0, i as int).push(b@[i as int]));
        i = i + 1;
    }
    assert(a@ == a@.subrange(0, n as int));
    assert(b@ == b@.subrange(0, n as int));
    true
}

/// Reads a caller's scope as a display level: the level whose name it is, or
/// `None` where it names none.
pub fn parse_scope(scope: &str) -> (r: Option<DisplayLevel>)
    ensures
        r == level_named(scope@),
{
    let levels = [
        DisplayLevel::Public,
        DisplayLevel::Authenticated,
        DisplayLevel::Vouched,
        DisplayLevel::Ndaed,
        DisplayLevel::Staff,
        DisplayLevel::Private,
    ];
    let mut i: usize = 0;
    while i < 6
        invariant
            i <= 6,
            levels@ == seq![
                DisplayLevel::Public,
                DisplayLevel::Authenticated,
                DisplayLevel::Vouched,
                DisplayLevel::Ndaed,
                DisplayLevel::Staff,
                DisplayLevel::Private,
            ],
            forall|j: int| 0 <= j < i ==> scope@ != (#[trigger] levels@[j]).name(),
        decreases 6 - i,
    {
        let level = levels[i];
        if str_equal(scope, level.as_str()) {
            return Some(level);
        }
        i = i + 1;
    }
    None
}

} // verus!
