//! Users: who they are and what role they hold.
use vstd::prelude::*;
use vstd::string::StrSliceExecFns;
use vstd::string::StringExecFns;

pub mod entity;

verus! {

/// User unique identifier.
pub type ID = u128;

/// A user known to the application.
#[derive(Debug, PartialEq, Eq)]
pub struct User {
    id: ID,
    role: Role,
}

/// What a user may do, written in lower case.
#[derive(Debug, Clone, Copy, PartialEq, Eq, Structural)]
pub enum Role {
    Admin,
    Ordinary,
}

/// A text that names no role.
#[derive(Debug, Clone, Copy, PartialEq, Eq, Structural)]
pub struct ParseRoleError;

/// The text of a role.
pub open spec fn role_text(r: Role) -> Seq<char> {
    match r {
        Role::Admin => "admin"@,
        Role::Ordinary => "ordinary"@,
    }
}

/// Whether two texts are the same.
fn same_text(a: &str, b: &str) -> (r: bool)
    ensures
        r == (a@ == b@),
{
    let n = a.unicode_len();
    if n != b.unicode_len() {
        return false;
    }
    let mut i: usize = 0;
    while i < n
        invariant
            n == a@.len() == b@.len(),
            i <= n,
            forall|j: int| 0 <= j < i ==> a@[j] == b@[j],
        decreases n - i,
    {
        if a.get_char(i) != b.get_char(i) {
            return false;
        }
        i = i + 1;
    }
    assert(a@ =~= b@);
    true
}

impl Role {
    /// The role's text: `admin` or `ordinary`.
    pub fn to_string(&self) -> (r: String)
        ensures
            r@ == role_text(*self),
    {
        match self {
            Role::Admin => String::from_str("admin"),
            Role::Ordinary => String::from_str("ordinary"),
        }
    }

    /// The role written as `s`; exactly the texts that `to_string` writes
    /// are accepted.
    pub fn parse(s: &str) -> (r: Result<Role, ParseRoleError>)
        ensures
            r matches Ok(role) ==> role_text(role) == s@,
            forall|role: Role| #[trigger] role_text(role) == s@ ==> r == Ok::<Role, ParseRoleError>(role),
    {
        proof {
            reveal_strlit("admin");
            reveal_strlit("ordinary");
            assert("admin"@.len() != "ordinary"@.len());
        }
        if same_text(s, "admin") {
            Ok(Role::Admin)
        } else if same_text(s, "ordinary") {
            Ok(Role::Ordinary)
        } else {
            Err(ParseRoleError)
        }
    }
}

impl View for User {
    type V = (ID, Role);

    closed spec fn view(&self) -> (ID, Role) {
        (self.id, self.role)
    }
}

impl User {
    pub fn new(id: ID, role: Role) -> (r: User)
        ensures
            r@ == (id, role),
    {
        User { id, role }
    }

    /// The user's id.
    pub fn id(&self) -> (r: &ID)
        ensures
            *r == self@.0,
    {
        &self.id
    }

    /// The user's role.
    pub fn role(&self) -> (r: &Role)
        ensures
            *r == self@.1,
    {
        &self.role
    }
}

} // verus!
