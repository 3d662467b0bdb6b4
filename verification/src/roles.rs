//! The closed set of authorization levels and their canonical names.

use vstd::prelude::*;
use crate::text::same_text;

verus! {

/// Authorization level carried by an account and embedded in its tokens.
#[derive(Debug, Clone, Copy, PartialEq, Eq, Hash, Structural)]
pub enum Role {
    Customer,
    Admin,
    SystemAdmin,
}

/// The canonical display name of a role.
pub open spec fn role_name(role: Role) -> Seq<char> {
    match role {
        Role::Customer => "Customer"@,
        Role::Admin => "Admin"@,
        Role::SystemAdmin => "System Admin"@,
    }
}

/// The role that a name stands for. Any name that is not canonical stands
/// for the lowest privilege.
pub open spec fn role_named(name: Seq<char>) -> Role {
    if name == "Admin"@ {
        Role::Admin
    } else if name == "System Admin"@ {
        Role::SystemAdmin
    } else {
        Role::Customer
    }
}

/// Whether a name is one of the three canonical names.
pub open spec fn is_role_name(name: Seq<char>) -> bool {
    exists|role: Role| role_name(role) == name
}

impl Role {
    /// The canonical display name.
    pub fn to_string(&self) -> (name: String)
        ensures
            name@ == role_name(*self),
    {
        match self {
            Role::Customer => "Customer".to_owned(),
            Role::Admin => "Admin".to_owned(),
            Role::SystemAdmin => "System Admin".to_owned(),
        }
    }

    /// Reads a role from its canonical name, and no role from any other text.
    pub fn parse(name: &str) -> (role: Option<Role>)
        ensures
            match role {
                Some(r) => role_name(r) == name@,
                None => !is_role_name(name@),
            },
    {
        if same_text(name, "Customer") {
            Some(Role::Customer)
        } else if same_text(name, "Admin") {
            Some(Role::Admin)
        } else if same_text(name, "System Admin") {
            Some(Role::SystemAdmin)
        } else {
            assert forall|r: Role| role_name(r) != name@ by {
                match r {
                    Role::Customer => {},
                    Role::Admin => {},
                    Role::SystemAdmin => {},
                }
            }
            None
        }
    }

    /// Reads a role from its name; an unknown name gives `Customer`, the
    /// lowest privilege.
    pub fn from_name(name: &str) -> (role: Role)
        ensures
            role == role_named(name@),
            is_role_name(name@) ==> role_name(role) == name@,
            !is_role_name(name@) ==> role == Role::Customer,
    {
        proof {
            lemma_role_named_total(name@);
        }
        match Role::parse(name) {
            Some(role) => {
                proof {
                    lemma_role_round_trip(role);
                }
                role
            },
            None => Role::Customer,
        }
    }
}

/// The three canonical names have different lengths.
pub proof fn lemma_role_name_lengths()
    ensures
        "Customer"@.len() == 8,
        "Admin"@.len() == 5,
        "System Admin"@.len() == 12,
{
    reveal_strlit("Customer");
    reveal_strlit("Admin");
    reveal_strlit("System Admin");
}

/// Reading back the name of a role gives that role.
pub proof fn lemma_role_round_trip(role: Role)
    ensures
        role_named(role_name(role)) == role,
{
    lemma_role_name_lengths();
}

/// Two roles with the same name are the same role.
pub proof fn lemma_role_name_injective(a: Role, b: Role)
    requires
        role_name(a) == role_name(b),
    ensures
        a == b,
{
    lemma_role_name_lengths();
}

/// A name that is not canonical is read as `Customer`, and a canonical
/// name is the name of the role it is read as.
pub proof fn lemma_role_named_total(name: Seq<char>)
    ensures
        !is_role_name(name) ==> role_named(name) == Role::Customer,
        is_role_name(name) ==> role_name(role_named(name)) == name,
{
    lemma_role_name_lengths();
    if is_role_name(name) {
        let role = choose|role: Role| role_name(role) == name;
        lemma_role_round_trip(role);
    } else {
        assert(role_name(Role::Admin) != name);
        assert(role_name(Role::SystemAdmin) != name);
    }
}

} // verus!
