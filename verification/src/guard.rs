//! Role-based authorization guard for protected fields.
//!
//! A guard is a predicate attached to one field: it is evaluated against the
//! request-scoped identity immediately before that field would resolve. A
//! denial is scoped to the field; sibling fields of the same object still
//! resolve (partial-response semantics).
use vstd::prelude::*;

verus! {

/// The role claim a request context may carry.
#[derive(Clone, Copy, PartialEq, Eq, Structural, Debug)]
pub enum Role {
    Admin,
    User,
}

/// A field-scoped error: the field it was raised for resolves to this error
/// while sibling fields are unaffected.
#[derive(Clone, PartialEq, Eq, Debug)]
pub struct FieldError {
    pub message: String,
}

/// A guard that admits exactly the requests whose context carries the
/// required role; anything else is denied with the fixed reason "Forbidden".
#[derive(Clone, Copy, PartialEq, Eq, Structural, Debug)]
pub struct RoleGuard {
    pub role: Role,
}

impl RoleGuard {
    pub fn new(role: Role) -> (r: RoleGuard)
        ensures
            r.role == role,
    {
        RoleGuard { role }
    }

    /// Compares the role claim of the request context (if any) against the
    /// required role by strict equality; a missing or non-matching claim is
    /// denied with the fixed reason "Forbidden".
    pub fn check(&self, ctx_role: Option<Role>) -> (r: Result<(), FieldError>)
        ensures
            r is Ok <==> ctx_role == Some(self.role),
            r matches Err(e) ==> e.message@ == "Forbidden"@,
    {
        let matches_role = match ctx_role {
            Some(claimed) => claimed == self.role,
            None => false,
        };
        if matches_role {
            Ok(())
        } else {
            Err(FieldError { message: "Forbidden".to_owned() })
        }
    }
}

} // verus!
