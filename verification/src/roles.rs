//! The two roles a user can hold.

use vstd::prelude::*;
use crate::text::same_text;

verus! {

/// The role every new user starts with.
pub const ROLE_UTILISATEUR: &'static str = "utilisateur";

/// The elevated role, allowed to list and delete users and to change roles.
pub const ROLE_GERANT: &'static str = "gerant";

/// Whether `role` names one of the two roles.
pub open spec fn is_known_role(role: Seq<char>) -> bool {
    role == ROLE_UTILISATEUR@ || role == ROLE_GERANT@
}

/// Whether `role` names the elevated role.
pub open spec fn is_manager(role: Seq<char>) -> bool {
    role == ROLE_GERANT@
}

/// Tests whether `role` names one of the two roles.
pub fn role_connu(role: &str) -> (known: bool)
    ensures
        known == is_known_role(role@),
{
    same_text(role, ROLE_UTILISATEUR) || same_text(role, ROLE_GERANT)
}

/// Tests whether `role` names the elevated role.
pub fn est_gerant(role: &str) -> (manager: bool)
    ensures
        manager == is_manager(role@),
{
    same_text(role, ROLE_GERANT)
}

/// The two role names differ, and neither is empty.
pub proof fn lemma_roles_distinct()
    ensures
        ROLE_UTILISATEUR@ != ROLE_GERANT@,
        ROLE_UTILISATEUR@.len() > 0,
        ROLE_GERANT@.len() > 0,
        !is_manager(ROLE_UTILISATEUR@),
        is_manager(ROLE_GERANT@),
        is_known_role(ROLE_UTILISATEUR@),
        is_known_role(ROLE_GERANT@),
{
    reveal_strlit("utilisateur");
    reveal_strlit("gerant");
    assert("utilisateur"@.len() == 11);
    assert("gerant"@.len() == 6);
}

} // verus!
