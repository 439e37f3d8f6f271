//! The user record and the payloads it is built from.

use vstd::prelude::*;
use vstd::string::StringExecFns;
use crate::clock::unix_now;
use crate::ids::fresh_id;
use crate::roles::ROLE_UTILISATEUR;

verus! {

/// A user of the system. `mot_de_passe` holds a password hash once the record
/// has passed through the service; timestamps are Unix seconds.
#[derive(Debug, Clone, PartialEq, Eq)]
pub struct Utilisateur {
    pub id: u128,
    pub email: String,
    pub mot_de_passe: String,
    pub prenom: String,
    pub nom: String,
    pub role: String,
    pub date_creation: i64,
    pub date_update: i64,
}

/// The mathematical content of a [`Utilisateur`].
pub ghost struct UtilisateurView {
    pub id: u128,
    pub email: Seq<char>,
    pub mot_de_passe: Seq<char>,
    pub prenom: Seq<char>,
    pub nom: Seq<char>,
    pub role: Seq<char>,
    pub date_creation: i64,
    pub date_update: i64,
}

impl View for Utilisateur {
    type V = UtilisateurView;

    open spec fn view(&self) -> UtilisateurView {
        UtilisateurView {
            id: self.id,
            email: self.email@,
            mot_de_passe: self.mot_de_passe@,
            prenom: self.prenom@,
            nom: self.nom@,
            role: self.role@,
            date_creation: self.date_creation,
            date_update: self.date_update,
        }
    }
}

/// The content of an optional record.
pub open spec fn found_view(found: Option<Utilisateur>) -> Option<UtilisateurView> {
    match found {
        Some(user) => Some(user@),
        None => None,
    }
}

/// The contents of a list of records, in order.
pub open spec fn users_view(users: Seq<Utilisateur>) -> Seq<UtilisateurView> {
    users.map_values(|user: Utilisateur| user@)
}

/// What a caller supplies to create a user.
#[derive(Debug, Clone)]
pub struct CreateUser {
    pub email: String,
    pub mot_de_passe: String,
    pub prenom: String,
    pub nom: String,
}

/// A partial update: only the fields that are present replace the stored ones.
#[derive(Debug, Clone)]
pub struct UpdateUser {
    pub email: Option<String>,
    pub mot_de_passe: Option<String>,
    pub prenom: Option<String>,
    pub nom: Option<String>,
}

/// The record a [`CreateUser`] stands for, given its id and its creation time.
pub open spec fn new_user_view(create_user: CreateUser, id: u128, now: i64) -> UtilisateurView {
    UtilisateurView {
        id,
        email: create_user.email@,
        mot_de_passe: create_user.mot_de_passe@,
        prenom: create_user.prenom@,
        nom: create_user.nom@,
        role: ROLE_UTILISATEUR@,
        date_creation: now,
        date_update: now,
    }
}

/// `stored` when `replacement` is absent, else the replacement's text.
pub open spec fn replaced(stored: Seq<char>, replacement: Option<String>) -> Seq<char> {
    match replacement {
        Some(text) => text@,
        None => stored,
    }
}

/// The record that results from applying `update` to `existing` at time `now`.
pub open spec fn updated_view(existing: UtilisateurView, update: UpdateUser, now: i64)
    -> UtilisateurView {
    UtilisateurView {
        email: replaced(existing.email, update.email),
        mot_de_passe: replaced(existing.mot_de_passe, update.mot_de_passe),
        prenom: replaced(existing.prenom, update.prenom),
        nom: replaced(existing.nom, update.nom),
        date_update: now,
        ..existing
    }
}

impl Utilisateur {
    /// Builds the record for `create_user` under the given id, created at `now`.
    /// The role is always the starting role.
    pub fn with_identity(create_user: CreateUser, id: u128, now: i64) -> (user: Utilisateur)
        ensures
            user@ == new_user_view(create_user, id, now),
    {
        Utilisateur {
            id,
            email: create_user.email,
            mot_de_passe: create_user.mot_de_passe,
            prenom: create_user.prenom,
            nom: create_user.nom,
            role: String::from_str(ROLE_UTILISATEUR),
            date_creation: now,
            date_update: now,
        }
    }

    /// Builds the record for `create_user` with a freshly drawn id, stamped with
    /// the current time. Id and time are whatever the generator and the clock
    /// gave; everything else is fixed by `create_user`.
    pub fn new(create_user: CreateUser) -> (user: Utilisateur)
        ensures
            user@ == new_user_view(create_user, user.id, user.date_creation),
    {
        let id = fresh_id();
        let now = unix_now();
        Utilisateur::with_identity(create_user, id, now)
    }
}

impl UpdateUser {
    /// Applies the update to `existing`: each field that is present replaces the
    /// stored one, the update time becomes `now`, id, role and creation time stay.
    pub fn apply(self, existing: Utilisateur, now: i64) -> (user: Utilisateur)
        ensures
            user@ == updated_view(existing@, self, now),
    {
        let mut user = existing;
        if let Some(email) = self.email {
            user.email = email;
        }
        if let Some(mot_de_passe) = self.mot_de_passe {
            user.mot_de_passe = mot_de_passe;
        }
        if let Some(prenom) = self.prenom {
            user.prenom = prenom;
        }
        if let Some(nom) = self.nom {
            user.nom = nom;
        }
        user.date_update = now;
        user
    }
}

} // verus!
