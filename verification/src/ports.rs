//! The persistence port: what the identity core asks of a user store.

use vstd::prelude::*;
use crate::user::{found_view, users_view, Utilisateur, UtilisateurView};

verus! {

/// What a store reports when a call fails.
#[derive(Debug)]
pub enum StoreError {
    /// A write ran against a uniqueness constraint of the store.
    Conflict,
    /// The record a write aimed at does not exist.
    Missing,
    /// Any other failure, in the store's own words.
    Failure(String),
}

/// The mathematical content of a [`StoreError`].
pub ghost enum StoreErrorView {
    Conflict,
    Missing,
    Failure(Seq<char>),
}

impl View for StoreError {
    type V = StoreErrorView;

    open spec fn view(&self) -> StoreErrorView {
        match self {
            StoreError::Conflict => StoreErrorView::Conflict,
            StoreError::Missing => StoreErrorView::Missing,
            StoreError::Failure(words) => StoreErrorView::Failure(words@),
        }
    }
}

/// A store of user records. The core depends on this interface and never on a
/// concrete store. Every method may fail, and says of what kind the failure
/// is; what a caller gets to see of it is decided by the core: the service
/// reports it in its own terms, the middleware as a refusal.
///
/// Nothing is assumed of what a store answers. Each method comes with a
/// relation that says which answers the store may give to a call; a store that
/// makes no promise leaves every relation at its default, which admits every
/// answer. The contracts of the core are stated over these relations, so they
/// hold for every store, and say exactly what is made of each answer.
pub trait UtilisateurSortie {
    /// Whether the store may give `answer` when asked to persist `utilisateur`.
    open spec fn answers_save(
        &self,
        utilisateur: UtilisateurView,
        answer: Result<UtilisateurView, StoreErrorView>,
    ) -> bool {
        true
    }

    /// Whether the store may give `answer` when asked for the record `id`.
    open spec fn answers_par_id(
        &self,
        id: u128,
        answer: Result<Option<UtilisateurView>, StoreErrorView>,
    ) -> bool {
        true
    }

    /// Whether the store may give `answer` when asked for the record under `email`.
    open spec fn answers_par_email(
        &self,
        email: Seq<char>,
        answer: Result<Option<UtilisateurView>, StoreErrorView>,
    ) -> bool {
        true
    }

    /// Whether the store may give `answer` when asked for all records.
    open spec fn answers_all(&self, answer: Result<Seq<UtilisateurView>, StoreErrorView>) -> bool {
        true
    }

    /// Whether the store may give `answer` when asked to replace a record by
    /// `utilisateur`.
    open spec fn answers_update(
        &self,
        utilisateur: UtilisateurView,
        answer: Result<UtilisateurView, StoreErrorView>,
    ) -> bool {
        true
    }

    /// Whether the store may give `answer` when asked to remove the record `id`.
    open spec fn answers_delete(&self, id: u128, answer: Result<(), StoreErrorView>) -> bool {
        true
    }

    /// Persists a new record and returns it as stored.
    fn sauvegarder(&self, utilisateur: &Utilisateur) -> (r: Result<Utilisateur, StoreError>)
        ensures
            self.answers_save(utilisateur@, record_view(r)),
    ;

    /// Looks a record up by id.
    fn obtenir_par_id(&self, id: u128) -> (r: Result<Option<Utilisateur>, StoreError>)
        ensures
            self.answers_par_id(id, lookup_view(r)),
    ;

    /// Looks a record up by email.
    fn obtenir_par_email(&self, email: &str) -> (r: Result<Option<Utilisateur>, StoreError>)
        ensures
            self.answers_par_email(email@, lookup_view(r)),
    ;

    /// All the records.
    fn obtenir_tous(&self) -> (r: Result<Vec<Utilisateur>, StoreError>)
        ensures
            self.answers_all(listing_view(r)),
    ;

    /// Replaces the record that has the same id and returns it as stored.
    fn mettre_a_jour(&self, utilisateur: &Utilisateur) -> (r: Result<Utilisateur, StoreError>)
        ensures
            self.answers_update(utilisateur@, record_view(r)),
    ;

    /// Removes the record with the given id.
    fn supprimer(&self, id: u128) -> (r: Result<(), StoreError>)
        ensures
            self.answers_delete(id, unit_view(r)),
    ;
}

/// The content of an answer that carries a record.
pub open spec fn record_view(r: Result<Utilisateur, StoreError>) -> Result<
    UtilisateurView,
    StoreErrorView,
> {
    match r {
        Ok(user) => Ok(user@),
        Err(e) => Err(e@),
    }
}

/// The content of the answer to a lookup.
pub open spec fn lookup_view(r: Result<Option<Utilisateur>, StoreError>) -> Result<
    Option<UtilisateurView>,
    StoreErrorView,
> {
    match r {
        Ok(found) => Ok(found_view(found)),
        Err(e) => Err(e@),
    }
}

/// The content of the answer to a listing.
pub open spec fn listing_view(r: Result<Vec<Utilisateur>, StoreError>) -> Result<
    Seq<UtilisateurView>,
    StoreErrorView,
> {
    match r {
        Ok(users) => Ok(users_view(users@)),
        Err(e) => Err(e@),
    }
}

/// The content of an answer that carries no value.
pub open spec fn unit_view(r: Result<(), StoreError>) -> Result<(), StoreErrorView> {
    match r {
        Ok(_) => Ok(()),
        Err(e) => Err(e@),
    }
}

} // verus!
