//! The identity service: the business rules on user records. Each operation
//! decides in verified steps; the store and the hasher are asked in between,
//! and whatever they answer, the rules stated here hold.

use vstd::prelude::*;
use vstd::string::StringExecFns;
use crate::clock::unix_now;
use crate::error::{
    fails_with, not_found_error, result_view, validation_error, ErrorView, MyError,
};
use crate::hasher::{
    bcrypt_verdict, hash_outcome, hash_password, verify_password, MSG_VERIFICATION,
};
use crate::ports::{
    listing_view, lookup_view, record_view, unit_view, StoreError, StoreErrorView,
    UtilisateurSortie,
};
use crate::roles::{est_gerant, is_known_role, is_manager, role_connu, ROLE_UTILISATEUR};
use crate::user::{found_view, users_view, Utilisateur, UtilisateurView};

verus! {

/// The least number of characters a password must have.
pub const MIN_PASSWORD_LEN: usize = 8;

pub const MSG_EMAIL_VIDE: &'static str = "L'email ne peut pas être vide";

pub const MSG_EMAIL_PRIS: &'static str = "L'email est déjà utilisé";

pub const MSG_MOT_DE_PASSE_COURT: &'static str =
    "Le mot de passe doit avoir au moins 8 caractères";

pub const MSG_PRENOM_VIDE: &'static str = "Le prénom ne peut pas être vide";

pub const MSG_NOM_VIDE: &'static str = "Le nom ne peut pas être vide";

pub const MSG_ROLE_INVALIDE: &'static str = "Rôle invalide";

pub const MSG_ACCES_PROFIL: &'static str = "Vous ne pouvez accéder qu'à votre propre profil";

pub const MSG_MODIF_PROFIL: &'static str = "Vous ne pouvez modifier que votre propre profil";

pub const MSG_INTROUVABLE: &'static str = "Utilisateur non trouvé";

pub const MSG_SUPPRESSION: &'static str = "Seul un gérant peut supprimer un utilisateur";

pub const MSG_LISTE: &'static str = "Seul un gérant peut lister les utilisateurs";

pub const MSG_CHANGEMENT_ROLE: &'static str = "Seul un gérant peut modifier un rôle";

/// The one detail reported for every failed authentication, whether the email
/// is unknown or the password is wrong.
pub const MSG_IDENTIFIANTS: &'static str = "Email ou mot de passe incorrect";

/// Why a profile is refused, or `None` where it is acceptable. The checks run
/// in this order: email present, email free, password long enough, given name
/// present, family name present. `email_conflict` says whether the email
/// already belongs to another record.
pub open spec fn profile_refusal(profile: UtilisateurView, email_conflict: bool) -> Option<
    Seq<char>,
> {
    if profile.email.len() == 0 {
        Some(MSG_EMAIL_VIDE@)
    } else if email_conflict {
        Some(MSG_EMAIL_PRIS@)
    } else if profile.mot_de_passe.len() < MIN_PASSWORD_LEN {
        Some(MSG_MOT_DE_PASSE_COURT@)
    } else if profile.prenom.len() == 0 {
        Some(MSG_PRENOM_VIDE@)
    } else if profile.nom.len() == 0 {
        Some(MSG_NOM_VIDE@)
    } else {
        None
    }
}

/// Why a registration is refused, or `None` where it is accepted: the profile
/// checks, then the supplied role, which must be empty or one of the two roles.
pub open spec fn registration_refusal(profile: UtilisateurView, email_conflict: bool) -> Option<
    Seq<char>,
> {
    match profile_refusal(profile, email_conflict) {
        Some(reason) => Some(reason),
        None => if profile.role.len() == 0 || is_known_role(profile.role) {
            None
        } else {
            Some(MSG_ROLE_INVALIDE@)
        },
    }
}

/// The outcome of a check that refuses with a validation failure.
pub open spec fn validation_outcome(refusal: Option<Seq<char>>) -> Result<(), ErrorView> {
    match refusal {
        Some(reason) => Err(ErrorView::Validation(reason)),
        None => Ok(()),
    }
}

/// Checks the fields of a profile; see [`profile_refusal`].
pub fn check_profile(profile: &Utilisateur, email_conflict: bool) -> (r: Result<(), MyError>)
    ensures
        result_view(r) == validation_outcome(profile_refusal(profile@, email_conflict)),
{
    if profile.email.as_str().is_empty() {
        return Err(validation_error(MSG_EMAIL_VIDE));
    }
    if email_conflict {
        return Err(validation_error(MSG_EMAIL_PRIS));
    }
    if profile.mot_de_passe.as_str().unicode_len() < MIN_PASSWORD_LEN {
        return Err(validation_error(MSG_MOT_DE_PASSE_COURT));
    }
    if profile.prenom.as_str().is_empty() {
        return Err(validation_error(MSG_PRENOM_VIDE));
    }
    if profile.nom.as_str().is_empty() {
        return Err(validation_error(MSG_NOM_VIDE));
    }
    Ok(())
}

/// Checks a registration against what the store answered for its email: any
/// record found under the email is a conflict.
pub fn check_registration(profile: &Utilisateur, holder: &Option<Utilisateur>) -> (r: Result<
    (),
    MyError,
>)
    ensures
        result_view(r) == validation_outcome(registration_refusal(profile@, holder is Some)),
{
    check_profile(profile, holder.is_some())?;
    if !profile.role.as_str().is_empty() && !role_connu(profile.role.as_str()) {
        return Err(validation_error(MSG_ROLE_INVALIDE));
    }
    Ok(())
}

/// The record a registration stores: the profile with the password replaced
/// by its hash and the starting role.
pub open spec fn registered_view(profile: UtilisateurView, blob: Seq<char>) -> UtilisateurView {
    UtilisateurView { mot_de_passe: blob, role: ROLE_UTILISATEUR@, ..profile }
}

/// Builds the record a registration stores. The plain password never reaches
/// the record, and the role is the starting role whatever the profile asked for.
pub fn registration_record(profile: Utilisateur, blob: String) -> (record: Utilisateur)
    ensures
        record@ == registered_view(profile@, blob@),
{
    let mut record = profile;
    record.mot_de_passe = blob;
    record.role = String::from_str(ROLE_UTILISATEUR);
    record
}

/// What authentication yields for the record found under an email and a
/// password: the record when the password matches its hash, and one and the
/// same `Unauthorized` failure when no record was found or the password does
/// not match. A stored hash that cannot be read is a `Custom` failure.
pub open spec fn authentication(found: Option<UtilisateurView>, secret: Seq<char>) -> Result<
    UtilisateurView,
    ErrorView,
> {
    match found {
        None => Err(ErrorView::Unauthorized(MSG_IDENTIFIANTS@)),
        Some(user) => match bcrypt_verdict(secret, user.mot_de_passe) {
            Some(true) => Ok(user),
            Some(false) => Err(ErrorView::Unauthorized(MSG_IDENTIFIANTS@)),
            None => Err(ErrorView::Custom(MSG_VERIFICATION@)),
        },
    }
}

/// Concludes an authentication from the hasher's verdict on the found record.
pub fn conclude_authentication(user: Utilisateur, verdict: Result<bool, MyError>) -> (r: Result<
    Utilisateur,
    MyError,
>)
    ensures
        match verdict {
            Ok(true) => r == Ok::<Utilisateur, MyError>(user),
            Ok(false) => fails_with(r, ErrorView::Unauthorized(MSG_IDENTIFIANTS@)),
            Err(cause) => r == Err::<Utilisateur, MyError>(cause),
        },
{
    match verdict {
        Ok(true) => Ok(user),
        Ok(false) => Err(MyError::Unauthorized(String::from_str(MSG_IDENTIFIANTS))),
        Err(cause) => Err(cause),
    }
}

/// Authenticates against what the store answered for the email; see
/// [`authentication`].
pub fn authenticate_found(found: Option<Utilisateur>, mot_de_passe: &str) -> (r: Result<
    Utilisateur,
    MyError,
>)
    ensures
        result_view(r) == authentication(found_view(found), mot_de_passe@),
{
    match found {
        None => Err(MyError::Unauthorized(String::from_str(MSG_IDENTIFIANTS))),
        Some(user) => {
            let verdict = verify_password(mot_de_passe, user.mot_de_passe.as_str());
            conclude_authentication(user, verdict)
        },
    }
}

/// Whether an actor may read or change the profile `target_id`: a manager may
/// for every profile, anyone else only for their own.
pub open spec fn may_access_profile(acting_role: Seq<char>, acting_id: u128, target_id: u128)
    -> bool {
    is_manager(acting_role) || acting_id == target_id
}

/// The outcome of a check that refuses with `Unauthorized` and the given detail.
pub open spec fn access_outcome(allowed: bool, detail: Seq<char>) -> Result<(), ErrorView> {
    if allowed {
        Ok(())
    } else {
        Err(ErrorView::Unauthorized(detail))
    }
}

/// Checks the self-or-manager rule; a refusal carries `detail`.
pub fn check_profile_access(acting_role: &str, acting_id: u128, target_id: u128, detail: &str)
    -> (r: Result<(), MyError>)
    ensures
        result_view(r) == access_outcome(
            may_access_profile(acting_role@, acting_id, target_id),
            detail@,
        ),
{
    if !est_gerant(acting_role) && acting_id != target_id {
        return Err(MyError::Unauthorized(String::from_str(detail)));
    }
    Ok(())
}

/// Checks that the actor is a manager; a refusal carries `detail`.
pub fn check_manager(acting_role: &str, detail: &str) -> (r: Result<(), MyError>)
    ensures
        result_view(r) == access_outcome(is_manager(acting_role@), detail@),
{
    if !est_gerant(acting_role) {
        return Err(MyError::Unauthorized(String::from_str(detail)));
    }
    Ok(())
}

/// Whether the record the store holds under an email stands in the way of an
/// update of the record `id`: it does unless it is that very record.
pub open spec fn update_conflict(holder: Option<UtilisateurView>, id: u128) -> bool {
    holder matches Some(other) && other.id != id
}

/// Checks an update against what the store answered for its email.
pub fn check_update(profile: &Utilisateur, holder: &Option<Utilisateur>) -> (r: Result<
    (),
    MyError,
>)
    ensures
        result_view(r) == validation_outcome(
            profile_refusal(profile@, update_conflict(found_view(*holder), profile.id)),
        ),
{
    let conflict = match holder {
        Some(other) => other.id != profile.id,
        None => false,
    };
    check_profile(profile, conflict)
}

/// The record an update stores, given the stored record of the same id: the
/// incoming profile with the password replaced by its hash and the role taken
/// from the stored record. Without a stored record the update fails `NotFound`.
pub open spec fn updated_record(
    profile: UtilisateurView,
    blob: Seq<char>,
    stored: Option<UtilisateurView>,
) -> Result<UtilisateurView, ErrorView> {
    match stored {
        Some(current) => Ok(UtilisateurView { mot_de_passe: blob, role: current.role, ..profile }),
        None => Err(ErrorView::NotFound(MSG_INTROUVABLE@)),
    }
}

/// Builds the record an update stores; see [`updated_record`]. The role of
/// the incoming profile is never kept: nobody changes a role through an update.
pub fn update_record(profile: Utilisateur, blob: String, stored: Option<Utilisateur>) -> (r:
    Result<Utilisateur, MyError>)
    ensures
        result_view(r) == updated_record(profile@, blob@, found_view(stored)),
{
    match stored {
        Some(current) => {
            let mut record = profile;
            record.mot_de_passe = blob;
            record.role = current.role;
            Ok(record)
        },
        None => Err(not_found_error(MSG_INTROUVABLE)),
    }
}

/// Why a role change is refused before the store is asked, or `None`: the
/// actor must be a manager, and the new role one of the two roles.
pub open spec fn role_change_refusal(new_role: Seq<char>, acting_role: Seq<char>) -> Option<
    ErrorView,
> {
    if !is_manager(acting_role) {
        Some(ErrorView::Unauthorized(MSG_CHANGEMENT_ROLE@))
    } else if !is_known_role(new_role) {
        Some(ErrorView::Validation(MSG_ROLE_INVALIDE@))
    } else {
        None
    }
}

/// The outcome of the checks that precede a role change.
pub open spec fn role_change_outcome(new_role: Seq<char>, acting_role: Seq<char>) -> Result<
    (),
    ErrorView,
> {
    match role_change_refusal(new_role, acting_role) {
        Some(failure) => Err(failure),
        None => Ok(()),
    }
}

/// Checks a role change; see [`role_change_refusal`].
pub fn check_role_change(new_role: &str, acting_role: &str) -> (r: Result<(), MyError>)
    ensures
        result_view(r) == role_change_outcome(new_role@, acting_role@),
{
    check_manager(acting_role, MSG_CHANGEMENT_ROLE)?;
    if !role_connu(new_role) {
        return Err(validation_error(MSG_ROLE_INVALIDE));
    }
    Ok(())
}

/// The record a role change stores, given the stored record: only the role
/// and the update time differ. Without a stored record it fails `NotFound`.
pub open spec fn role_changed(stored: Option<UtilisateurView>, new_role: Seq<char>, now: i64)
    -> Result<UtilisateurView, ErrorView> {
    match stored {
        Some(current) => Ok(UtilisateurView { role: new_role, date_update: now, ..current }),
        None => Err(ErrorView::NotFound(MSG_INTROUVABLE@)),
    }
}

/// Builds the record a role change stores; see [`role_changed`].
pub fn role_change_record(stored: Option<Utilisateur>, new_role: &str, now: i64) -> (r: Result<
    Utilisateur,
    MyError,
>)
    ensures
        result_view(r) == role_changed(found_view(stored), new_role@, now),
{
    match stored {
        Some(current) => {
            let mut record = current;
            record.role = String::from_str(new_role);
            record.date_update = now;
            Ok(record)
        },
        None => Err(not_found_error(MSG_INTROUVABLE)),
    }
}

/// What the service reports for a failure of the store. A violated
/// uniqueness constraint is a conflicting input, not a storage failure: it is
/// reported as the validation failure of a taken email. A missing record is
/// `NotFound`. Every other failure is a storage failure that carries the
/// store's words.
pub open spec fn storage_failure(failure: StoreErrorView) -> ErrorView {
    match failure {
        StoreErrorView::Conflict => ErrorView::Validation(MSG_EMAIL_PRIS@),
        StoreErrorView::Missing => ErrorView::NotFound(MSG_INTROUVABLE@),
        StoreErrorView::Failure(words) => ErrorView::Database(words),
    }
}

/// Builds the report of a failure of the store; see [`storage_failure`].
pub fn report_store_failure(failure: StoreError) -> (e: MyError)
    ensures
        e@ == storage_failure(failure@),
{
    match failure {
        StoreError::Conflict => validation_error(MSG_EMAIL_PRIS),
        StoreError::Missing => not_found_error(MSG_INTROUVABLE),
        StoreError::Failure(words) => MyError::Database(words),
    }
}

/// What the service returns for an answer of the store: the value as it is,
/// a failure as [`storage_failure`] reports it.
pub open spec fn reported<T>(answer: Result<T, StoreErrorView>) -> Result<T, ErrorView> {
    match answer {
        Ok(value) => Ok(value),
        Err(failure) => Err(storage_failure(failure)),
    }
}

/// The content of the result of a lookup.
pub open spec fn found_result_view(r: Result<Option<Utilisateur>, MyError>) -> Result<
    Option<UtilisateurView>,
    ErrorView,
> {
    match r {
        Ok(found) => Ok(found_view(found)),
        Err(e) => Err(e@),
    }
}

/// The content of the result of a listing.
pub open spec fn listing_result_view(r: Result<Vec<Utilisateur>, MyError>) -> Result<
    Seq<UtilisateurView>,
    ErrorView,
> {
    match r {
        Ok(users) => Ok(users_view(users@)),
        Err(e) => Err(e@),
    }
}

/// The content of a result that carries no value.
pub open spec fn unit_result_view(r: Result<(), MyError>) -> Result<(), ErrorView> {
    match r {
        Ok(_) => Ok(()),
        Err(e) => Err(e@),
    }
}

/// Turns the store's answer to a write into the service's result.
pub fn report_record(answer: Result<Utilisateur, StoreError>) -> (r: Result<Utilisateur, MyError>)
    ensures
        result_view(r) == reported(record_view(answer)),
{
    match answer {
        Ok(user) => Ok(user),
        Err(failure) => Err(report_store_failure(failure)),
    }
}

/// Turns the store's answer to a lookup into the service's result.
pub fn report_lookup(answer: Result<Option<Utilisateur>, StoreError>) -> (r: Result<
    Option<Utilisateur>,
    MyError,
>)
    ensures
        found_result_view(r) == reported(lookup_view(answer)),
{
    match answer {
        Ok(found) => Ok(found),
        Err(failure) => Err(report_store_failure(failure)),
    }
}

/// Turns the store's answer to a listing into the service's result.
pub fn report_listing(answer: Result<Vec<Utilisateur>, StoreError>) -> (r: Result<
    Vec<Utilisateur>,
    MyError,
>)
    ensures
        listing_result_view(r) == reported(listing_view(answer)),
{
    match answer {
        Ok(users) => Ok(users),
        Err(failure) => Err(report_store_failure(failure)),
    }
}

/// Turns the store's answer to a removal into the service's result.
pub fn report_removal(answer: Result<(), StoreError>) -> (r: Result<(), MyError>)
    ensures
        unit_result_view(r) == reported(unit_view(answer)),
{
    match answer {
        Ok(_) => Ok(()),
        Err(failure) => Err(report_store_failure(failure)),
    }
}

/// Whether `r` is what the service returns after asking `store` to persist
/// `record`: the store's answer as [`reported`].
pub open spec fn saved<R: UtilisateurSortie>(
    store: R,
    record: UtilisateurView,
    r: Result<UtilisateurView, ErrorView>,
) -> bool {
    exists|answer: Result<UtilisateurView, StoreErrorView>|
        #[trigger] store.answers_save(record, answer) && r == reported(answer)
}

/// Whether `r` is what the service returns after asking `store` to replace a
/// record by `record`: the store's answer as [`reported`].
pub open spec fn replaced_by<R: UtilisateurSortie>(
    store: R,
    record: UtilisateurView,
    r: Result<UtilisateurView, ErrorView>,
) -> bool {
    exists|answer: Result<UtilisateurView, StoreErrorView>|
        #[trigger] store.answers_update(record, answer) && r == reported(answer)
}

/// The last step of a registration, from the hasher's outcome: a failure of
/// the hasher is the result; a hash leads to the store being asked to persist
/// the record of [`registered_view`], and the result is the store's answer as
/// [`reported`].
pub open spec fn registration_stored<R: UtilisateurSortie>(
    store: R,
    profile: UtilisateurView,
    hashed: Result<Seq<char>, ErrorView>,
    r: Result<UtilisateurView, ErrorView>,
) -> bool {
    match hashed {
        Err(failure) => r == Err::<UtilisateurView, ErrorView>(failure),
        Ok(blob) => saved(store, registered_view(profile, blob), r),
    }
}

/// A registration from the store's answer to the lookup of the email on: a
/// failure of the store is reported; a profile that breaks a rule is refused
/// with the reason of [`registration_refusal`]; otherwise the password is
/// hashed and the registration goes on as [`registration_stored`] says.
pub open spec fn registration_checked<R: UtilisateurSortie>(
    store: R,
    profile: UtilisateurView,
    lookup: Result<Option<UtilisateurView>, StoreErrorView>,
    r: Result<UtilisateurView, ErrorView>,
) -> bool {
    match lookup {
        Err(failure) => r == Err::<UtilisateurView, ErrorView>(storage_failure(failure)),
        Ok(holder) => match registration_refusal(profile, holder is Some) {
            Some(reason) => r == Err::<UtilisateurView, ErrorView>(ErrorView::Validation(reason)),
            None => exists|hashed: Result<Seq<char>, ErrorView>|
                #[trigger] hash_outcome(profile.mot_de_passe, hashed) && registration_stored(
                    store,
                    profile,
                    hashed,
                    r,
                ),
        },
    }
}

/// Whether `r` is a result of registering `profile` over `store`. An empty
/// email is refused without the store being asked; otherwise the store is
/// asked for the record under the email, and the registration goes on as
/// [`registration_checked`] says.
pub open spec fn registration<R: UtilisateurSortie>(
    store: R,
    profile: UtilisateurView,
    r: Result<UtilisateurView, ErrorView>,
) -> bool {
    if profile.email.len() == 0 {
        r == Err::<UtilisateurView, ErrorView>(ErrorView::Validation(MSG_EMAIL_VIDE@))
    } else {
        exists|lookup: Result<Option<UtilisateurView>, StoreErrorView>|
            #[trigger] store.answers_par_email(profile.email, lookup) && registration_checked(
                store,
                profile,
                lookup,
                r,
            )
    }
}

/// What authentication yields from the store's answer to the lookup of the
/// email: a failure of the store as reported, else the outcome of
/// [`authentication`].
pub open spec fn authentication_after(
    lookup: Result<Option<UtilisateurView>, StoreErrorView>,
    secret: Seq<char>,
) -> Result<UtilisateurView, ErrorView> {
    match lookup {
        Err(failure) => Err(storage_failure(failure)),
        Ok(found) => authentication(found, secret),
    }
}

/// Whether `r` is a result of authenticating with `email` and `secret` over
/// `store`: the store is asked for the record under the email, and the result
/// is what [`authentication_after`] makes of its answer.
pub open spec fn authentication_via<R: UtilisateurSortie>(
    store: R,
    email: Seq<char>,
    secret: Seq<char>,
    r: Result<UtilisateurView, ErrorView>,
) -> bool {
    exists|lookup: Result<Option<UtilisateurView>, StoreErrorView>|
        #[trigger] store.answers_par_email(email, lookup) && r == authentication_after(
            lookup,
            secret,
        )
}

/// Whether `r` is a result of reading the profile `id` over `store`, for the
/// given actor. A request that is not allowed is refused without the store
/// being asked; for an allowed one the result is the store's answer as
/// [`reported`].
pub open spec fn reading<R: UtilisateurSortie>(
    store: R,
    id: u128,
    acting_role: Seq<char>,
    acting_id: u128,
    r: Result<Option<UtilisateurView>, ErrorView>,
) -> bool {
    if may_access_profile(acting_role, acting_id, id) {
        exists|answer: Result<Option<UtilisateurView>, StoreErrorView>|
            #[trigger] store.answers_par_id(id, answer) && r == reported(answer)
    } else {
        r == Err::<Option<UtilisateurView>, ErrorView>(ErrorView::Unauthorized(MSG_ACCES_PROFIL@))
    }
}

/// Whether `r` is a result of listing the users over `store`, for an actor
/// with the given role. Anyone but a manager is refused without the store
/// being asked; for a manager the result is the store's answer as [`reported`].
pub open spec fn listing<R: UtilisateurSortie>(
    store: R,
    acting_role: Seq<char>,
    r: Result<Seq<UtilisateurView>, ErrorView>,
) -> bool {
    if is_manager(acting_role) {
        exists|answer: Result<Seq<UtilisateurView>, StoreErrorView>|
            #[trigger] store.answers_all(answer) && r == reported(answer)
    } else {
        r == Err::<Seq<UtilisateurView>, ErrorView>(ErrorView::Unauthorized(MSG_LISTE@))
    }
}

/// Whether `r` is a result of deleting the user `id` over `store`, for an
/// actor with the given role. Anyone but a manager is refused without the
/// store being asked; for a manager the result is the store's answer as
/// [`reported`].
pub open spec fn deletion<R: UtilisateurSortie>(
    store: R,
    id: u128,
    acting_role: Seq<char>,
    r: Result<(), ErrorView>,
) -> bool {
    if is_manager(acting_role) {
        exists|answer: Result<(), StoreErrorView>|
            #[trigger] store.answers_delete(id, answer) && r == reported(answer)
    } else {
        r == Err::<(), ErrorView>(ErrorView::Unauthorized(MSG_SUPPRESSION@))
    }
}

/// The last step of an update, from the store's answer to the lookup of the
/// id: a failure of the store is reported, and the `NotFound` of
/// [`updated_record`] is the result where no record is stored; otherwise the
/// store is asked to replace the record, and the result is its answer as
/// [`reported`].
pub open spec fn update_stored<R: UtilisateurSortie>(
    store: R,
    profile: UtilisateurView,
    blob: Seq<char>,
    lookup: Result<Option<UtilisateurView>, StoreErrorView>,
    r: Result<UtilisateurView, ErrorView>,
) -> bool {
    match lookup {
        Err(failure) => r == Err::<UtilisateurView, ErrorView>(storage_failure(failure)),
        Ok(stored) => match updated_record(profile, blob, stored) {
            Err(failure) => r == Err::<UtilisateurView, ErrorView>(failure),
            Ok(record) => replaced_by(store, record, r),
        },
    }
}

/// An update from the hasher's outcome on: a failure of the hasher is the
/// result; with a hash the store is asked for the record of the profile's id,
/// and the update goes on as [`update_stored`] says.
pub open spec fn update_hashed<R: UtilisateurSortie>(
    store: R,
    profile: UtilisateurView,
    hashed: Result<Seq<char>, ErrorView>,
    r: Result<UtilisateurView, ErrorView>,
) -> bool {
    match hashed {
        Err(failure) => r == Err::<UtilisateurView, ErrorView>(failure),
        Ok(blob) => exists|lookup: Result<Option<UtilisateurView>, StoreErrorView>|
            #[trigger] store.answers_par_id(profile.id, lookup) && update_stored(
                store,
                profile,
                blob,
                lookup,
                r,
            ),
    }
}

/// An update from the store's answer to the lookup of the email on: a failure
/// of the store is reported; a profile that breaks a rule is refused with the
/// reason of [`profile_refusal`], the email being in conflict when it belongs
/// to another record; otherwise the password is hashed and the update goes on
/// as [`update_hashed`] says.
pub open spec fn update_checked<R: UtilisateurSortie>(
    store: R,
    profile: UtilisateurView,
    lookup: Result<Option<UtilisateurView>, StoreErrorView>,
    r: Result<UtilisateurView, ErrorView>,
) -> bool {
    match lookup {
        Err(failure) => r == Err::<UtilisateurView, ErrorView>(storage_failure(failure)),
        Ok(holder) => match profile_refusal(profile, update_conflict(holder, profile.id)) {
            Some(reason) => r == Err::<UtilisateurView, ErrorView>(ErrorView::Validation(reason)),
            None => exists|hashed: Result<Seq<char>, ErrorView>|
                #[trigger] hash_outcome(profile.mot_de_passe, hashed) && update_hashed(
                    store,
                    profile,
                    hashed,
                    r,
                ),
        },
    }
}

/// Whether `r` is a result of updating to `profile` over `store`, for the
/// given actor. A request that is not allowed, and an allowed one with an empty
/// email, are refused without the store being asked; otherwise the store is
/// asked for the record under the email, and the update goes on as
/// [`update_checked`] says.
pub open spec fn update<R: UtilisateurSortie>(
    store: R,
    profile: UtilisateurView,
    acting_role: Seq<char>,
    acting_id: u128,
    r: Result<UtilisateurView, ErrorView>,
) -> bool {
    if !may_access_profile(acting_role, acting_id, profile.id) {
        r == Err::<UtilisateurView, ErrorView>(ErrorView::Unauthorized(MSG_MODIF_PROFIL@))
    } else if profile.email.len() == 0 {
        r == Err::<UtilisateurView, ErrorView>(ErrorView::Validation(MSG_EMAIL_VIDE@))
    } else {
        exists|lookup: Result<Option<UtilisateurView>, StoreErrorView>|
            #[trigger] store.answers_par_email(profile.email, lookup) && update_checked(
                store,
                profile,
                lookup,
                r,
            )
    }
}

/// The last step of a role change at the instant `now`, from the record the
/// store holds: the `NotFound` of [`role_changed`] is the result where no
/// record is stored; otherwise the store is asked to replace the record, and
/// the result is its answer as [`reported`].
pub open spec fn role_change_stored<R: UtilisateurSortie>(
    store: R,
    stored: Option<UtilisateurView>,
    new_role: Seq<char>,
    now: i64,
    r: Result<UtilisateurView, ErrorView>,
) -> bool {
    match role_changed(stored, new_role, now) {
        Err(failure) => r == Err::<UtilisateurView, ErrorView>(failure),
        Ok(record) => replaced_by(store, record, r),
    }
}

/// A role change from the store's answer to the lookup of the id on: a
/// failure of the store is reported; otherwise the change is made at some
/// instant, as [`role_change_stored`] says.
pub open spec fn role_change_found<R: UtilisateurSortie>(
    store: R,
    lookup: Result<Option<UtilisateurView>, StoreErrorView>,
    new_role: Seq<char>,
    r: Result<UtilisateurView, ErrorView>,
) -> bool {
    match lookup {
        Err(failure) => r == Err::<UtilisateurView, ErrorView>(storage_failure(failure)),
        Ok(stored) => exists|now: i64| #[trigger]
            role_change_stored(store, stored, new_role, now, r),
    }
}

/// Whether `r` is a result of changing the role of `user_id` to `new_role`
/// over `store`, for an actor with `acting_role`. The refusals of
/// [`role_change_refusal`] come without the store being asked; otherwise the
/// store is asked for the record, and the change goes on as
/// [`role_change_found`] says.
pub open spec fn role_change<R: UtilisateurSortie>(
    store: R,
    user_id: u128,
    new_role: Seq<char>,
    acting_role: Seq<char>,
    r: Result<UtilisateurView, ErrorView>,
) -> bool {
    match role_change_refusal(new_role, acting_role) {
        Some(failure) => r == Err::<UtilisateurView, ErrorView>(failure),
        None => exists|lookup: Result<Option<UtilisateurView>, StoreErrorView>|
            #[trigger] store.answers_par_id(user_id, lookup) && role_change_found(
                store,
                lookup,
                new_role,
                r,
            ),
    }
}

/// The identity service over a store `R`.
pub struct UtilisateurService<R: UtilisateurSortie> {
    repository: R,
}

impl<R: UtilisateurSortie> UtilisateurService<R> {
    /// The store the service works on.
    pub closed spec fn store(&self) -> R {
        self.repository
    }

    /// A service over the given store.
    pub fn new(repository: R) -> (service: Self)
        ensures
            service.store() == repository,
    {
        Self { repository }
    }

    /// Registers a user: checks the profile, hashes the password, assigns the
    /// starting role and stores the record. The result is exactly what
    /// [`registration`] describes.
    pub fn creer_utilisateur(&self, utilisateur: Utilisateur) -> (r: Result<Utilisateur, MyError>)
        ensures
            registration(self.store(), utilisateur@, result_view(r)),
    {
        if utilisateur.email.as_str().is_empty() {
            return Err(validation_error(MSG_EMAIL_VIDE));
        }
        let holder = match self.repository.obtenir_par_email(utilisateur.email.as_str()) {
            Ok(holder) => holder,
            Err(failure) => {
                return Err(report_store_failure(failure));
            },
        };
        check_registration(&utilisateur, &holder)?;
        let blob = hash_password(utilisateur.mot_de_passe.as_str())?;
        let record = registration_record(utilisateur, blob);
        report_record(self.repository.sauvegarder(&record))
    }

    /// Reads a profile. Allowed to a manager, and to anyone for their own
    /// profile. The result is exactly what [`reading`] describes.
    pub fn obtenir_utilisateur(&self, id: u128, current_role: &str, current_user_id: u128) -> (r:
        Result<Option<Utilisateur>, MyError>)
        ensures
            reading(self.store(), id, current_role@, current_user_id, found_result_view(r)),
    {
        check_profile_access(current_role, current_user_id, id, MSG_ACCES_PROFIL)?;
        report_lookup(self.repository.obtenir_par_id(id))
    }

    /// Updates a profile, under the same access rule as reading one. The
    /// fields are checked as on registration, the password is hashed anew on
    /// every update, and the role is taken from the stored record. The result
    /// is exactly what [`update`] describes.
    pub fn mettre_a_jour_utilisateur(
        &self,
        utilisateur: Utilisateur,
        current_role: &str,
        current_user_id: u128,
    ) -> (r: Result<Utilisateur, MyError>)
        ensures
            update(self.store(), utilisateur@, current_role@, current_user_id, result_view(r)),
    {
        check_profile_access(current_role, current_user_id, utilisateur.id, MSG_MODIF_PROFIL)?;
        if utilisateur.email.as_str().is_empty() {
            return Err(validation_error(MSG_EMAIL_VIDE));
        }
        let holder = match self.repository.obtenir_par_email(utilisateur.email.as_str()) {
            Ok(holder) => holder,
            Err(failure) => {
                return Err(report_store_failure(failure));
            },
        };
        check_update(&utilisateur, &holder)?;
        let blob = hash_password(utilisateur.mot_de_passe.as_str())?;
        let ghost profile = utilisateur@;
        let ghost hashed = Ok::<Seq<char>, ErrorView>(blob@);
        let answer = self.repository.obtenir_par_id(utilisateur.id);
        let ghost lookup = lookup_view(answer);
        let ghost hash = blob@;
        let r = match answer {
            Ok(stored) => {
                let ghost planned = updated_record(profile, hash, found_view(stored));
                match update_record(utilisateur, blob, stored) {
                    Ok(record) => {
                        let ghost asked = record@;
                        let written = self.repository.mettre_a_jour(&record);
                        let ghost given = record_view(written);
                        let r = report_record(written);
                        assert(planned == Ok::<UtilisateurView, ErrorView>(asked));
                        assert(self.store().answers_update(asked, given));
                        assert(replaced_by(self.store(), asked, result_view(r)));
                        r
                    },
                    Err(failure) => Err(failure),
                }
            },
            Err(failure) => Err(report_store_failure(failure)),
        };
        assert(update_stored(self.store(), profile, hash, lookup, result_view(r)));
        assert(update_hashed(self.store(), profile, hashed, result_view(r)));
        r
    }

    /// Deletes a user. Only a manager may. The result is exactly what
    /// [`deletion`] describes.
    pub fn supprimer_utilisateur(&self, id: u128, current_role: &str) -> (r: Result<(), MyError>)
        ensures
            deletion(self.store(), id, current_role@, unit_result_view(r)),
    {
        check_manager(current_role, MSG_SUPPRESSION)?;
        report_removal(self.repository.supprimer(id))
    }

    /// Lists all users. Only a manager may. The result is exactly what
    /// [`listing`] describes.
    pub fn lister_utilisateurs(&self, current_role: &str) -> (r: Result<Vec<Utilisateur>, MyError>)
        ensures
            listing(self.store(), current_role@, listing_result_view(r)),
    {
        check_manager(current_role, MSG_LISTE)?;
        report_listing(self.repository.obtenir_tous())
    }

    /// Authenticates by email and password. The result is exactly what
    /// [`authentication_via`] describes; an unknown email and a wrong password
    /// give one and the same failure.
    pub fn authentifier(&self, email: &str, mot_de_passe: &str) -> (r: Result<Utilisateur, MyError>)
        ensures
            authentication_via(self.store(), email@, mot_de_passe@, result_view(r)),
    {
        let answer = self.repository.obtenir_par_email(email);
        let ghost lookup = lookup_view(answer);
        let r = match answer {
            Ok(found) => authenticate_found(found, mot_de_passe),
            Err(failure) => Err(report_store_failure(failure)),
        };
        assert(result_view(r) == authentication_after(lookup, mot_de_passe@));
        r
    }

    /// Changes the role of a user. Only a manager may, and only to one of the
    /// two roles. The change touches the role and the update time, which
    /// becomes the current time. The result is exactly what [`role_change`]
    /// describes.
    pub fn changer_role(&self, user_id: u128, new_role: &str, current_role: &str) -> (r: Result<
        Utilisateur,
        MyError,
    >)
        ensures
            role_change(self.store(), user_id, new_role@, current_role@, result_view(r)),
    {
        check_role_change(new_role, current_role)?;
        let answer = self.repository.obtenir_par_id(user_id);
        let ghost lookup = lookup_view(answer);
        let stored = match answer {
            Ok(stored) => stored,
            Err(failure) => {
                let reported = report_store_failure(failure);
                assert(role_change_found(self.store(), lookup, new_role@, Err(reported@)));
                return Err(reported);
            },
        };
        let now = unix_now();
        let ghost held = found_view(stored);
        let ghost planned = role_changed(held, new_role@, now);
        let r = match role_change_record(stored, new_role, now) {
            Ok(record) => {
                let ghost asked = record@;
                let written = self.repository.mettre_a_jour(&record);
                let ghost given = record_view(written);
                let r = report_record(written);
                assert(planned == Ok::<UtilisateurView, ErrorView>(asked));
                assert(self.store().answers_update(asked, given));
                assert(replaced_by(self.store(), asked, result_view(r)));
                r
            },
            Err(failure) => Err(failure),
        };
        assert(role_change_stored(self.store(), held, new_role@, now, result_view(r)));
        assert(role_change_found(self.store(), lookup, new_role@, result_view(r)));
        r
    }
}

} // verus!
