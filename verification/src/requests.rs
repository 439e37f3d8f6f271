//! The payloads of the HTTP surface and the rules they must meet before they
//! reach the service.

use vstd::prelude::*;
use vstd::string::StringExecFns;
use crate::error::{fails_with, ErrorView, MyError};
use crate::roles::ROLE_UTILISATEUR;
use crate::service::MIN_PASSWORD_LEN;
use crate::user::{Utilisateur, UtilisateurView};

verus! {

pub const LIGNE_EMAIL: &'static str = "email: L'email doit être valide";

pub const LIGNE_MOT_DE_PASSE: &'static str =
    "mot_de_passe: Le mot de passe doit avoir au moins 8 caractères";

pub const LIGNE_PRENOM: &'static str = "prenom: Le prénom ne peut pas être vide";

pub const LIGNE_NOM: &'static str = "nom: Le nom ne peut pas être vide";

pub const LIGNE_ROLE: &'static str = "role: Le rôle ne peut pas être vide";

/// What separates two lines of a validation report.
pub const SAUT: &'static str = "\n";

/// Whether `validator` takes the text for an email address.
pub uninterp spec fn email_well_formed(text: Seq<char>) -> bool;

/// Tests an email address with `validator::ValidateEmail::validate_email`.
/// The contract names the outcome.
#[verifier::external_body]
pub(crate) fn validate_email(text: &str) -> (ok: bool)
    ensures
        ok == email_well_formed(text@),
{
    validator::ValidateEmail::validate_email(&text)
}

/// The body of a request that creates or updates a user.
#[derive(Debug)]
pub struct UtilisateurRequest {
    pub email: String,
    pub mot_de_passe: String,
    pub prenom: String,
    pub nom: String,
}

/// The body of a login request.
#[derive(Debug)]
pub struct LoginRequest {
    pub email: String,
    pub mot_de_passe: String,
}

/// The body of a request that changes a role.
#[derive(Debug)]
pub struct UpdateRoleRequest {
    pub role: String,
}

/// The mathematical content of a [`UtilisateurRequest`].
pub ghost struct UtilisateurRequestView {
    pub email: Seq<char>,
    pub mot_de_passe: Seq<char>,
    pub prenom: Seq<char>,
    pub nom: Seq<char>,
}

impl View for UtilisateurRequest {
    type V = UtilisateurRequestView;

    open spec fn view(&self) -> UtilisateurRequestView {
        UtilisateurRequestView {
            email: self.email@,
            mot_de_passe: self.mot_de_passe@,
            prenom: self.prenom@,
            nom: self.nom@,
        }
    }
}

/// `report` with `line` added on a line of its own when `failed`.
pub open spec fn with_line(report: Seq<char>, failed: bool, line: Seq<char>) -> Seq<char> {
    if !failed {
        report
    } else if report.len() == 0 {
        line
    } else {
        report + SAUT@ + line
    }
}

/// The validation report of a user request: one line for each field that
/// breaks its rule, in the order email, password, given name, family name.
/// The email must be well formed, the password at least 8 characters long,
/// both names present. An empty report means that the request is valid.
pub open spec fn request_report(request: UtilisateurRequestView) -> Seq<char> {
    let r0 = with_line(Seq::empty(), !email_well_formed(request.email), LIGNE_EMAIL@);
    let r1 = with_line(r0, request.mot_de_passe.len() < MIN_PASSWORD_LEN, LIGNE_MOT_DE_PASSE@);
    let r2 = with_line(r1, request.prenom.len() == 0, LIGNE_PRENOM@);
    with_line(r2, request.nom.len() == 0, LIGNE_NOM@)
}

/// Adds a line to a report when a rule failed; see [`with_line`].
pub fn add_line(report: String, failed: bool, line: &str) -> (extended: String)
    ensures
        extended@ == with_line(report@, failed, line@),
{
    if !failed {
        report
    } else if report.as_str().is_empty() {
        String::from_str(line)
    } else {
        report.concat(SAUT).concat(line)
    }
}

/// The outcome of a validation with the given report.
pub open spec fn report_outcome(report: Seq<char>) -> Result<(), ErrorView> {
    if report.len() == 0 {
        Ok(())
    } else {
        Err(ErrorView::Validation(report))
    }
}

/// Turns a report into the outcome of the validation.
pub fn conclude_report(report: String) -> (r: Result<(), MyError>)
    ensures
        match report_outcome(report@) {
            Ok(_) => r is Ok,
            Err(failure) => fails_with(r, failure),
        },
{
    if report.as_str().is_empty() {
        Ok(())
    } else {
        Err(MyError::Validation(report))
    }
}

/// The record a valid creation request stands for, under the given id and
/// created at `now`: the password still plain, the starting role.
pub open spec fn created_view(request: UtilisateurRequestView, id: u128, now: i64)
    -> UtilisateurView {
    UtilisateurView {
        id,
        email: request.email,
        mot_de_passe: request.mot_de_passe,
        prenom: request.prenom,
        nom: request.nom,
        role: ROLE_UTILISATEUR@,
        date_creation: now,
        date_update: now,
    }
}

/// The record an update request stands for: the target's id, the fields of
/// the request, the creation time and role of the acting user, updated at `now`.
pub open spec fn update_view(
    request: UtilisateurRequestView,
    id: u128,
    acting: UtilisateurView,
    now: i64,
) -> UtilisateurView {
    UtilisateurView {
        id,
        email: request.email,
        mot_de_passe: request.mot_de_passe,
        prenom: request.prenom,
        nom: request.nom,
        role: acting.role,
        date_creation: acting.date_creation,
        date_update: now,
    }
}

impl UtilisateurRequest {
    /// Validates the request; see [`request_report`]. A request that breaks a
    /// rule is refused as `Validation`, with the report as detail.
    pub fn validate(&self) -> (r: Result<(), MyError>)
        ensures
            match report_outcome(request_report(self@)) {
                Ok(_) => r is Ok,
                Err(failure) => fails_with(r, failure),
            },
    {
        let report = String::new();
        let report = add_line(report, !validate_email(self.email.as_str()), LIGNE_EMAIL);
        let report = add_line(
            report,
            self.mot_de_passe.as_str().unicode_len() < MIN_PASSWORD_LEN,
            LIGNE_MOT_DE_PASSE,
        );
        let report = add_line(report, self.prenom.as_str().is_empty(), LIGNE_PRENOM);
        let report = add_line(report, self.nom.as_str().is_empty(), LIGNE_NOM);
        conclude_report(report)
    }

    /// The record to register for this request; see [`created_view`].
    pub fn into_new_user(self, id: u128, now: i64) -> (user: Utilisateur)
        ensures
            user@ == created_view(self@, id, now),
    {
        Utilisateur {
            id,
            email: self.email,
            mot_de_passe: self.mot_de_passe,
            prenom: self.prenom,
            nom: self.nom,
            role: String::from_str(ROLE_UTILISATEUR),
            date_creation: now,
            date_update: now,
        }
    }

    /// The record to store for this request on an update of the user `id`;
    /// see [`update_view`].
    pub fn into_update(self, id: u128, acting: &Utilisateur, now: i64) -> (user: Utilisateur)
        ensures
            user@ == update_view(self@, id, acting@, now),
    {
        Utilisateur {
            id,
            email: self.email,
            mot_de_passe: self.mot_de_passe,
            prenom: self.prenom,
            nom: self.nom,
            role: acting.role.clone(),
            date_creation: acting.date_creation,
            date_update: now,
        }
    }
}

impl UpdateRoleRequest {
    /// Validates the request: the role must not be empty.
    pub fn validate(&self) -> (r: Result<(), MyError>)
        ensures
            match report_outcome(with_line(Seq::empty(), self.role@.len() == 0, LIGNE_ROLE@)) {
                Ok(_) => r is Ok,
                Err(failure) => fails_with(r, failure),
            },
    {
        let report = add_line(String::new(), self.role.as_str().is_empty(), LIGNE_ROLE);
        conclude_report(report)
    }
}

} // verus!
