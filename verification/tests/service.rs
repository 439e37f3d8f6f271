use std::cell::{Cell, RefCell};

use identity_core::error::MyError;
use identity_core::hasher::verify_password;
use identity_core::ports::{StoreError, UtilisateurSortie};
use identity_core::service::{
    authenticate_found, check_manager, check_profile, check_profile_access, check_registration,
    check_role_change, check_update, conclude_authentication, registration_record,
    report_lookup, report_record, report_store_failure, role_change_record, update_record,
    UtilisateurService,
};
use identity_core::user::Utilisateur;

/// A store in memory. It keeps ids and emails unique and counts the calls it gets.
struct MemoryStore {
    rows: RefCell<Vec<Utilisateur>>,
    calls: Cell<usize>,
    broken: Cell<bool>,
    /// When set, lookups by email find nothing: another writer is not yet visible.
    blind: Cell<bool>,
}

impl MemoryStore {
    fn new() -> Self {
        MemoryStore {
            rows: RefCell::new(Vec::new()),
            calls: Cell::new(0),
            broken: Cell::new(false),
            blind: Cell::new(false),
        }
    }

    fn enter(&self) -> Result<(), StoreError> {
        self.calls.set(self.calls.get() + 1);
        if self.broken.get() {
            Err(StoreError::Failure("connection lost".to_string()))
        } else {
            Ok(())
        }
    }
}

impl UtilisateurSortie for MemoryStore {
    fn sauvegarder(&self, utilisateur: &Utilisateur) -> Result<Utilisateur, StoreError> {
        self.enter()?;
        let mut rows = self.rows.borrow_mut();
        if rows.iter().any(|row| row.id == utilisateur.id || row.email == utilisateur.email) {
            return Err(StoreError::Conflict);
        }
        rows.push(utilisateur.clone());
        Ok(utilisateur.clone())
    }

    fn obtenir_par_id(&self, id: u128) -> Result<Option<Utilisateur>, StoreError> {
        self.enter()?;
        Ok(self.rows.borrow().iter().find(|row| row.id == id).cloned())
    }

    fn obtenir_par_email(&self, email: &str) -> Result<Option<Utilisateur>, StoreError> {
        self.enter()?;
        if self.blind.get() {
            return Ok(None);
        }
        Ok(self.rows.borrow().iter().find(|row| row.email == email).cloned())
    }

    fn obtenir_tous(&self) -> Result<Vec<Utilisateur>, StoreError> {
        self.enter()?;
        Ok(self.rows.borrow().clone())
    }

    fn mettre_a_jour(&self, utilisateur: &Utilisateur) -> Result<Utilisateur, StoreError> {
        self.enter()?;
        let mut rows = self.rows.borrow_mut();
        if rows.iter().any(|row| row.id != utilisateur.id && row.email == utilisateur.email) {
            return Err(StoreError::Conflict);
        }
        match rows.iter_mut().find(|row| row.id == utilisateur.id) {
            Some(row) => {
                *row = utilisateur.clone();
                Ok(utilisateur.clone())
            }
            None => Err(StoreError::Missing),
        }
    }

    fn supprimer(&self, id: u128) -> Result<(), StoreError> {
        self.enter()?;
        let mut rows = self.rows.borrow_mut();
        let before = rows.len();
        rows.retain(|row| row.id != id);
        if rows.len() == before {
            Err(StoreError::Missing)
        } else {
            Ok(())
        }
    }
}

/// A store that hands the service a reference, so that a test can look into it.
struct Shared<'a>(&'a MemoryStore);

impl<'a> UtilisateurSortie for Shared<'a> {
    fn sauvegarder(&self, utilisateur: &Utilisateur) -> Result<Utilisateur, StoreError> {
        self.0.sauvegarder(utilisateur)
    }

    fn obtenir_par_id(&self, id: u128) -> Result<Option<Utilisateur>, StoreError> {
        self.0.obtenir_par_id(id)
    }

    fn obtenir_par_email(&self, email: &str) -> Result<Option<Utilisateur>, StoreError> {
        self.0.obtenir_par_email(email)
    }

    fn obtenir_tous(&self) -> Result<Vec<Utilisateur>, StoreError> {
        self.0.obtenir_tous()
    }

    fn mettre_a_jour(&self, utilisateur: &Utilisateur) -> Result<Utilisateur, StoreError> {
        self.0.mettre_a_jour(utilisateur)
    }

    fn supprimer(&self, id: u128) -> Result<(), StoreError> {
        self.0.supprimer(id)
    }
}

fn profile(id: u128, email: &str, password: &str) -> Utilisateur {
    Utilisateur {
        id,
        email: email.to_string(),
        mot_de_passe: password.to_string(),
        prenom: "A".to_string(),
        nom: "B".to_string(),
        role: "utilisateur".to_string(),
        date_creation: 1_700_000_000,
        date_update: 1_700_000_000,
    }
}

fn stored(id: u128, email: &str, role: &str) -> Utilisateur {
    let mut user = profile(id, email, "$2b$12$not-a-real-hash");
    user.role = role.to_string();
    user
}

fn validation<T: std::fmt::Debug>(r: Result<T, MyError>) -> String {
    match r {
        Err(MyError::Validation(detail)) => detail,
        other => panic!("expected Validation, got {:?}", other),
    }
}

fn unauthorized<T: std::fmt::Debug>(r: Result<T, MyError>) -> String {
    match r {
        Err(MyError::Unauthorized(detail)) => detail,
        other => panic!("expected Unauthorized, got {:?}", other),
    }
}

fn not_found<T: std::fmt::Debug>(r: Result<T, MyError>) -> String {
    match r {
        Err(MyError::NotFound(detail)) => detail,
        other => panic!("expected NotFound, got {:?}", other),
    }
}

#[test]
fn scenario_register_then_change_role() {
    let store = MemoryStore::new();
    let service = UtilisateurService::new(Shared(&store));
    let created = service.creer_utilisateur(profile(7, "a@x.com", "password1")).unwrap();
    assert_eq!(created.id, 7);
    assert_eq!(created.role, "utilisateur");
    assert_eq!(created.email, "a@x.com");
    assert_eq!(created.prenom, "A");
    assert_eq!(created.nom, "B");
    assert_ne!(created.mot_de_passe, "password1");

    assert_eq!(
        unauthorized(service.changer_role(7, "gerant", "utilisateur")),
        "Seul un gérant peut modifier un rôle"
    );
    assert_eq!(store.rows.borrow()[0].role, "utilisateur");

    let promoted = service.changer_role(7, "gerant", "gerant").unwrap();
    assert_eq!(promoted.role, "gerant");
    assert_eq!(promoted.id, 7);
    assert_eq!(promoted.email, "a@x.com");
    assert_eq!(promoted.mot_de_passe, created.mot_de_passe);
    assert_eq!(promoted.date_creation, created.date_creation);
    assert_eq!(store.rows.borrow()[0].role, "gerant");
}

#[test]
fn scenario_register_twice_with_the_same_email() {
    let store = MemoryStore::new();
    let service = UtilisateurService::new(Shared(&store));
    service.creer_utilisateur(profile(1, "a@x.com", "password1")).unwrap();
    assert_eq!(
        validation(service.creer_utilisateur(profile(2, "a@x.com", "password2"))),
        "L'email est déjà utilisé"
    );
    assert_eq!(store.rows.borrow().len(), 1);
}

#[test]
fn registered_user_authenticates_with_the_same_id() {
    let store = MemoryStore::new();
    let service = UtilisateurService::new(Shared(&store));
    let created = service.creer_utilisateur(profile(42, "a@x.com", "password1")).unwrap();
    let found = service.authentifier("a@x.com", "password1").unwrap();
    assert_eq!(found.id, created.id);
    assert_eq!(found, created);
}

#[test]
fn wrong_password_and_unknown_email_fail_alike() {
    let store = MemoryStore::new();
    let service = UtilisateurService::new(Shared(&store));
    service.creer_utilisateur(profile(42, "a@x.com", "password1")).unwrap();
    let wrong = unauthorized(service.authentifier("a@x.com", "password2"));
    let unknown = unauthorized(service.authentifier("b@x.com", "password1"));
    assert_eq!(wrong, "Email ou mot de passe incorrect");
    assert_eq!(wrong, unknown);
}

#[test]
fn stored_password_is_a_hash_of_the_plain_one() {
    let store = MemoryStore::new();
    let service = UtilisateurService::new(Shared(&store));
    let created = service.creer_utilisateur(profile(1, "a@x.com", "password1")).unwrap();
    assert_eq!(created.mot_de_passe.len(), 60);
    assert!(created.mot_de_passe.starts_with("$2b$12$"));
    assert_eq!(verify_password("password1", &created.mot_de_passe).unwrap(), true);
    assert_eq!(store.rows.borrow()[0].mot_de_passe, created.mot_de_passe);
}

#[test]
fn registration_always_starts_as_member() {
    let store = MemoryStore::new();
    let service = UtilisateurService::new(Shared(&store));
    let mut asked = profile(1, "a@x.com", "password1");
    asked.role = "gerant".to_string();
    assert_eq!(service.creer_utilisateur(asked).unwrap().role, "utilisateur");
    let mut blank = profile(2, "b@x.com", "password1");
    blank.role = String::new();
    assert_eq!(service.creer_utilisateur(blank).unwrap().role, "utilisateur");
}

#[test]
fn registration_refusals() {
    let store = MemoryStore::new();
    let service = UtilisateurService::new(Shared(&store));
    assert_eq!(
        validation(service.creer_utilisateur(profile(1, "", "password1"))),
        "L'email ne peut pas être vide"
    );
    assert_eq!(store.calls.get(), 0);
    assert_eq!(
        validation(service.creer_utilisateur(profile(1, "a@x.com", "passwor"))),
        "Le mot de passe doit avoir au moins 8 caractères"
    );
    let mut no_given = profile(1, "a@x.com", "password1");
    no_given.prenom = String::new();
    assert_eq!(validation(service.creer_utilisateur(no_given)), "Le prénom ne peut pas être vide");
    let mut no_family = profile(1, "a@x.com", "password1");
    no_family.nom = String::new();
    assert_eq!(validation(service.creer_utilisateur(no_family)), "Le nom ne peut pas être vide");
    let mut bad_role = profile(1, "a@x.com", "password1");
    bad_role.role = "admin".to_string();
    assert_eq!(validation(service.creer_utilisateur(bad_role)), "Rôle invalide");
    assert!(store.rows.borrow().is_empty());
}

#[test]
fn check_profile_order_and_boundaries() {
    let ok = profile(1, "a@x.com", "12345678");
    assert!(check_profile(&ok, false).is_ok());
    assert_eq!(validation(check_profile(&ok, true)), "L'email est déjà utilisé");
    let short = profile(1, "a@x.com", "1234567");
    assert_eq!(
        validation(check_profile(&short, false)),
        "Le mot de passe doit avoir au moins 8 caractères"
    );
    // the conflict is reported before the password
    assert_eq!(validation(check_profile(&short, true)), "L'email est déjà utilisé");
    // the empty email before everything else
    let mut empty = profile(1, "", "1");
    empty.prenom = String::new();
    assert_eq!(validation(check_profile(&empty, true)), "L'email ne peut pas être vide");
    // length counts characters, not bytes
    let accents = profile(1, "a@x.com", "éééééééé");
    assert!(check_profile(&accents, false).is_ok());
    let few = profile(1, "a@x.com", "éééé");
    assert!(check_profile(&few, false).is_err());
}

#[test]
fn check_registration_cases() {
    let ok = profile(1, "a@x.com", "password1");
    assert!(check_registration(&ok, &None).is_ok());
    let other = stored(2, "a@x.com", "utilisateur");
    assert_eq!(validation(check_registration(&ok, &Some(other))), "L'email est déjà utilisé");
    let same = stored(1, "a@x.com", "utilisateur");
    assert_eq!(validation(check_registration(&ok, &Some(same))), "L'email est déjà utilisé");
    let mut bad_role = profile(1, "a@x.com", "password1");
    bad_role.role = "Gerant".to_string();
    assert_eq!(validation(check_registration(&bad_role, &None)), "Rôle invalide");
}

#[test]
fn registration_record_replaces_password_and_role() {
    let mut asked = profile(9, "a@x.com", "password1");
    asked.role = "gerant".to_string();
    asked.date_update = 5;
    let record = registration_record(asked, "HASH".to_string());
    let mut expected = profile(9, "a@x.com", "HASH");
    expected.date_update = 5;
    assert_eq!(record, expected);
}

#[test]
fn conclude_authentication_cases() {
    let user = stored(1, "a@x.com", "utilisateur");
    assert_eq!(conclude_authentication(user.clone(), Ok(true)).unwrap(), user);
    assert_eq!(
        unauthorized(conclude_authentication(user.clone(), Ok(false))),
        "Email ou mot de passe incorrect"
    );
    match conclude_authentication(user, Err(MyError::Custom("x".to_string()))) {
        Err(MyError::Custom(detail)) => assert_eq!(detail, "x"),
        other => panic!("unexpected {:?}", other),
    }
}

#[test]
fn authenticate_found_cases() {
    assert_eq!(unauthorized(authenticate_found(None, "password1")), "Email ou mot de passe incorrect");
    let broken = stored(1, "a@x.com", "utilisateur");
    match authenticate_found(Some(broken), "password1") {
        Err(MyError::Custom(detail)) => {
            assert_eq!(detail, "Erreur de vérification du mot de passe")
        }
        other => panic!("unexpected {:?}", other),
    }
    // a known hash of "hunter2" at cost 4
    let mut known = stored(1, "a@x.com", "utilisateur");
    known.mot_de_passe = bcrypt::hash("hunter2", 4).unwrap();
    assert_eq!(authenticate_found(Some(known.clone()), "hunter2").unwrap(), known);
    assert_eq!(
        unauthorized(authenticate_found(Some(known), "hunter3")),
        "Email ou mot de passe incorrect"
    );
}

#[test]
fn self_versus_other() {
    let store = MemoryStore::new();
    store.rows.borrow_mut().push(stored(1, "a@x.com", "utilisateur"));
    store.rows.borrow_mut().push(stored(2, "b@x.com", "utilisateur"));
    let service = UtilisateurService::new(Shared(&store));
    // getUser(idB, "member", idA)
    assert_eq!(
        unauthorized(service.obtenir_utilisateur(2, "utilisateur", 1)),
        "Vous ne pouvez accéder qu'à votre propre profil"
    );
    assert_eq!(store.calls.get(), 0);
    // getUser(idA, "member", idA)
    assert_eq!(service.obtenir_utilisateur(1, "utilisateur", 1).unwrap().unwrap().id, 1);
    // getUser(idB, "manager", idA)
    assert_eq!(service.obtenir_utilisateur(2, "gerant", 1).unwrap().unwrap().id, 2);
    // an absent target is no failure
    assert_eq!(service.obtenir_utilisateur(3, "gerant", 1).unwrap(), None);
}

#[test]
fn access_checks() {
    assert!(check_profile_access("utilisateur", 1, 1, "no").is_ok());
    assert!(check_profile_access("gerant", 1, 2, "no").is_ok());
    assert!(check_profile_access("", 5, 5, "no").is_ok());
    assert_eq!(unauthorized(check_profile_access("utilisateur", 1, 2, "no")), "no");
    assert_eq!(unauthorized(check_profile_access("Gerant", 1, 2, "no")), "no");
    assert!(check_manager("gerant", "no").is_ok());
    assert_eq!(unauthorized(check_manager("utilisateur", "no")), "no");
    assert_eq!(unauthorized(check_manager("", "managers only")), "managers only");
}

#[test]
fn update_rehashes_and_keeps_the_stored_role() {
    let store = MemoryStore::new();
    store.rows.borrow_mut().push(stored(1, "a@x.com", "utilisateur"));
    let service = UtilisateurService::new(Shared(&store));
    let mut incoming = profile(1, "new@x.com", "password9");
    incoming.role = "gerant".to_string();
    incoming.prenom = "Ada".to_string();
    let updated = service.mettre_a_jour_utilisateur(incoming, "utilisateur", 1).unwrap();
    assert_eq!(updated.role, "utilisateur");
    assert_eq!(updated.email, "new@x.com");
    assert_eq!(updated.prenom, "Ada");
    assert_eq!(updated.mot_de_passe.len(), 60);
    assert_eq!(verify_password("password9", &updated.mot_de_passe).unwrap(), true);
    assert_eq!(store.rows.borrow()[0], updated);
}

#[test]
fn update_refusals() {
    let store = MemoryStore::new();
    store.rows.borrow_mut().push(stored(1, "a@x.com", "utilisateur"));
    store.rows.borrow_mut().push(stored(2, "b@x.com", "utilisateur"));
    let service = UtilisateurService::new(Shared(&store));
    assert_eq!(
        unauthorized(service.mettre_a_jour_utilisateur(profile(2, "c@x.com", "password1"), "utilisateur", 1)),
        "Vous ne pouvez modifier que votre propre profil"
    );
    assert_eq!(store.calls.get(), 0);
    assert_eq!(
        validation(service.mettre_a_jour_utilisateur(profile(1, "", "password1"), "utilisateur", 1)),
        "L'email ne peut pas être vide"
    );
    assert_eq!(store.calls.get(), 0);
    assert_eq!(
        validation(service.mettre_a_jour_utilisateur(profile(1, "b@x.com", "password1"), "utilisateur", 1)),
        "L'email est déjà utilisé"
    );
    assert_eq!(
        validation(service.mettre_a_jour_utilisateur(profile(1, "a@x.com", "short"), "utilisateur", 1)),
        "Le mot de passe doit avoir au moins 8 caractères"
    );
    assert_eq!(store.rows.borrow()[0], stored(1, "a@x.com", "utilisateur"));
}

#[test]
fn update_of_an_absent_user_is_not_found() {
    let store = MemoryStore::new();
    let service = UtilisateurService::new(Shared(&store));
    assert_eq!(
        not_found(service.mettre_a_jour_utilisateur(profile(5, "a@x.com", "password1"), "gerant", 1)),
        "Utilisateur non trouvé"
    );
}

#[test]
fn check_update_allows_keeping_the_own_email() {
    let incoming = profile(1, "a@x.com", "password1");
    assert!(check_update(&incoming, &None).is_ok());
    assert!(check_update(&incoming, &Some(stored(1, "a@x.com", "gerant"))).is_ok());
    assert_eq!(
        validation(check_update(&incoming, &Some(stored(2, "a@x.com", "gerant")))),
        "L'email est déjà utilisé"
    );
}

#[test]
fn update_record_cases() {
    let mut incoming = profile(1, "a@x.com", "password1");
    incoming.role = "gerant".to_string();
    let record =
        update_record(incoming.clone(), "HASH".to_string(), Some(stored(1, "old@x.com", "utilisateur")))
            .unwrap();
    assert_eq!(record, profile(1, "a@x.com", "HASH"));
    assert_eq!(not_found(update_record(incoming, "HASH".to_string(), None)), "Utilisateur non trouvé");
}

#[test]
fn role_change_checks() {
    assert!(check_role_change("gerant", "gerant").is_ok());
    assert!(check_role_change("utilisateur", "gerant").is_ok());
    assert_eq!(
        unauthorized(check_role_change("gerant", "utilisateur")),
        "Seul un gérant peut modifier un rôle"
    );
    // the actor is judged before the new role
    assert_eq!(
        unauthorized(check_role_change("admin", "utilisateur")),
        "Seul un gérant peut modifier un rôle"
    );
    assert_eq!(validation(check_role_change("admin", "gerant")), "Rôle invalide");
    assert_eq!(validation(check_role_change("", "gerant")), "Rôle invalide");
}

#[test]
fn role_change_touches_role_and_update_time_only() {
    let before = stored(1, "a@x.com", "gerant");
    let after = role_change_record(Some(before.clone()), "utilisateur", 1_800_000_000).unwrap();
    let mut expected = before;
    expected.role = "utilisateur".to_string();
    expected.date_update = 1_800_000_000;
    assert_eq!(after, expected);
    assert_eq!(not_found(role_change_record(None, "gerant", 0)), "Utilisateur non trouvé");
}

#[test]
fn role_change_refusals_and_absent_target() {
    let store = MemoryStore::new();
    let service = UtilisateurService::new(Shared(&store));
    assert_eq!(validation(service.changer_role(1, "admin", "gerant")), "Rôle invalide");
    assert_eq!(store.calls.get(), 0);
    assert_eq!(not_found(service.changer_role(1, "gerant", "gerant")), "Utilisateur non trouvé");
}

#[test]
fn delete_is_for_managers() {
    let store = MemoryStore::new();
    store.rows.borrow_mut().push(stored(1, "a@x.com", "utilisateur"));
    let service = UtilisateurService::new(Shared(&store));
    assert_eq!(
        unauthorized(service.supprimer_utilisateur(1, "utilisateur")),
        "Seul un gérant peut supprimer un utilisateur"
    );
    assert_eq!(store.rows.borrow().len(), 1);
    assert!(service.supprimer_utilisateur(1, "gerant").is_ok());
    assert!(store.rows.borrow().is_empty());
    assert_eq!(not_found(service.supprimer_utilisateur(1, "gerant")), "Utilisateur non trouvé");
}

#[test]
fn list_is_for_managers() {
    let store = MemoryStore::new();
    store.rows.borrow_mut().push(stored(1, "a@x.com", "utilisateur"));
    store.rows.borrow_mut().push(stored(2, "b@x.com", "gerant"));
    let service = UtilisateurService::new(Shared(&store));
    assert_eq!(
        unauthorized(service.lister_utilisateurs("utilisateur")),
        "Seul un gérant peut lister les utilisateurs"
    );
    assert_eq!(store.calls.get(), 0);
    let all = service.lister_utilisateurs("gerant").unwrap();
    assert_eq!(all.iter().map(|user| user.id).collect::<Vec<_>>(), vec![1, 2]);
}

#[test]
fn storage_failures_come_back_unchanged() {
    let store = MemoryStore::new();
    store.broken.set(true);
    let service = UtilisateurService::new(Shared(&store));
    let database = |r: Result<(), MyError>| match r {
        Err(MyError::Database(detail)) => assert_eq!(detail, "connection lost"),
        other => panic!("unexpected {:?}", other),
    };
    database(service.creer_utilisateur(profile(1, "a@x.com", "password1")).map(|_| ()));
    database(service.authentifier("a@x.com", "password1").map(|_| ()));
    database(service.obtenir_utilisateur(1, "gerant", 2).map(|_| ()));
    database(service.mettre_a_jour_utilisateur(profile(1, "a@x.com", "password1"), "gerant", 2).map(|_| ()));
    database(service.changer_role(1, "gerant", "gerant").map(|_| ()));
    database(service.supprimer_utilisateur(1, "gerant"));
    database(service.lister_utilisateurs("gerant").map(|_| ()));
}

#[test]
fn conflict_at_write_time_is_a_validation_failure() {
    let store = MemoryStore::new();
    let service = UtilisateurService::new(Shared(&store));
    service.creer_utilisateur(profile(1, "a@x.com", "password1")).unwrap();
    // a second registration whose lookup does not yet see the first
    store.blind.set(true);
    assert_eq!(
        validation(service.creer_utilisateur(profile(2, "a@x.com", "password2"))),
        "L'email est déjà utilisé"
    );
    assert_eq!(store.rows.borrow().len(), 1);
    // the same on an update that takes the email of another record
    store.rows.borrow_mut().push(stored(3, "c@x.com", "utilisateur"));
    assert_eq!(
        validation(service.mettre_a_jour_utilisateur(profile(3, "a@x.com", "password3"), "gerant", 9)),
        "L'email est déjà utilisé"
    );
}

#[test]
fn store_failures_are_reported_by_kind() {
    assert!(matches!(
        report_store_failure(StoreError::Conflict),
        MyError::Validation(d) if d == "L'email est déjà utilisé"
    ));
    assert!(matches!(
        report_store_failure(StoreError::Missing),
        MyError::NotFound(d) if d == "Utilisateur non trouvé"
    ));
    assert!(matches!(
        report_store_failure(StoreError::Failure("disk full".to_string())),
        MyError::Database(d) if d == "disk full"
    ));
    assert_eq!(report_record(Ok(stored(1, "a@x.com", "gerant"))).unwrap().id, 1);
    assert_eq!(not_found(report_record(Err(StoreError::Missing))), "Utilisateur non trouvé");
    assert_eq!(report_lookup(Ok(None)).unwrap(), None);
    assert_eq!(validation(report_lookup(Err(StoreError::Conflict))), "L'email est déjà utilisé");
}

#[test]
fn storage_failure_shows_no_detail_to_the_caller() {
    let store = MemoryStore::new();
    store.broken.set(true);
    let service = UtilisateurService::new(Shared(&store));
    let failure = service.lister_utilisateurs("gerant").unwrap_err();
    assert_eq!(failure.status_code(), 500);
    assert_eq!(failure.to_string(), "Database error");
    assert!(!failure.to_string().contains("connection lost"));
}
