use identity_core::catalogue::{
    verifier_existence, Adresse, ArticlePanier, Categorie, ImageProduit, Notification, Panier,
    Utilisateur as Compte,
};
use identity_core::commerce::{AppError, OrderError, TypeNotification};
use identity_core::error::{not_found_error, unauthorized_error, validation_error, MyError};
use identity_core::hasher::{hash_password, hashing_failure, verdict_of, verify_password};
use identity_core::requests::{UpdateRoleRequest, UtilisateurRequest};
use identity_core::roles::{est_gerant, role_connu, ROLE_GERANT, ROLE_UTILISATEUR};
use identity_core::text::{contains_char, same_text, strip_prefix, strip_suffix};
use identity_core::user::{CreateUser, UpdateUser, Utilisateur};

fn custom<T: std::fmt::Debug>(r: Result<T, MyError>) -> String {
    match r {
        Err(MyError::Custom(detail)) => detail,
        other => panic!("expected Custom, got {:?}", other),
    }
}

fn validation<T: std::fmt::Debug>(r: Result<T, MyError>) -> String {
    match r {
        Err(MyError::Validation(detail)) => detail,
        other => panic!("expected Validation, got {:?}", other),
    }
}

fn request(email: &str, password: &str, given: &str, family: &str) -> UtilisateurRequest {
    UtilisateurRequest {
        email: email.to_string(),
        mot_de_passe: password.to_string(),
        prenom: given.to_string(),
        nom: family.to_string(),
    }
}

#[test]
fn errors_render_with_their_label() {
    assert_eq!(MyError::Database("x".to_string()).to_string(), "Database error");
    let internal = "relation utilisateurs: connection refused at 10.0.0.5";
    assert_eq!(MyError::Database(internal.to_string()).to_string(), "Database error");
    assert_eq!(MyError::BadRequest("x".to_string()).to_string(), "bad reqwest : x");
    assert_eq!(MyError::NotFound("x".to_string()).to_string(), "Not found: x");
    assert_eq!(MyError::Unauthorized("x".to_string()).to_string(), "Unauthorized: x");
    assert_eq!(MyError::Validation("x".to_string()).to_string(), "Validation error: x");
    assert_eq!(MyError::Custom("".to_string()).to_string(), "Custom error: ");
}

#[test]
fn errors_map_to_status_codes() {
    assert_eq!(MyError::Database(String::new()).status_code(), 500);
    assert_eq!(MyError::BadRequest(String::new()).status_code(), 400);
    assert_eq!(MyError::NotFound(String::new()).status_code(), 404);
    assert_eq!(MyError::Unauthorized(String::new()).status_code(), 401);
    assert_eq!(MyError::Validation(String::new()).status_code(), 400);
    assert_eq!(MyError::Custom(String::new()).status_code(), 500);
}

#[test]
fn error_constructors() {
    assert!(matches!(validation_error("a"), MyError::Validation(d) if d == "a"));
    assert!(matches!(not_found_error("b"), MyError::NotFound(d) if d == "b"));
    assert!(matches!(unauthorized_error("c"), MyError::Unauthorized(d) if d == "c"));
}

#[test]
fn text_comparisons() {
    assert!(same_text("", ""));
    assert!(same_text("gérant", "gérant"));
    assert!(!same_text("gerant", "Gerant"));
    assert!(!same_text("a", "ab"));
    assert_eq!(strip_prefix("Bearer abc", "Bearer "), Some("abc"));
    assert_eq!(strip_prefix("abc", ""), Some("abc"));
    assert_eq!(strip_prefix("abc", "abc"), Some(""));
    assert_eq!(strip_prefix("ab", "abc"), None);
    assert_eq!(strip_prefix("xbc", "a"), None);
    assert_eq!(strip_prefix("élan", "é"), Some("lan"));
    assert_eq!(strip_prefix("elan", "é"), None);
    assert_eq!(strip_suffix("/utilisateurs/5/role", "/role"), Some("/utilisateurs/5"));
    assert_eq!(strip_suffix("abc", ""), Some("abc"));
    assert_eq!(strip_suffix("abc", "abc"), Some(""));
    assert_eq!(strip_suffix("bc", "abc"), None);
    assert_eq!(strip_suffix("abd", "c"), None);
    assert_eq!(strip_suffix("café", "é"), Some("caf"));
    assert!(contains_char("a/b", '/'));
    assert!(contains_char("/", '/'));
    assert!(contains_char("été", 'é'));
    assert!(!contains_char("", '/'));
    assert!(!contains_char("abc", '/'));
}

#[test]
fn roles() {
    assert_eq!(ROLE_UTILISATEUR, "utilisateur");
    assert_eq!(ROLE_GERANT, "gerant");
    assert!(role_connu("utilisateur"));
    assert!(role_connu("gerant"));
    assert!(!role_connu(""));
    assert!(!role_connu("admin"));
    assert!(!role_connu("GERANT"));
    assert!(est_gerant("gerant"));
    assert!(!est_gerant("utilisateur"));
    assert!(!est_gerant("gerant "));
}

#[test]
fn hash_is_salted_and_verifies() {
    let first = hash_password("password1").unwrap();
    assert_eq!(first.len(), 60);
    assert!(first.starts_with("$2b$12$"));
    assert_ne!(first, "password1");
    assert_eq!(verify_password("password1", &first).unwrap(), true);
    assert_eq!(verify_password("password2", &first).unwrap(), false);
}

#[test]
fn two_hashes_of_one_password_differ() {
    let first = hash_password("password1").unwrap();
    let second = hash_password("password1").unwrap();
    assert_ne!(first, second);
}

#[test]
fn verify_against_known_hashes() {
    // reference vector: "hunter2" hashed elsewhere
    let known = "$2y$12$L6Bc/AlTQHyd9liGgGEZyOFLPHNgyxeEPfgYfBCVxJ7JIlwxyVU3u";
    assert_eq!(verify_password("hunter2", known).unwrap(), true);
    assert_eq!(verify_password("hunter3", known).unwrap(), false);
}

#[test]
fn unreadable_hash_is_a_custom_failure() {
    for blob in ["", "password1", "$2b$12$short", "$9z$12$L6Bc/AlTQHyd9liGgGEZyOFLPHNgyxeEPfgYfBCVxJ7JIlwxyVU3u"] {
        assert_eq!(
            custom(verify_password("password1", blob)),
            "Erreur de vérification du mot de passe",
            "{:?}",
            blob
        );
    }
}

#[test]
fn hasher_answers_are_mapped() {
    assert_eq!(verdict_of(Ok(true)).unwrap(), true);
    assert_eq!(verdict_of(Ok(false)).unwrap(), false);
    assert_eq!(
        custom(verdict_of(Err(bcrypt::BcryptError::InvalidHash("x")))),
        "Erreur de vérification du mot de passe"
    );
    assert_eq!(custom::<()>(Err(hashing_failure("no entropy"))), "Erreur de hachage: no entropy");
}

#[test]
fn request_validation() {
    assert!(request("a@x.com", "password1", "A", "B").validate().is_ok());
    assert_eq!(
        validation(request("not-an-email", "password1", "A", "B").validate()),
        "email: L'email doit être valide"
    );
    assert_eq!(
        validation(request("", "password1", "A", "B").validate()),
        "email: L'email doit être valide"
    );
    assert_eq!(
        validation(request("a@x.com", "passwor", "A", "B").validate()),
        "mot_de_passe: Le mot de passe doit avoir au moins 8 caractères"
    );
    assert_eq!(
        validation(request("a@x.com", "password1", "", "B").validate()),
        "prenom: Le prénom ne peut pas être vide"
    );
    assert_eq!(
        validation(request("a@x.com", "password1", "A", "").validate()),
        "nom: Le nom ne peut pas être vide"
    );
    assert_eq!(
        validation(request("a@", "", "", "").validate()),
        "email: L'email doit être valide\nmot_de_passe: Le mot de passe doit avoir au moins 8 caractères\nprenom: Le prénom ne peut pas être vide\nnom: Le nom ne peut pas être vide"
    );
    assert_eq!(
        validation(request("a@x.com", "short", "A", "").validate()),
        "mot_de_passe: Le mot de passe doit avoir au moins 8 caractères\nnom: Le nom ne peut pas être vide"
    );
}

#[test]
fn role_request_validation() {
    assert!(UpdateRoleRequest { role: "gerant".to_string() }.validate().is_ok());
    assert!(UpdateRoleRequest { role: "x".to_string() }.validate().is_ok());
    assert_eq!(
        validation(UpdateRoleRequest { role: String::new() }.validate()),
        "role: Le rôle ne peut pas être vide"
    );
}

#[test]
fn request_becomes_a_record() {
    let created = request("a@x.com", "password1", "A", "B").into_new_user(7, 100);
    assert_eq!(
        created,
        Utilisateur {
            id: 7,
            email: "a@x.com".to_string(),
            mot_de_passe: "password1".to_string(),
            prenom: "A".to_string(),
            nom: "B".to_string(),
            role: "utilisateur".to_string(),
            date_creation: 100,
            date_update: 100,
        }
    );
    let mut acting = created.clone();
    acting.id = 1;
    acting.role = "gerant".to_string();
    acting.date_creation = 50;
    let update = request("b@x.com", "password2", "C", "D").into_update(9, &acting, 200);
    assert_eq!(
        update,
        Utilisateur {
            id: 9,
            email: "b@x.com".to_string(),
            mot_de_passe: "password2".to_string(),
            prenom: "C".to_string(),
            nom: "D".to_string(),
            role: "gerant".to_string(),
            date_creation: 50,
            date_update: 200,
        }
    );
}

#[test]
fn new_user_from_payload() {
    let payload = CreateUser {
        email: "a@x.com".to_string(),
        mot_de_passe: "password1".to_string(),
        prenom: "A".to_string(),
        nom: "B".to_string(),
    };
    let fixed = Utilisateur::with_identity(payload.clone(), 3, 10);
    assert_eq!(fixed.id, 3);
    assert_eq!(fixed.role, "utilisateur");
    assert_eq!((fixed.date_creation, fixed.date_update), (10, 10));

    let first = Utilisateur::new(payload.clone());
    let second = Utilisateur::new(payload);
    assert_ne!(first.id, second.id);
    assert_eq!(first.email, "a@x.com");
    assert_eq!(first.mot_de_passe, "password1");
    assert_eq!(first.role, "utilisateur");
    assert_eq!(first.date_creation, first.date_update);
    assert!(first.date_creation > 1_600_000_000);
}

#[test]
fn partial_update_replaces_present_fields_only() {
    let existing = Utilisateur {
        id: 3,
        email: "a@x.com".to_string(),
        mot_de_passe: "hash".to_string(),
        prenom: "A".to_string(),
        nom: "B".to_string(),
        role: "gerant".to_string(),
        date_creation: 10,
        date_update: 10,
    };
    let none = UpdateUser { email: None, mot_de_passe: None, prenom: None, nom: None };
    let mut expected = existing.clone();
    expected.date_update = 99;
    assert_eq!(none.apply(existing.clone(), 99), expected);

    let some = UpdateUser {
        email: Some("b@x.com".to_string()),
        mot_de_passe: None,
        prenom: Some(String::new()),
        nom: None,
    };
    expected.email = "b@x.com".to_string();
    expected.prenom = String::new();
    assert_eq!(some.apply(existing, 99), expected);
}

#[test]
fn order_errors_render() {
    assert_eq!(OrderError::TempletesError.to_string(), "Erreur au niveau des templates");
    assert_eq!(OrderError::AuthenticationError.to_string(), "Erreur d'authentification");
    assert_eq!(OrderError::ServiceError.to_string(), "Erreur lors de l'exécution des services");
    assert_eq!(OrderError::ReqwestError.to_string(), "Erreur lors de requêtes HTTP");
    assert_eq!(OrderError::DatabaseError.to_string(), "Erreur au niveau de la base de données");
    assert_eq!(OrderError::EmptyCart.to_string(), "Le panier est vide");
    assert_eq!(OrderError::PaymentRequired.to_string(), "Paiement requis");
    assert_eq!(OrderError::AlreadyCompleted.to_string(), "Commande déjà complétée");
    assert_eq!(OrderError::UserMismatch.to_string(), "L'utilisateur ne correspond pas");
}

#[test]
fn order_errors_are_reported_as_app_errors() {
    assert!(matches!(AppError::from(OrderError::PaymentRequired), AppError::PaymentFailed));
    assert!(matches!(AppError::from(OrderError::UserMismatch), AppError::Forbidden));
    for (err, text) in [
        (OrderError::EmptyCart, "Le panier est vide"),
        (OrderError::AlreadyCompleted, "Commande déjà complétée"),
        (OrderError::DatabaseError, "Erreur au niveau de la base de données"),
        (OrderError::TempletesError, "Erreur au niveau des templates"),
    ] {
        assert!(matches!(AppError::from(err), AppError::BadRequest(d) if d == text));
    }
    assert_eq!(AppError::from(OrderError::EmptyCart).to_string(), "Bad Request: Le panier est vide");
    assert_eq!(AppError::PaymentFailed.to_string(), "Échec du paiement");
    assert_eq!(AppError::Forbidden.to_string(), "Accès refusé");
}

#[test]
fn catalogue_records_take_what_is_given() {
    let compte = Compte::new(
        "a@x.com".to_string(),
        "hash".to_string(),
        "A".to_string(),
        "B".to_string(),
        Some("0102".to_string()),
    );
    assert_eq!(compte.email, "a@x.com");
    assert_eq!(compte.mot_de_passe_hash, "hash");
    assert_eq!(compte.telephone.as_deref(), Some("0102"));
    assert!(compte.est_actif);
    assert!(!compte.email_verifie);
    assert_eq!(compte.date_creation, compte.date_mise_a_jour);
    assert!(verifier_existence(&Some(compte)).is_ok());
    assert_eq!(verifier_existence(&None), Err("Utilisateur non trouvé".to_string()));

    let categorie = Categorie::nouvelle("Livres".to_string(), None, Some(4), None);
    assert_eq!(categorie.nom, "Livres");
    assert_eq!(categorie.categorie_parente_id, Some(4));
    assert!(categorie.est_active);
    assert_eq!(categorie.date_creation, categorie.date_mise_a_jour);

    let image = ImageProduit::nouvelle(9, "u".to_string(), Some("alt".to_string()), true, 3);
    assert_eq!((image.produit_id, image.est_principale, image.ordre_tri), (9, true, 3));
    assert_eq!(image.url, "u");

    let meta = serde_json::Value::from("m");
    let notification =
        Notification::new(5, TypeNotification::Compte, "c".to_string(), Some(meta.clone()));
    assert_eq!(notification.utilisateur_id, 5);
    assert_eq!(notification.type_notification, TypeNotification::Compte);
    assert_eq!(notification.metadata, Some(meta));
    assert!(!notification.est_lue);
    assert_eq!(notification.date_lue, None);

    let panier = Panier::nouveau(Some(5));
    assert_eq!(panier.utilisateur_id, Some(5));
    let article = ArticlePanier::nouveau(panier.id, 7, None, 2);
    assert_eq!((article.panier_id, article.produit_id, article.quantite), (panier.id, 7, 2));
    assert_ne!(article.id, panier.id);

    let text = |s: &str| s.to_string();
    let mut adresse =
        Adresse::nouvelle(5, text("A"), text("B"), text("l"), text("v"), text("r"), text("p"), text("q"), false);
    let (id, creation) = (adresse.id, adresse.date_creation);
    let autre =
        Adresse::nouvelle(6, text("C"), text("D"), text("l2"), text("v2"), text("r2"), text("p2"), text("q2"), true);
    adresse.mettre_a_jour(autre);
    assert_eq!((adresse.id, adresse.utilisateur_id, adresse.date_creation), (id, 5, creation));
    assert_eq!(adresse.prenom, "C");
    assert_eq!(adresse.nom, "D");
    assert_eq!(adresse.ligne1, "l2");
    assert_eq!(adresse.ville, "v2");
    assert_eq!(adresse.region, "r2");
    assert_eq!(adresse.lieu_proche_connus, "p2");
    assert_eq!(adresse.quartier, "q2");
    assert!(adresse.est_principale);
}
