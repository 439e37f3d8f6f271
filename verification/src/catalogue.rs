//! Records of the shop around the identity core: customer accounts, categories,
//! product images, notifications, addresses and carts. A record gets a random
//! id and the current time when it is made; everything else is what the caller
//! gave. Ids are 128-bit values, times are Unix seconds.

use vstd::prelude::*;
use vstd::string::StringExecFns;
use crate::clock::unix_now;
use crate::commerce::TypeNotification;
use crate::ids::fresh_id;

verus! {

/// A JSON value of the serde_json crate. Records carry it through unread.
#[verifier::external_type_specification]
#[verifier::external_body]
pub struct ExJsonValue(serde_json::Value);

/// A customer account.
#[derive(Debug, Clone)]
pub struct Utilisateur {
    pub id: u128,
    pub email: String,
    pub mot_de_passe_hash: String,
    pub prenom: String,
    pub nom: String,
    pub telephone: Option<String>,
    pub date_creation: i64,
    pub date_mise_a_jour: i64,
    pub est_actif: bool,
    pub email_verifie: bool,
}

/// A category of products, possibly below a parent category.
#[derive(Debug, Clone)]
pub struct Categorie {
    pub id: u128,
    pub nom: String,
    pub description: Option<String>,
    pub categorie_parente_id: Option<u128>,
    pub url_image: Option<String>,
    pub est_active: bool,
    pub date_creation: i64,
    pub date_mise_a_jour: i64,
}

/// An image of a product.
#[derive(Debug, Clone)]
pub struct ImageProduit {
    pub id: u128,
    pub produit_id: u128,
    pub url: String,
    pub texte_alternatif: Option<String>,
    pub est_principale: bool,
    pub ordre_tri: i32,
    pub date_creation: i64,
}

/// A notification to a user, with free-form metadata.
#[derive(Debug, Clone)]
pub struct Notification {
    pub id: u128,
    pub utilisateur_id: u128,
    pub type_notification: TypeNotification,
    pub contenu: String,
    pub est_lue: bool,
    pub date_creation: i64,
    pub date_lue: Option<i64>,
    pub metadata: Option<serde_json::Value>,
}

/// A postal address of a user.
#[derive(Debug, Clone)]
pub struct Adresse {
    pub id: u128,
    pub utilisateur_id: u128,
    pub prenom: String,
    pub nom: String,
    pub ligne1: String,
    pub ville: String,
    pub region: String,
    pub lieu_proche_connus: String,
    pub quartier: String,
    pub est_principale: bool,
    pub date_creation: i64,
    pub date_mise_a_jour: i64,
}

/// A cart, of a user or anonymous.
#[derive(Debug, Clone)]
pub struct Panier {
    pub id: u128,
    pub utilisateur_id: Option<u128>,
    pub date_creation: i64,
    pub date_mise_a_jour: i64,
}

/// A line of a cart.
#[derive(Debug, Clone)]
pub struct ArticlePanier {
    pub id: u128,
    pub panier_id: u128,
    pub produit_id: u128,
    pub variante_id: Option<u128>,
    pub quantite: i32,
    pub date_creation: i64,
    pub date_mise_a_jour: i64,
}

impl Utilisateur {
    /// A new account: active, its email not yet verified, created and updated
    /// at the same instant.
    pub fn new(
        email: String,
        mot_de_passe_hash: String,
        prenom: String,
        nom: String,
        telephone: Option<String>,
    ) -> (compte: Utilisateur)
        ensures
            compte.email == email,
            compte.mot_de_passe_hash == mot_de_passe_hash,
            compte.prenom == prenom,
            compte.nom == nom,
            compte.telephone == telephone,
            compte.est_actif,
            !compte.email_verifie,
            compte.date_creation == compte.date_mise_a_jour,
    {
        let now = unix_now();
        Utilisateur {
            id: fresh_id(),
            email,
            mot_de_passe_hash,
            prenom,
            nom,
            telephone,
            date_creation: now,
            date_mise_a_jour: now,
            est_actif: true,
            email_verifie: false,
        }
    }
}

/// Detail of the failure reported when an account to update does not exist.
pub const MSG_COMPTE_ABSENT: &'static str = "Utilisateur non trouvé";

/// Decides whether an update may go on, from what the store answered for the
/// account's id: only an account that exists is updated.
pub fn verifier_existence(trouve: &Option<Utilisateur>) -> (r: Result<(), String>)
    ensures
        match r {
            Ok(_) => trouve is Some,
            Err(detail) => trouve is None && detail@ == MSG_COMPTE_ABSENT@,
        },
{
    match trouve {
        Some(_) => Ok(()),
        None => Err(String::from_str(MSG_COMPTE_ABSENT)),
    }
}

impl Categorie {
    /// A new category: active, created and updated at the same instant.
    pub fn nouvelle(
        nom: String,
        description: Option<String>,
        categorie_parente_id: Option<u128>,
        url_image: Option<String>,
    ) -> (categorie: Categorie)
        ensures
            categorie.nom == nom,
            categorie.description == description,
            categorie.categorie_parente_id == categorie_parente_id,
            categorie.url_image == url_image,
            categorie.est_active,
            categorie.date_creation == categorie.date_mise_a_jour,
    {
        let maintenant = unix_now();
        Categorie {
            id: fresh_id(),
            nom,
            description,
            categorie_parente_id,
            url_image,
            est_active: true,
            date_creation: maintenant,
            date_mise_a_jour: maintenant,
        }
    }
}

impl ImageProduit {
    /// A new image of the product `produit_id`.
    pub fn nouvelle(
        produit_id: u128,
        url: String,
        texte_alternatif: Option<String>,
        est_principale: bool,
        ordre_tri: i32,
    ) -> (image: ImageProduit)
        ensures
            image.produit_id == produit_id,
            image.url == url,
            image.texte_alternatif == texte_alternatif,
            image.est_principale == est_principale,
            image.ordre_tri == ordre_tri,
    {
        ImageProduit {
            id: fresh_id(),
            produit_id,
            url,
            texte_alternatif,
            est_principale,
            ordre_tri,
            date_creation: unix_now(),
        }
    }
}

impl Notification {
    /// A new notification: unread.
    pub fn new(
        utilisateur_id: u128,
        type_notification: TypeNotification,
        contenu: String,
        metadata: Option<serde_json::Value>,
    ) -> (notification: Notification)
        ensures
            notification.utilisateur_id == utilisateur_id,
            notification.type_notification == type_notification,
            notification.contenu == contenu,
            notification.metadata == metadata,
            !notification.est_lue,
            notification.date_lue is None,
    {
        Notification {
            id: fresh_id(),
            utilisateur_id,
            type_notification,
            contenu,
            est_lue: false,
            date_creation: unix_now(),
            date_lue: None,
            metadata,
        }
    }
}

impl Adresse {
    /// A new address of the user `utilisateur_id`.
    pub fn nouvelle(
        utilisateur_id: u128,
        prenom: String,
        nom: String,
        ligne1: String,
        ville: String,
        region: String,
        lieu_proche_connus: String,
        quartier: String,
        est_principale: bool,
    ) -> (adresse: Adresse)
        ensures
            adresse.utilisateur_id == utilisateur_id,
            adresse.prenom == prenom,
            adresse.nom == nom,
            adresse.ligne1 == ligne1,
            adresse.ville == ville,
            adresse.region == region,
            adresse.lieu_proche_connus == lieu_proche_connus,
            adresse.quartier == quartier,
            adresse.est_principale == est_principale,
    {
        Adresse {
            id: fresh_id(),
            utilisateur_id,
            prenom,
            nom,
            ligne1,
            ville,
            region,
            lieu_proche_connus,
            quartier,
            est_principale,
            date_creation: unix_now(),
            date_mise_a_jour: unix_now(),
        }
    }

    /// Takes over the postal fields of `nouvelle_adresse` and stamps the
    /// update time. The id, the owner and the creation time stay.
    pub fn mettre_a_jour(&mut self, nouvelle_adresse: Adresse)
        ensures
            final(self).id == old(self).id,
            final(self).utilisateur_id == old(self).utilisateur_id,
            final(self).date_creation == old(self).date_creation,
            final(self).prenom == nouvelle_adresse.prenom,
            final(self).nom == nouvelle_adresse.nom,
            final(self).ligne1 == nouvelle_adresse.ligne1,
            final(self).ville == nouvelle_adresse.ville,
            final(self).region == nouvelle_adresse.region,
            final(self).lieu_proche_connus == nouvelle_adresse.lieu_proche_connus,
            final(self).quartier == nouvelle_adresse.quartier,
            final(self).est_principale == nouvelle_adresse.est_principale,
    {
        self.prenom = nouvelle_adresse.prenom;
        self.nom = nouvelle_adresse.nom;
        self.ligne1 = nouvelle_adresse.ligne1;
        self.ville = nouvelle_adresse.ville;
        self.region = nouvelle_adresse.region;
        self.lieu_proche_connus = nouvelle_adresse.lieu_proche_connus;
        self.quartier = nouvelle_adresse.quartier;
        self.est_principale = nouvelle_adresse.est_principale;
        self.date_mise_a_jour = unix_now();
    }
}

impl Panier {
    /// A new, empty cart.
    pub fn nouveau(utilisateur_id: Option<u128>) -> (panier: Panier)
        ensures
            panier.utilisateur_id == utilisateur_id,
    {
        Panier {
            id: fresh_id(),
            utilisateur_id,
            date_creation: unix_now(),
            date_mise_a_jour: unix_now(),
        }
    }
}

impl ArticlePanier {
    /// A new line of the cart `panier_id`.
    pub fn nouveau(
        panier_id: u128,
        produit_id: u128,
        variante_id: Option<u128>,
        quantite: i32,
    ) -> (article: ArticlePanier)
        ensures
            article.panier_id == panier_id,
            article.produit_id == produit_id,
            article.variante_id == variante_id,
            article.quantite == quantite,
    {
        ArticlePanier {
            id: fresh_id(),
            panier_id,
            produit_id,
            variante_id,
            quantite,
            date_creation: unix_now(),
            date_mise_a_jour: unix_now(),
        }
    }
}

} // verus!
