//! Order handling: the states an order, its payment and its delivery pass
//! through, and the failures of the order flow.

use vstd::prelude::*;
use vstd::string::StringExecFns;

verus! {

/// What a notification is about.
#[derive(Debug, Clone, Copy, PartialEq, Eq)]
pub enum TypeNotification {
    Commande,
    Livraison,
    Promotion,
    Compte,
}

/// The state of an order.
#[derive(Debug, Clone, Copy, PartialEq, Eq)]
pub enum StatutCommande {
    EnAttente,
    EnTraitement,
    EnLivraison,
    Livree,
    Annulee,
    Retournee,
}

/// The state of a payment.
#[derive(Debug, Clone, Copy, PartialEq, Eq)]
pub enum StatutPaiement {
    EnAttente,
    Complete,
    Echoue,
    Remboursee,
    PartiellementRemboursee,
}

/// The state of a delivery.
#[derive(Debug, Clone, Copy, PartialEq, Eq)]
pub enum StatutLivraison {
    EnPreparation,
    Expediee,
    EnTransit,
    EnLivraison,
    Livree,
    Retournee,
    Annulee,
    Probleme,
}

/// The state of an order as the order table stores it.
#[derive(Debug, Clone, Copy, PartialEq, Eq)]
pub enum CommandeStatut {
    EnAttente,
    EnTraitement,
    Expediee,
    Livree,
    Annulee,
    Remboursee,
}

/// The state of a payment as the order table stores it.
#[derive(Debug, Clone, Copy, PartialEq, Eq)]
pub enum PaiementStatut {
    EnAttente,
    Complete,
    Echoue,
    Remboursee,
}

/// The state of a delivery as the order table stores it.
#[derive(Debug, Clone, Copy, PartialEq, Eq)]
pub enum LivraisonStatut {
    EnPreparation,
    Expediee,
    EnTransit,
    Livree,
    Echouee,
}

/// A failure of the order flow.
#[derive(Debug, Clone, Copy, PartialEq, Eq)]
pub enum OrderError {
    TempletesError,
    AuthenticationError,
    ServiceError,
    ReqwestError,
    DatabaseError,
    EmptyCart,
    PaymentRequired,
    AlreadyCompleted,
    UserMismatch,
}

/// A failure as the application reports it.
#[derive(Debug)]
pub enum AppError {
    BadRequest(String),
    PaymentFailed,
    Forbidden,
}

/// The mathematical content of an [`AppError`].
pub ghost enum AppErrorView {
    BadRequest(Seq<char>),
    PaymentFailed,
    Forbidden,
}

impl View for AppError {
    type V = AppErrorView;

    open spec fn view(&self) -> AppErrorView {
        match self {
            AppError::BadRequest(detail) => AppErrorView::BadRequest(detail@),
            AppError::PaymentFailed => AppErrorView::PaymentFailed,
            AppError::Forbidden => AppErrorView::Forbidden,
        }
    }
}

/// The text an [`OrderError`] is rendered as.
pub open spec fn order_message(err: OrderError) -> Seq<char> {
    match err {
        OrderError::TempletesError => "Erreur au niveau des templates"@,
        OrderError::AuthenticationError => "Erreur d'authentification"@,
        OrderError::ServiceError => "Erreur lors de l'exécution des services"@,
        OrderError::ReqwestError => "Erreur lors de requêtes HTTP"@,
        OrderError::DatabaseError => "Erreur au niveau de la base de données"@,
        OrderError::EmptyCart => "Le panier est vide"@,
        OrderError::PaymentRequired => "Paiement requis"@,
        OrderError::AlreadyCompleted => "Commande déjà complétée"@,
        OrderError::UserMismatch => "L'utilisateur ne correspond pas"@,
    }
}

/// The application failure an [`OrderError`] is reported as: a missing
/// payment is a failed payment, a user mismatch is forbidden, and everything
/// else is a bad request that carries the order failure's text.
pub open spec fn reported_as(err: OrderError) -> AppErrorView {
    match err {
        OrderError::PaymentRequired => AppErrorView::PaymentFailed,
        OrderError::UserMismatch => AppErrorView::Forbidden,
        _ => AppErrorView::BadRequest(order_message(err)),
    }
}

impl AppErrorView {
    /// The text an [`AppError`] is rendered as.
    pub open spec fn rendered(self) -> Seq<char> {
        match self {
            AppErrorView::BadRequest(detail) => "Bad Request: "@ + detail,
            AppErrorView::PaymentFailed => "Échec du paiement"@,
            AppErrorView::Forbidden => "Accès refusé"@,
        }
    }
}

impl OrderError {
    /// Renders the failure.
    pub fn to_string(&self) -> (text: String)
        ensures
            text@ == order_message(*self),
    {
        match self {
            OrderError::TempletesError => String::from_str("Erreur au niveau des templates"),
            OrderError::AuthenticationError => String::from_str("Erreur d'authentification"),
            OrderError::ServiceError => String::from_str(
                "Erreur lors de l'exécution des services",
            ),
            OrderError::ReqwestError => String::from_str("Erreur lors de requêtes HTTP"),
            OrderError::DatabaseError => String::from_str(
                "Erreur au niveau de la base de données",
            ),
            OrderError::EmptyCart => String::from_str("Le panier est vide"),
            OrderError::PaymentRequired => String::from_str("Paiement requis"),
            OrderError::AlreadyCompleted => String::from_str("Commande déjà complétée"),
            OrderError::UserMismatch => String::from_str("L'utilisateur ne correspond pas"),
        }
    }
}

impl AppError {
    /// Renders the failure.
    pub fn to_string(&self) -> (text: String)
        ensures
            text@ == self@.rendered(),
    {
        match self {
            AppError::BadRequest(detail) => String::from_str("Bad Request: ").concat(
                detail.as_str(),
            ),
            AppError::PaymentFailed => String::from_str("Échec du paiement"),
            AppError::Forbidden => String::from_str("Accès refusé"),
        }
    }

    /// Reports an order failure as an application failure; see [`reported_as`].
    pub fn from(err: OrderError) -> (reported: AppError)
        ensures
            reported@ == reported_as(err),
    {
        match err {
            OrderError::PaymentRequired => AppError::PaymentFailed,
            OrderError::UserMismatch => AppError::Forbidden,
            _ => AppError::BadRequest(err.to_string()),
        }
    }
}

} // verus!
