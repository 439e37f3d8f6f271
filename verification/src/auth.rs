//! The authorization middleware: the decisions taken on every request before any
//! handler runs. The steps run in a fixed order and stop at the first failure,
//! and every failure is `Unauthorized`.

use vstd::prelude::*;
use vstd::string::StringExecFns;
use crate::clock::unix_now;
use crate::error::{fails_with, result_view, unauthorized_error, ErrorView, MyError};
use crate::ids::{parse_id, uuid_parse};
use crate::ports::{lookup_view, StoreError, StoreErrorView, UtilisateurSortie};
use crate::roles::{est_gerant, is_known_role, is_manager, role_connu};
use crate::text::{contains_char, lemma_enclosed, same_text, strip_prefix, strip_suffix};
use crate::token::{
    judged, jwt_payload, rejection, verify_jwt_at, Claims, ClaimsView, MSG_JETON_INVALIDE,
};
use crate::user::{found_view, Utilisateur, UtilisateurView};

verus! {

/// What precedes the token in an `Authorization` header.
pub const BEARER: &'static str = "Bearer ";

/// The path of the user listing, open to managers only.
pub const CHEMIN_UTILISATEURS: &'static str = "/utilisateurs";

/// What precedes the user's id in the path of everything that concerns one user.
pub const PREFIXE_UTILISATEUR: &'static str = "/utilisateurs/";

/// What follows the user's id in the path of the role endpoint.
pub const SUFFIXE_ROLE: &'static str = "/role";

/// What separates the segments of a path.
pub const SEPARATEUR: char = '/';

pub const MSG_EN_TETE_ABSENT: &'static str = "Missing Authorization header";

pub const MSG_EN_TETE_FORMAT: &'static str = "Invalid Authorization header format";

pub const MSG_ROLE_INCONNU: &'static str = "Invalid role";

pub const MSG_ID_INVALIDE: &'static str = "Invalid user ID";

pub const MSG_UTILISATEUR_ABSENT: &'static str = "User not found";

pub const MSG_RECHERCHE: &'static str = "User lookup failed";

pub const MSG_ROLE_DIFFERENT: &'static str = "Role mismatch";

pub const MSG_RESERVE_GERANT: &'static str = "Seul un gérant peut accéder à ce service";

/// The verified identity of a request: the acting user as the store holds it,
/// and the role the token and the store agree on. It lives for one request.
#[derive(Debug)]
pub struct AuthContext {
    pub utilisateur: Utilisateur,
    pub role: String,
}

/// The mathematical content of an [`AuthContext`].
pub ghost struct AuthContextView {
    pub utilisateur: UtilisateurView,
    pub role: Seq<char>,
}

impl View for AuthContext {
    type V = AuthContextView;

    open spec fn view(&self) -> AuthContextView {
        AuthContextView { utilisateur: self.utilisateur@, role: self.role@ }
    }
}

/// The token a header presents: what follows [`BEARER`], where the header is
/// there and begins with it.
pub open spec fn presented_token(header: Option<Seq<char>>) -> Result<Seq<char>, ErrorView> {
    match header {
        None => Err(ErrorView::Unauthorized(MSG_EN_TETE_ABSENT@)),
        Some(value) => if BEARER@.is_prefix_of(value) {
            Ok(value.subrange(BEARER@.len() as int, value.len() as int))
        } else {
            Err(ErrorView::Unauthorized(MSG_EN_TETE_FORMAT@))
        },
    }
}

/// The text of an optional header.
pub open spec fn header_text(header: Option<&str>) -> Option<Seq<char>> {
    match header {
        Some(value) => Some(value@),
        None => None,
    }
}

/// Extracts the token from the `Authorization` header; see [`presented_token`].
pub fn bearer_token<'a>(header: Option<&'a str>) -> (r: Result<&'a str, MyError>)
    ensures
        match presented_token(header_text(header)) {
            Ok(token) => r matches Ok(given) && given@ == token,
            Err(failure) => fails_with(r, failure),
        },
{
    let value = match header {
        Some(value) => value,
        None => {
            return Err(unauthorized_error(MSG_EN_TETE_ABSENT));
        },
    };
    match strip_prefix(value, BEARER) {
        Some(token) => {
            assert(BEARER@ =~= value@.subrange(0, BEARER@.len() as int));
            assert(token@ =~= value@.subrange(BEARER@.len() as int, value@.len() as int));
            Ok(token)
        },
        None => Err(unauthorized_error(MSG_EN_TETE_FORMAT)),
    }
}

/// Whether a path is that of the role endpoint of some user: the prefix of
/// the user endpoints, one segment that is not empty, and the role suffix.
pub open spec fn is_role_path(path: Seq<char>) -> bool {
    exists|id: Seq<char>|
        #![trigger PREFIXE_UTILISATEUR@ + id + SUFFIXE_ROLE@]
        path == PREFIXE_UTILISATEUR@ + id + SUFFIXE_ROLE@ && id.len() > 0 && !id.contains(
            SEPARATEUR,
        )
}

/// Whether a path is open to managers only: the user listing itself, and the
/// role endpoint of every user. Every other path, the profile of a user among
/// them, is open to every authenticated user; who may read or change which
/// profile is for the service to decide.
pub open spec fn is_restricted(path: Seq<char>) -> bool {
    path == CHEMIN_UTILISATEURS@ || is_role_path(path)
}

/// Tests whether a path is that of the role endpoint of some user.
pub fn role_path(path: &str) -> (role: bool)
    ensures
        role == is_role_path(path@),
{
    let ghost prefix = PREFIXE_UTILISATEUR@;
    let ghost suffix = SUFFIXE_ROLE@;
    proof {
        assert forall|id: Seq<char>| path@ == prefix + id + suffix implies prefix.is_prefix_of(
            path@,
        ) && suffix.is_suffix_of(path@) && path@.len() == prefix.len() + id.len() + suffix.len()
            && id == path@.subrange(prefix.len() as int, path@.len() - suffix.len()) by {
            lemma_enclosed(path@, prefix, id, suffix);
        }
    }
    let tail = match strip_prefix(path, PREFIXE_UTILISATEUR) {
        Some(tail) => tail,
        None => {
            return false;
        },
    };
    let id = match strip_suffix(tail, SUFFIXE_ROLE) {
        Some(id) => id,
        None => {
            proof {
                assert forall|other: Seq<char>| path@ == prefix + other + suffix implies false by {
                    assert(tail@ =~= other + suffix);
                    lemma_enclosed(tail@, Seq::empty(), other, suffix);
                    assert(Seq::<char>::empty() + other =~= other);
                }
            }
            return false;
        },
    };
    proof {
        assert(path@ =~= prefix + id@ + suffix);
    }
    !id.is_empty() && !contains_char(id, SEPARATEUR)
}

/// Tests whether a path is open to managers only.
pub fn restricted_path(path: &str) -> (restricted: bool)
    ensures
        restricted == is_restricted(path@),
{
    same_text(path, CHEMIN_UTILISATEURS) || role_path(path)
}

/// The acting user's id according to the claims: the role must be one of the
/// two roles, then the subject must read as an identifier.
pub open spec fn subject_of(claims: ClaimsView) -> Result<u128, ErrorView> {
    if !is_known_role(claims.role) {
        Err(ErrorView::Unauthorized(MSG_ROLE_INCONNU@))
    } else {
        match uuid_parse(claims.sub) {
            Some(id) => Ok(id),
            None => Err(ErrorView::Unauthorized(MSG_ID_INVALIDE@)),
        }
    }
}

/// Checks the role of the claims and reads the acting user's id from them;
/// see [`subject_of`].
pub fn check_subject(claims: &Claims) -> (r: Result<u128, MyError>)
    ensures
        match subject_of(claims@) {
            Ok(id) => r == Ok::<u128, MyError>(id),
            Err(failure) => fails_with(r, failure),
        },
{
    if !role_connu(claims.role.as_str()) {
        return Err(unauthorized_error(MSG_ROLE_INCONNU));
    }
    match parse_id(claims.sub.as_str()) {
        Some(id) => Ok(id),
        None => Err(unauthorized_error(MSG_ID_INVALIDE)),
    }
}

/// Whether verified claims are admitted on `path`, given the record the store
/// holds for the acting user. The record must exist; its role must be the role
/// of the claims, so that a token issued before a role change is turned away
/// although its signature still holds; and a restricted path asks for a manager.
pub open spec fn admission(claims: ClaimsView, found: Option<UtilisateurView>, path: Seq<char>)
    -> Result<AuthContextView, ErrorView> {
    match found {
        None => Err(ErrorView::Unauthorized(MSG_UTILISATEUR_ABSENT@)),
        Some(user) => if user.role != claims.role {
            Err(ErrorView::Unauthorized(MSG_ROLE_DIFFERENT@))
        } else if is_restricted(path) && !is_manager(claims.role) {
            Err(ErrorView::Unauthorized(MSG_RESERVE_GERANT@))
        } else {
            Ok(AuthContextView { utilisateur: user, role: claims.role })
        },
    }
}

/// Decides on verified claims from what the store answered for the acting
/// user; see [`admission`].
pub fn decide(claims: Claims, found: Option<Utilisateur>, path: &str) -> (r: Result<
    AuthContext,
    MyError,
>)
    ensures
        result_view(r) == admission(claims@, found_view(found), path@),
{
    let utilisateur = match found {
        Some(utilisateur) => utilisateur,
        None => {
            return Err(unauthorized_error(MSG_UTILISATEUR_ABSENT));
        },
    };
    if !same_text(utilisateur.role.as_str(), claims.role.as_str()) {
        return Err(unauthorized_error(MSG_ROLE_DIFFERENT));
    }
    if restricted_path(path) && !est_gerant(claims.role.as_str()) {
        return Err(unauthorized_error(MSG_RESERVE_GERANT));
    }
    Ok(AuthContext { utilisateur, role: claims.role })
}

/// What the middleware returns for verified claims from the store's whole answer
/// to the lookup of the acting user. A failing store leads to `Unauthorized` as
/// well, with a fixed detail that reveals nothing of what the store reported.
pub open spec fn admission_after(
    claims: ClaimsView,
    answer: Result<Option<UtilisateurView>, StoreErrorView>,
    path: Seq<char>,
) -> Result<AuthContextView, ErrorView> {
    match answer {
        Ok(found) => admission(claims, found, path),
        Err(_) => Err(ErrorView::Unauthorized(MSG_RECHERCHE@)),
    }
}

/// Decides on verified claims from the store's whole answer; see [`admission_after`].
pub fn decide_on_answer(
    claims: Claims,
    answer: Result<Option<Utilisateur>, StoreError>,
    path: &str,
) -> (r: Result<AuthContext, MyError>)
    ensures
        result_view(r) == admission_after(claims@, lookup_view(answer), path@),
{
    match answer {
        Ok(found) => decide(claims, found, path),
        Err(_) => Err(unauthorized_error(MSG_RECHERCHE)),
    }
}

/// Whether `r` is a result of authorizing, at `now`, a request with the given
/// header on the given path, over `store`. The steps run in this order and the
/// first failure is the result: the header must present a token
/// ([`presented_token`]); the token must open under the secret and its payload
/// must be complete and not expired ([`judged`]); the claims must name a known
/// role and a readable id ([`subject_of`]); then the store is asked for the
/// acting user, and [`admission_after`] decides on its answer.
pub open spec fn authorization<R: UtilisateurSortie>(
    store: R,
    header: Option<Seq<char>>,
    path: Seq<char>,
    secret: Seq<char>,
    now: int,
    r: Result<AuthContextView, ErrorView>,
) -> bool {
    match presented_token(header) {
        Err(failure) => r == Err::<AuthContextView, ErrorView>(failure),
        Ok(token) => match jwt_payload(token, secret) {
            None => r is Err && r->Err_0 is Unauthorized && MSG_JETON_INVALIDE@.is_prefix_of(
                r->Err_0.detail(),
            ),
            Some(raw) => match judged(raw, now) {
                Err(cause) => r == Err::<AuthContextView, ErrorView>(rejection(cause)),
                Ok(claims) => match subject_of(claims) {
                    Err(failure) => r == Err::<AuthContextView, ErrorView>(failure),
                    Ok(id) => exists|answer: Result<Option<UtilisateurView>, StoreErrorView>|
                        #[trigger] store.answers_par_id(id, answer) && r == admission_after(
                            claims,
                            answer,
                            path,
                        ),
                },
            },
        },
    }
}

/// Authorizes a request at the instant `now`: extracts the token from the
/// header, verifies it, checks the role it names, loads the acting user from
/// the store, compares the stored role with the token's, and applies the path
/// policy. The result is exactly what [`authorization`] describes; in
/// particular every failure is `Unauthorized`.
pub fn authorize_at<R: UtilisateurSortie>(
    repository: &R,
    header: Option<&str>,
    path: &str,
    secret: &str,
    now: i64,
) -> (r: Result<AuthContext, MyError>)
    ensures
        authorization(*repository, header_text(header), path@, secret@, now as int, result_view(r)),
        r matches Err(e) ==> e@ is Unauthorized,
{
    let token = bearer_token(header)?;
    let claims = verify_jwt_at(token, secret, now)?;
    let id = check_subject(&claims)?;
    let answer = repository.obtenir_par_id(id);
    decide_on_answer(claims, answer, path)
}

/// Authorizes a request at the current instant of the system clock: the
/// result is what [`authorization`] describes for the instant the clock gave.
pub fn authorize<R: UtilisateurSortie>(
    repository: &R,
    header: Option<&str>,
    path: &str,
    secret: &str,
) -> (r: Result<AuthContext, MyError>)
    ensures
        exists|now: int| #[trigger]
            authorization(*repository, header_text(header), path@, secret@, now, result_view(r)),
        r matches Err(e) ==> e@ is Unauthorized,
{
    let now = unix_now();
    let r = authorize_at(repository, header, path, secret, now);
    assert(authorization(
        *repository,
        header_text(header),
        path@,
        secret@,
        now as int,
        result_view(r),
    ));
    r
}

} // verus!
