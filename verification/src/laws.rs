//! Laws of the identity core, each proved from the definitions the contracts
//! of the executable functions are stated with.

use vstd::prelude::*;
use crate::auth::{
    admission, authorization, is_restricted, is_role_path, presented_token, AuthContextView,
    CHEMIN_UTILISATEURS, MSG_ROLE_DIFFERENT, PREFIXE_UTILISATEUR, SEPARATEUR, SUFFIXE_ROLE,
};
use crate::error::ErrorView;
use crate::hasher::bcrypt_verdict;
use crate::ports::{StoreErrorView, UtilisateurSortie};
use crate::roles::{
    is_known_role, is_manager, lemma_roles_distinct, ROLE_GERANT, ROLE_UTILISATEUR,
};
use crate::service::{
    access_outcome, authentication, authentication_via, may_access_profile, registered_view,
    registration, registration_refusal, registration_stored, role_change, update,
    MIN_PASSWORD_LEN, MSG_CHANGEMENT_ROLE, MSG_EMAIL_PRIS, MSG_IDENTIFIANTS,
};
use crate::text::lemma_enclosed;
use crate::ids::{uuid_parse, uuid_text};
use crate::token::{
    expiry_at, issuance, jwt_payload, rejection, verification, ClaimsView, CAUSE_EXPIRED,
    TOKEN_VALIDITY_SECS,
};
use crate::user::UtilisateurView;

verus! {

/// A registered user authenticates. Let a record be stored for a profile with
/// a hash of the profile's password, that is, a hash the password verifies
/// against. Whenever the store answers a lookup with this record,
/// authenticating with the same password yields the record, and with it the
/// id the registration was made under.
pub proof fn law_registered_user_authenticates(profile: UtilisateurView, blob: Seq<char>)
    requires
        bcrypt_verdict(profile.mot_de_passe, blob) == Some(true),
    ensures
        authentication(Some(registered_view(profile, blob)), profile.mot_de_passe) == Ok::<
            UtilisateurView,
            ErrorView,
        >(registered_view(profile, blob)),
        registered_view(profile, blob).id == profile.id,
{
}

/// A failed authentication does not tell why. An unknown email and a wrong
/// password for a known one are refused with one and the same failure.
pub proof fn law_authentication_failures_identical(
    user: UtilisateurView,
    wrong: Seq<char>,
    any: Seq<char>,
)
    requires
        bcrypt_verdict(wrong, user.mot_de_passe) == Some(false),
    ensures
        authentication(Some(user), wrong) == authentication(None, any),
        authentication(None, any) == Err::<UtilisateurView, ErrorView>(
            ErrorView::Unauthorized(MSG_IDENTIFIANTS@),
        ),
{
}

/// Round trip. A token that opens under a secret to the claims it was issued
/// for verifies under that secret, at every instant up to its expiry, to
/// exactly those claims: subject and role come back as they went in.
pub proof fn law_token_round_trip(
    token: Seq<char>,
    secret: Seq<char>,
    claims: ClaimsView,
    now: int,
    r: Result<ClaimsView, ErrorView>,
)
    requires
        jwt_payload(token, secret) == Some(claims.raw()),
        now <= claims.exp,
        verification(token, secret, now, r),
    ensures
        r == Ok::<ClaimsView, ErrorView>(claims),
{
}

/// An issued token verifies. What [`issuance`] accepts as a token for a user
/// verifies under the same secret, at every instant up to 24 hours after the
/// issue, to the user's id in textual form and the user's role; and the
/// subject reads back to the user's id.
pub proof fn law_issued_token_verifies(
    user: UtilisateurView,
    secret: Seq<char>,
    issued_at: int,
    token: Seq<char>,
    now: int,
    r: Result<ClaimsView, ErrorView>,
)
    requires
        issuance(user, Some(secret), issued_at, Ok(token)),
        now <= issued_at + TOKEN_VALIDITY_SECS,
        verification(token, secret, now, r),
    ensures
        r matches Ok(claims) && claims.sub == uuid_text(user.id) && claims.role == user.role
            && claims.exp == issued_at + TOKEN_VALIDITY_SECS && uuid_parse(claims.sub) == Some(
            user.id,
        ),
{
}

/// Verification uses nothing up. Two tokens issued for the same claims are
/// each valid by themselves, whichever is verified first and however often.
pub proof fn law_tokens_independent(
    first: Seq<char>,
    second: Seq<char>,
    secret: Seq<char>,
    claims: ClaimsView,
    now: int,
    r1: Result<ClaimsView, ErrorView>,
    r2: Result<ClaimsView, ErrorView>,
)
    requires
        jwt_payload(first, secret) == Some(claims.raw()),
        jwt_payload(second, secret) == Some(claims.raw()),
        now <= claims.exp,
        verification(first, secret, now, r1),
        verification(second, secret, now, r2),
    ensures
        r1 == Ok::<ClaimsView, ErrorView>(claims),
        r2 == Ok::<ClaimsView, ErrorView>(claims),
{
}

/// Expiry boundary. A token whose expiry lies one second before the instant of
/// verification is rejected as expired; one whose expiry lies one second after
/// is accepted. In general a token that opens to complete claims is accepted
/// exactly while the instant is not past its expiry: there is no grace period.
pub proof fn law_expiry_boundary(
    token: Seq<char>,
    secret: Seq<char>,
    claims: ClaimsView,
    now: int,
    r: Result<ClaimsView, ErrorView>,
)
    requires
        jwt_payload(token, secret) == Some(claims.raw()),
        verification(token, secret, now, r),
    ensures
        claims.exp == now - 1 ==> r == Err::<ClaimsView, ErrorView>(rejection(CAUSE_EXPIRED@)),
        claims.exp == now + 1 ==> r == Ok::<ClaimsView, ErrorView>(claims),
        r is Ok <==> now <= claims.exp,
{
}

/// A stale token is turned away. Claims whose role differs from the role the
/// store now holds for the user are refused on every path, whatever the token's
/// signature says; so are in particular the claims of a manager who has since
/// been made an ordinary user.
pub proof fn law_stale_role_rejected(claims: ClaimsView, user: UtilisateurView, path: Seq<char>)
    requires
        claims.role != user.role,
    ensures
        admission(claims, Some(user), path) == Err::<AuthContextView, ErrorView>(
            ErrorView::Unauthorized(MSG_ROLE_DIFFERENT@),
        ),
{
}

/// Demotion in particular: the two role names differ, so the claims of a
/// manager never match the record of an ordinary user.
pub proof fn law_demoted_manager_rejected(
    claims: ClaimsView,
    user: UtilisateurView,
    path: Seq<char>,
)
    requires
        claims.role == ROLE_GERANT@,
        user.role == ROLE_UTILISATEUR@,
    ensures
        admission(claims, Some(user), path) == Err::<AuthContextView, ErrorView>(
            ErrorView::Unauthorized(MSG_ROLE_DIFFERENT@),
        ),
{
    lemma_roles_distinct();
}

/// Self or manager. An ordinary user may access a profile exactly when it is
/// their own; a manager may access every profile.
pub proof fn law_self_or_manager(acting_id: u128, target_id: u128, detail: Seq<char>)
    ensures
        may_access_profile(ROLE_UTILISATEUR@, acting_id, target_id) <==> acting_id == target_id,
        may_access_profile(ROLE_GERANT@, acting_id, target_id),
        acting_id != target_id ==> access_outcome(
            may_access_profile(ROLE_UTILISATEUR@, acting_id, target_id),
            detail,
        ) == Err::<(), ErrorView>(ErrorView::Unauthorized(detail)),
        access_outcome(may_access_profile(ROLE_UTILISATEUR@, acting_id, acting_id), detail) is Ok,
        access_outcome(may_access_profile(ROLE_GERANT@, acting_id, target_id), detail) is Ok,
{
    lemma_roles_distinct();
}

/// Only valid profiles are registered. Over every store, a registration that
/// succeeds was made with a profile that passes every check.
pub proof fn law_registration_accepts_valid_only<R: UtilisateurSortie>(
    store: R,
    profile: UtilisateurView,
    user: UtilisateurView,
)
    requires
        registration(store, profile, Ok(user)),
    ensures
        registration_refusal(profile, false) is None,
        profile.email.len() > 0,
        profile.mot_de_passe.len() >= MIN_PASSWORD_LEN,
{
}

/// Registration over a store that returns what it stores. The user that comes
/// back has the id and the email of the profile and the starting role, its
/// password is a hash that the plain one verifies against, and authenticating
/// with the plain password against this record yields the record: the same
/// id as registration produced.
pub proof fn law_registration_over_faithful_store<R: UtilisateurSortie>(
    store: R,
    profile: UtilisateurView,
    user: UtilisateurView,
)
    requires
        forall|asked: UtilisateurView, given: UtilisateurView| #[trigger]
            store.answers_save(asked, Ok(given)) ==> given == asked,
        registration(store, profile, Ok(user)),
    ensures
        user.id == profile.id,
        user.email == profile.email,
        user.role == ROLE_UTILISATEUR@,
        bcrypt_verdict(profile.mot_de_passe, user.mot_de_passe) == Some(true),
        authentication(Some(user), profile.mot_de_passe) == Ok::<UtilisateurView, ErrorView>(user),
{
}

/// Register, then authenticate. Let a registration over a store that returns
/// what it stores succeed, and let the store afterwards answer the lookup of
/// the profile's email with the record that came back. Then authenticating
/// with that email and the plain password yields this record, and so the id
/// that registration produced.
pub proof fn law_register_then_authenticate<R: UtilisateurSortie>(
    before: R,
    after: R,
    profile: UtilisateurView,
    user: UtilisateurView,
    r: Result<UtilisateurView, ErrorView>,
)
    requires
        forall|asked: UtilisateurView, given: UtilisateurView| #[trigger]
            before.answers_save(asked, Ok(given)) ==> given == asked,
        registration(before, profile, Ok(user)),
        forall|lookup: Result<Option<UtilisateurView>, StoreErrorView>| #[trigger]
            after.answers_par_email(profile.email, lookup) ==> lookup == Ok::<
                Option<UtilisateurView>,
                StoreErrorView,
            >(Some(user)),
        authentication_via(after, profile.email, profile.mot_de_passe, r),
    ensures
        r == Ok::<UtilisateurView, ErrorView>(user),
        user.id == profile.id,
{
}

/// An email registers once. Over a store that answers the lookup of an email
/// with a record, every registration under that email is refused as a
/// validation failure, before anything is hashed or stored.
pub proof fn law_duplicate_email_refused<R: UtilisateurSortie>(
    store: R,
    profile: UtilisateurView,
    r: Result<UtilisateurView, ErrorView>,
)
    requires
        profile.email.len() > 0,
        forall|lookup: Result<Option<UtilisateurView>, StoreErrorView>| #[trigger]
            store.answers_par_email(profile.email, lookup) ==> lookup matches Ok(Some(_)),
        registration(store, profile, r),
    ensures
        r == Err::<UtilisateurView, ErrorView>(ErrorView::Validation(MSG_EMAIL_PRIS@)),
{
}

/// Nobody escalates through an update. Over a store that holds `current` under
/// the profile's id and returns what it stores, an update that succeeds yields
/// a record with the stored role, whatever role the incoming profile asked for;
/// and it was made by a manager or by the user in person.
pub proof fn law_update_keeps_stored_role<R: UtilisateurSortie>(
    store: R,
    profile: UtilisateurView,
    current: UtilisateurView,
    acting_role: Seq<char>,
    acting_id: u128,
    user: UtilisateurView,
)
    requires
        forall|lookup: Result<Option<UtilisateurView>, StoreErrorView>| #[trigger]
            store.answers_par_id(profile.id, lookup) ==> lookup == Ok::<
                Option<UtilisateurView>,
                StoreErrorView,
            >(Some(current)),
        forall|asked: UtilisateurView, given: UtilisateurView| #[trigger]
            store.answers_update(asked, Ok(given)) ==> given == asked,
        update(store, profile, acting_role, acting_id, Ok(user)),
    ensures
        user.role == current.role,
        user.id == profile.id,
        may_access_profile(acting_role, acting_id, profile.id),
        bcrypt_verdict(profile.mot_de_passe, user.mot_de_passe) == Some(true),
{
}

/// Roles change through managers only. Over every store, a role change asked
/// by an ordinary user is refused as `Unauthorized`, and one that succeeds was
/// asked by a manager for one of the two roles. Over a store that holds
/// `current` under the id and returns what it stores, the record that comes
/// back differs from `current` in nothing but the role, which is the new one,
/// and the update time.
pub proof fn law_role_change<R: UtilisateurSortie>(
    store: R,
    user_id: u128,
    new_role: Seq<char>,
    acting_role: Seq<char>,
    current: UtilisateurView,
    r: Result<UtilisateurView, ErrorView>,
)
    requires
        role_change(store, user_id, new_role, acting_role, r),
    ensures
        acting_role == ROLE_UTILISATEUR@ ==> r == Err::<UtilisateurView, ErrorView>(
            ErrorView::Unauthorized(MSG_CHANGEMENT_ROLE@),
        ),
        r is Ok ==> is_manager(acting_role) && is_known_role(new_role),
        ({
            &&& forall|lookup: Result<Option<UtilisateurView>, StoreErrorView>| #[trigger]
                store.answers_par_id(user_id, lookup) ==> lookup == Ok::<
                    Option<UtilisateurView>,
                    StoreErrorView,
                >(Some(current))
            &&& forall|asked: UtilisateurView, given: UtilisateurView| #[trigger]
                store.answers_update(asked, Ok(given)) ==> given == asked
            &&& r is Ok
        }) ==> r->Ok_0 == (UtilisateurView {
            role: new_role,
            date_update: r->Ok_0.date_update,
            ..current
        }),
{
    lemma_roles_distinct();
}

/// Every failure of the middleware is `Unauthorized`, over every store.
pub proof fn law_middleware_fails_unauthorized<R: UtilisateurSortie>(
    store: R,
    header: Option<Seq<char>>,
    path: Seq<char>,
    secret: Seq<char>,
    now: int,
    r: Result<AuthContextView, ErrorView>,
)
    requires
        authorization(store, header, path, secret, now, r),
    ensures
        r matches Err(failure) ==> failure is Unauthorized,
        r matches Ok(context) ==> context.role == context.utilisateur.role && is_known_role(
            context.role,
        ) && (is_restricted(path) ==> is_manager(context.role)),
{
}

/// A valid token does not outlive a role change. Let a request present a token
/// that opens to unexpired claims with a known role and a readable subject,
/// and let the store hold, for that subject, a user whose role is no longer the
/// role of the claims. Then the middleware turns the request away on every path,
/// although the signature of the token still holds.
pub proof fn law_middleware_rejects_stale_token<R: UtilisateurSortie>(
    store: R,
    header: Seq<char>,
    token: Seq<char>,
    path: Seq<char>,
    secret: Seq<char>,
    now: int,
    claims: ClaimsView,
    id: u128,
    user: UtilisateurView,
    r: Result<AuthContextView, ErrorView>,
)
    requires
        presented_token(Some(header)) == Ok::<Seq<char>, ErrorView>(token),
        jwt_payload(token, secret) == Some(claims.raw()),
        now <= claims.exp,
        is_known_role(claims.role),
        uuid_parse(claims.sub) == Some(id),
        forall|answer: Result<Option<UtilisateurView>, StoreErrorView>| #[trigger]
            store.answers_par_id(id, answer) ==> answer == Ok::<
                Option<UtilisateurView>,
                StoreErrorView,
            >(Some(user)),
        user.role != claims.role,
        authorization(store, Some(header), path, secret, now, r),
    ensures
        r == Err::<AuthContextView, ErrorView>(ErrorView::Unauthorized(MSG_ROLE_DIFFERENT@)),
{
}

/// A conflict at write time is a validation failure. Let the lookup have
/// found the email free and the password be hashed, and let the store then
/// refuse the write for a violated uniqueness constraint, as it does when
/// another registration of the same email came first. The registration fails
/// as the validation failure of a taken email, never as a storage failure.
pub proof fn law_write_conflict_is_validation<R: UtilisateurSortie>(
    store: R,
    profile: UtilisateurView,
    blob: Seq<char>,
    r: Result<UtilisateurView, ErrorView>,
)
    requires
        forall|asked: UtilisateurView, answer: Result<UtilisateurView, StoreErrorView>| #[trigger]
            store.answers_save(asked, answer) ==> answer == Err::<
                UtilisateurView,
                StoreErrorView,
            >(StoreErrorView::Conflict),
        registration_stored(store, profile, Ok(blob), r),
    ensures
        r == Err::<UtilisateurView, ErrorView>(ErrorView::Validation(MSG_EMAIL_PRIS@)),
{
}

/// Issuing succeeds. With a secret, and at an instant whose expiry can be
/// represented, a token is issued.
pub proof fn law_issuing_succeeds(
    user: UtilisateurView,
    secret: Seq<char>,
    now: int,
    r: Result<Seq<char>, ErrorView>,
)
    requires
        expiry_at(now) is Some,
        issuance(user, Some(secret), now, r),
    ensures
        r is Ok,
{
}

/// The listing and the role endpoints are for managers. The path of the user
/// listing is restricted, and so is the role path of every user.
pub proof fn law_restricted_paths(id: Seq<char>)
    requires
        id.len() > 0,
        !id.contains(SEPARATEUR),
    ensures
        is_restricted(CHEMIN_UTILISATEURS@),
        is_restricted(PREFIXE_UTILISATEUR@ + id + SUFFIXE_ROLE@),
{
}

/// A profile path is open. The path of the profile of a user, the prefix of
/// the user endpoints followed by one segment, is not restricted; so a user
/// with a valid token, whose stored role is the role of the token, is let
/// through on it with any role, on the path of their own profile as on any
/// other: who may read or change which profile is for the service to decide.
pub proof fn law_profile_path_is_open(
    id: Seq<char>,
    claims: ClaimsView,
    user: UtilisateurView,
)
    requires
        !id.contains(SEPARATEUR),
        user.role == claims.role,
    ensures
        !is_restricted(PREFIXE_UTILISATEUR@ + id),
        admission(claims, Some(user), PREFIXE_UTILISATEUR@ + id) == Ok::<
            AuthContextView,
            ErrorView,
        >(AuthContextView { utilisateur: user, role: claims.role }),
{
    reveal_strlit("/utilisateurs");
    reveal_strlit("/utilisateurs/");
    reveal_strlit("/role");
    let path = PREFIXE_UTILISATEUR@ + id;
    assert(path.len() == 14 + id.len());
    assert(CHEMIN_UTILISATEURS@.len() == 13);
    assert forall|other: Seq<char>|
        path == #[trigger] (PREFIXE_UTILISATEUR@ + other + SUFFIXE_ROLE@) && other.len() > 0
        implies false by {
        lemma_enclosed(path, PREFIXE_UTILISATEUR@, other, SUFFIXE_ROLE@);
        assert(id =~= other + SUFFIXE_ROLE@);
        assert(id[other.len() as int] == SEPARATEUR);
    }
    assert(!is_role_path(path));
}

} // verus!
