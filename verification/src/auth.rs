use vstd::prelude::*;

use crate::model::{NewUser, UserAuth, UserDB, UserLogin};
use crate::password::{
    bcrypt_form, bcrypt_verifies, hash_password, password_matches, plain_ascii, HashError,
};

verus! {

/// Whether a stored user is the one that a log-in form names: the e-mail
/// is the same and the password matches the stored hash.
pub open spec fn user_matches(u: UserDB, login: UserLogin) -> bool {
    &&& u.email@ == login.email@
    &&& plain_ascii(u.password@)
    &&& bcrypt_verifies(login.password@, u.password@)
}

/// The positions of the users that a log-in form names, in table order.
pub open spec fn matching_indices(users: Seq<UserDB>, login: UserLogin) -> Seq<int>
    decreases users.len(),
{
    if users.len() == 0 {
        Seq::<int>::empty()
    } else {
        let rest = matching_indices(users.drop_last(), login);
        if user_matches(users.last(), login) {
            rest.push(users.len() - 1)
        } else {
            rest
        }
    }
}

/// Each listed position lies in the table, and names a matching user.
pub proof fn lemma_matching_indices_valid(users: Seq<UserDB>, login: UserLogin)
    ensures
        forall|k: int|
            0 <= k < matching_indices(users, login).len() ==> 0 <= #[trigger] matching_indices(
                users,
                login,
            )[k] < users.len() && user_matches(users[matching_indices(users, login)[k]], login),
    decreases users.len(),
{
    if users.len() > 0 {
        let init = users.drop_last();
        lemma_matching_indices_valid(init, login);
        let rest = matching_indices(init, login);
        assert forall|k: int| 0 <= k < rest.len() implies users[rest[k]] == init[rest[k]] by {}
    }
}

/// Every matching position is listed, and the list is strictly increasing.
pub proof fn lemma_matching_indices_complete(users: Seq<UserDB>, login: UserLogin)
    ensures
        forall|i: int|
            0 <= i < users.len() && user_matches(#[trigger] users[i], login) ==> matching_indices(
                users,
                login,
            ).contains(i),
        forall|a: int, b: int|
            0 <= a < b < matching_indices(users, login).len() ==> #[trigger] matching_indices(
                users,
                login,
            )[a] < #[trigger] matching_indices(users, login)[b],
    decreases users.len(),
{
    if users.len() > 0 {
        let init = users.drop_last();
        let last = users.len() - 1;
        lemma_matching_indices_complete(init, login);
        lemma_matching_indices_valid(init, login);
        let rest = matching_indices(init, login);
        let m = matching_indices(users, login);
        assert forall|i: int| 0 <= i < users.len() && user_matches(#[trigger] users[i], login) implies m.contains(i) by {
            if i < last {
                assert(users[i] == init[i]);
                assert(rest.contains(i));
                let k = choose|k: int| 0 <= k < rest.len() && rest[k] == i;
                assert(m[k] == i);
            } else {
                assert(users[i] == users.last());
                assert(m == rest.push(last));
                assert(m[rest.len() as int] == i);
            }
        }
        assert forall|a: int, b: int| 0 <= a < b < m.len() implies #[trigger] m[a] < #[trigger] m[b] by {
            if user_matches(users.last(), login) {
                assert(m == rest.push(last));
                if b < rest.len() {
                    assert(rest[a] < rest[b]);
                } else {
                    assert(m[a] == rest[a]);
                    assert(rest[a] < init.len());
                }
            } else {
                assert(rest[a] < rest[b]);
            }
        }
    }
}

/// The answer to a log-in attempt.
#[derive(Debug, Clone, Copy, PartialEq, Eq)]
pub enum LoginOutcome {
    /// No user, or more than one, matches: the form is refused.
    Rejected,
    /// Exactly one user matches: a session is opened for it.
    Accepted(UserAuth),
}

/// Whether an `i64` id can be carried as a session's `u32` id.
pub open spec fn id_fits(id: i64) -> bool {
    0 <= id <= u32::MAX
}

/// The log-in decision given the matching positions: refused unless exactly
/// one user matches; `None` where that user's id does not fit a `u32`.
pub open spec fn outcome_of(users: Seq<UserDB>, matched: Seq<int>) -> Option<LoginOutcome> {
    if matched.len() != 1 {
        Some(LoginOutcome::Rejected)
    } else if id_fits(users[matched[0]].id) {
        Some(LoginOutcome::Accepted(UserAuth { id: users[matched[0]].id as u32 }))
    } else {
        None
    }
}

/// The log-in decision for a user table and a form.
pub open spec fn login_result(users: Seq<UserDB>, login: UserLogin) -> Option<LoginOutcome> {
    outcome_of(users, matching_indices(users, login))
}

/// The positions of the users that match the form: the same e-mail, and a
/// password that bcrypt accepts against the stored hash.
pub fn matching_user_indices(users: &Vec<UserDB>, login: &UserLogin) -> (r: Vec<usize>)
    ensures
        r@.map_values(|i: usize| i as int) == matching_indices(users@, *login),
{
    let n = users.len();
    let mut r: Vec<usize> = Vec::new();
    let mut i: usize = 0;
    while i < n
        invariant
            n == users@.len(),
            i <= n,
            r@.map_values(|k: usize| k as int) == matching_indices(users@.take(i as int), *login),
        decreases n - i,
    {
        let u = &users[i];
        let same_email = u.email == login.email;
        let ok = same_email && password_matches(login.password.as_str(), u.password.as_str());
        let ghost before = r@;
        proof {
            assert(users@.take(i + 1).drop_last() =~= users@.take(i as int));
            assert(users@.take(i + 1).last() == users@[i as int]);
        }
        if ok {
            r.push(i);
            assert(r@.map_values(|k: usize| k as int) =~= before.map_values(|k: usize| k as int).push(
                i as int,
            ));
        }
        i = i + 1;
    }
    assert(users@.take(n as int) =~= users@);
    r
}

/// The log-in decision once the matching positions are known: refused
/// unless exactly one user matches, else a session for that user's id.
pub fn login_outcome(users: &Vec<UserDB>, matched: &Vec<usize>) -> (r: LoginOutcome)
    requires
        forall|k: int| 0 <= k < matched@.len() ==> #[trigger] matched@[k] < users@.len(),
        matched@.len() == 1 ==> id_fits(users@[matched@[0] as int].id),
    ensures
        Some(r) == outcome_of(users@, matched@.map_values(|i: usize| i as int)),
{
    if matched.len() != 1 {
        LoginOutcome::Rejected
    } else {
        let id = users[matched[0]].id;
        LoginOutcome::Accepted(UserAuth { id: id as u32 })
    }
}

/// Decides a log-in attempt against the user table: `Rejected` unless
/// exactly one user matches the form, else `Accepted` with that user's id.
/// That user's id must fit a `u32`.
pub fn check_user(users: &Vec<UserDB>, login: &UserLogin) -> (r: LoginOutcome)
    requires
        login_result(users@, *login) is Some,
    ensures
        Some(r) == login_result(users@, *login),
{
    let matched = matching_user_indices(users, login);
    proof {
        lemma_matching_indices_valid(users@, *login);
        let m = matching_indices(users@, *login);
        assert forall|k: int| 0 <= k < matched@.len() implies #[trigger] matched@[k] < users@.len() by {
            assert(m[k] == matched@[k] as int);
        }
    }
    login_outcome(users, &matched)
}

/// Every user whose e-mail is `email` has an id that fits a `u32`.
pub open spec fn email_ids_fit(users: Seq<UserDB>, email: Seq<char>) -> bool {
    forall|i: int| 0 <= i < users.len() && (#[trigger] users[i]).email@ == email ==> id_fits(
        users[i].id,
    )
}

/// Whether every user whose e-mail is `email` has an id that fits a `u32`.
pub fn email_ids_fit_all(users: &Vec<UserDB>, email: &String) -> (r: bool)
    ensures
        r == email_ids_fit(users@, email@),
{
    let n = users.len();
    let mut i: usize = 0;
    while i < n
        invariant
            n == users@.len(),
            i <= n,
            forall|k: int|
                0 <= k < i && (#[trigger] users@[k]).email@ == email@ ==> id_fits(users@[k].id),
        decreases n - i,
    {
        let u = &users[i];
        if u.email == *email && (u.id < 0 || u.id > u32::MAX as i64) {
            assert(users@[i as int].email@ == email@ && !id_fits(users@[i as int].id));
            return false;
        }
        i = i + 1;
    }
    true
}

/// When every user with the form's e-mail has a fitting id, the log-in
/// decision is defined.
pub proof fn lemma_fitting_ids_decide(users: Seq<UserDB>, login: UserLogin)
    requires
        email_ids_fit(users, login.email@),
    ensures
        login_result(users, login) is Some,
{
    lemma_matching_indices_valid(users, login);
    let m = matching_indices(users, login);
    if m.len() == 1 {
        assert(user_matches(users[m[0]], login));
        assert(users[m[0]].email@ == login.email@);
    }
}

/// Decides a log-in attempt against the user table as `check_user` does,
/// for any table: `None` where exactly one user matches and that user's id
/// does not fit a `u32`.
pub fn try_check_user(users: &Vec<UserDB>, login: &UserLogin) -> (r: Option<LoginOutcome>)
    ensures
        r == login_result(users@, *login),
{
    if email_ids_fit_all(users, &login.email) {
        proof {
            lemma_fitting_ids_decide(users@, *login);
        }
        return Some(check_user(users, login));
    }
    let matched = matching_user_indices(users, login);
    proof {
        lemma_matching_indices_valid(users@, *login);
        let m = matching_indices(users@, *login);
        assert forall|k: int| 0 <= k < matched@.len() implies #[trigger] matched@[k] < users@.len() by {
            assert(m[k] == matched@[k] as int);
        }
    }
    if matched.len() == 1 {
        let id = users[matched[0]].id;
        if id < 0 || id > u32::MAX as i64 {
            return None;
        }
    }
    Some(login_outcome(users, &matched))
}

/// Where a log-in attempt leads: home when accepted, back to the log-in
/// page when refused.
pub fn login_redirect(outcome: &LoginOutcome) -> (target: &'static str)
    ensures
        outcome is Rejected ==> target@ == "login"@,
        outcome is Accepted ==> target@ == "/"@,
{
    match outcome {
        LoginOutcome::Rejected => "login",
        LoginOutcome::Accepted(_) => "/",
    }
}

/// The reasons a sign-up can fail.
#[derive(Debug, Clone, Copy, PartialEq, Eq)]
pub enum SignupError {
    /// The password could not be hashed.
    Hashing,
}

/// The user row that a sign-up form creates: the e-mail as given and the
/// password's bcrypt hash (`$2b$10$` and 53 more characters), which accepts
/// that password.
pub fn signup_user(form: &UserLogin) -> (r: Result<NewUser, SignupError>)
    ensures
        r matches Ok(u) ==> u.email@ == form.email@ && bcrypt_form(u.password_hash@) && plain_ascii(
            u.password_hash@,
        ) && bcrypt_verifies(form.password@, u.password_hash@),
        r is Ok,
{
    match hash_password(form.password.as_str()) {
        Ok(h) => Ok(NewUser { email: form.email.clone(), password_hash: h }),
        Err(HashError::Failed) => Err(SignupError::Hashing),
    }
}

} // verus!
