//! The account registry: the document store of this system, reachable by
//! unique-key lookup, insert, field update and delete, together with the
//! flows that run against it — login, registration, approval, credential
//! reset, profile update and deletion.
//!
//! The registry's invariant is the system's uniqueness rule: no two accounts
//! share an email, no two share a username, no two share an id, and every
//! stored account carries a credential in bcrypt's hash shape — never the
//! plaintext.

use vstd::prelude::*;
use crate::errors::{AllowError, FeederError, FindUserBy, LoginError, RegistrationError};
use crate::hashing::{bcrypt_verifies, hash_text, is_bcrypt_hash, verify_password, HASH_COST};
use crate::models::{LoginRequest, LoginResponse, RegistrationRequest, Token, User, UserChangeRequest};
use crate::token::{encode_jwt_at, jwt_claims_of};

verus! {

/// Some stored account carries this email.
pub open spec fn has_email(users: Seq<User>, email: Seq<char>) -> bool {
    exists|i: int| 0 <= i < users.len() && users[i].email@ == email
}

/// The index of the account carrying this email.
pub open spec fn email_index(users: Seq<User>, email: Seq<char>) -> int {
    choose|i: int| 0 <= i < users.len() && users[i].email@ == email
}

/// The account carrying this email.
pub open spec fn user_by_email(users: Seq<User>, email: Seq<char>) -> User {
    users[email_index(users, email)]
}

/// Some stored account carries this username.
pub open spec fn has_username(users: Seq<User>, username: Seq<char>) -> bool {
    exists|i: int| 0 <= i < users.len() && users[i].username@ == username
}

/// The index of the account carrying this username.
pub open spec fn username_index(users: Seq<User>, username: Seq<char>) -> int {
    choose|i: int| 0 <= i < users.len() && users[i].username@ == username
}

/// The account carrying this username.
pub open spec fn user_by_username(users: Seq<User>, username: Seq<char>) -> User {
    users[username_index(users, username)]
}

/// Some stored account carries this id.
pub open spec fn has_id(users: Seq<User>, id: u64) -> bool {
    exists|i: int| 0 <= i < users.len() && users[i].id == id
}

/// The index of the account carrying this id.
pub open spec fn id_index(users: Seq<User>, id: u64) -> int {
    choose|i: int| 0 <= i < users.len() && users[i].id == id
}

/// The account carrying this id.
pub open spec fn user_by_id(users: Seq<User>, id: u64) -> User {
    users[id_index(users, id)]
}

/// No two stored accounts share an email.
pub open spec fn emails_unique(users: Seq<User>) -> bool {
    forall|i: int, j: int|
        0 <= i < j < users.len() ==> users[i].email@ != users[j].email@
}

/// No two stored accounts share a username.
pub open spec fn usernames_unique(users: Seq<User>) -> bool {
    forall|i: int, j: int|
        0 <= i < j < users.len() ==> users[i].username@ != users[j].username@
}

/// No two stored accounts share an id.
pub open spec fn ids_unique(users: Seq<User>) -> bool {
    forall|i: int, j: int| 0 <= i < j < users.len() ==> users[i].id != users[j].id
}

/// Every stored account carries a credential in bcrypt's hash shape: a
/// derived hash, never the plaintext.
pub open spec fn passwords_hashed(users: Seq<User>) -> bool {
    forall|i: int| 0 <= i < users.len() ==> is_bcrypt_hash(users[i].password@)
}

/// If the emails are unique, any index carrying an email is the index the
/// lookup names.
pub proof fn lemma_email_index_agrees(users: Seq<User>, email: Seq<char>, i: int)
    requires
        emails_unique(users),
        0 <= i < users.len(),
        users[i].email@ == email,
    ensures
        email_index(users, email) == i,
        user_by_email(users, email) == users[i],
{
    let j = email_index(users, email);
    assert(0 <= j < users.len() && users[j].email@ == email);
}

/// If the usernames are unique, any index carrying a username is the index
/// the lookup names.
pub proof fn lemma_username_index_agrees(users: Seq<User>, username: Seq<char>, i: int)
    requires
        usernames_unique(users),
        0 <= i < users.len(),
        users[i].username@ == username,
    ensures
        username_index(users, username) == i,
        user_by_username(users, username) == users[i],
{
    let j = username_index(users, username);
    assert(0 <= j < users.len() && users[j].username@ == username);
}

/// If the ids are unique, any index carrying an id is the index the lookup
/// names.
pub proof fn lemma_id_index_agrees(users: Seq<User>, id: u64, i: int)
    requires
        ids_unique(users),
        0 <= i < users.len(),
        users[i].id == id,
    ensures
        id_index(users, id) == i,
        user_by_id(users, id) == users[i],
{
    let j = id_index(users, id);
    assert(0 <= j < users.len() && users[j].id == id);
}

/// String equality.
///
/// Relies on `str`'s `PartialEq`: two string slices compare equal exactly
/// when they hold the same characters.
#[verifier::external_body]
fn str_eq(a: &str, b: &str) -> (r: bool)
    ensures
        r == (a@ == b@),
{
    a == b
}

/// The account store, with the identity counter its inserts draw fresh ids
/// from.
pub struct AccountRegistry {
    accounts: Vec<User>,
    next_id: u64,
}

impl View for AccountRegistry {
    type V = Seq<User>;

    closed spec fn view(&self) -> Seq<User> {
        self.accounts@
    }
}

impl AccountRegistry {
    /// The next id an insert will assign.
    pub closed spec fn spec_next_id(self) -> u64 {
        self.next_id
    }

    /// The registry's invariant: unique emails, usernames and ids, stored
    /// credentials in bcrypt's hash shape, and every stored id drawn below
    /// the counter.
    pub open spec fn wf(self) -> bool {
        &&& emails_unique(self@)
        &&& usernames_unique(self@)
        &&& ids_unique(self@)
        &&& passwords_hashed(self@)
        &&& forall|i: int| 0 <= i < self@.len() ==> self@[i].id < self.spec_next_id()
    }

    /// An empty registry.
    pub fn new() -> (r: Self)
        ensures
            r@ == Seq::<User>::empty(),
            r.spec_next_id() == 0,
            r.wf(),
    {
        AccountRegistry { accounts: Vec::new(), next_id: 0 }
    }

    /// The index of the account with this email, if any.
    fn index_by_email(&self, email: &str) -> (r: Option<usize>)
        ensures
            match r {
                Some(i) => i < self@.len() && self@[i as int].email@ == email@,
                None => !has_email(self@, email@),
            },
    {
        let mut i: usize = 0;
        while i < self.accounts.len()
            invariant
                i <= self.accounts.len(),
                forall|j: int| 0 <= j < i ==> self.accounts@[j].email@ != email@,
            decreases self.accounts.len() - i,
        {
            if str_eq(self.accounts[i].email.as_str(), email) {
                return Some(i);
            }
            i += 1;
        }
        None
    }

    /// The index of the account with this username, if any.
    fn index_by_username(&self, username: &str) -> (r: Option<usize>)
        ensures
            match r {
                Some(i) => i < self@.len() && self@[i as int].username@ == username@,
                None => !has_username(self@, username@),
            },
    {
        let mut i: usize = 0;
        while i < self.accounts.len()
            invariant
                i <= self.accounts.len(),
                forall|j: int| 0 <= j < i ==> self.accounts@[j].username@ != username@,
            decreases self.accounts.len() - i,
        {
            if str_eq(self.accounts[i].username.as_str(), username) {
                return Some(i);
            }
            i += 1;
        }
        None
    }

    /// The index of the account with this id, if any.
    fn index_by_id(&self, id: u64) -> (r: Option<usize>)
        ensures
            match r {
                Some(i) => i < self@.len() && self@[i as int].id == id,
                None => !has_id(self@, id),
            },
    {
        let mut i: usize = 0;
        while i < self.accounts.len()
            invariant
                i <= self.accounts.len(),
                forall|j: int| 0 <= j < i ==> self.accounts@[j].id != id,
            decreases self.accounts.len() - i,
        {
            if self.accounts[i].id == id {
                return Some(i);
            }
            i += 1;
        }
        None
    }

    /// Point lookup by field name: `"email"` and `"username"` resolve over
    /// their unique keys; any other field name resolves to absence.
    pub fn find_user_by(&self, find_by: &str, data_find_in: &str) -> (r: Option<User>)
        requires
            self.wf(),
        ensures
            find_by@ == "email"@ ==> match r {
                Some(u) => has_email(self@, data_find_in@) && u == user_by_email(
                    self@,
                    data_find_in@,
                ),
                None => !has_email(self@, data_find_in@),
            },
            find_by@ == "username"@ ==> match r {
                Some(u) => has_username(self@, data_find_in@) && u == user_by_username(
                    self@,
                    data_find_in@,
                ),
                None => !has_username(self@, data_find_in@),
            },
            find_by@ != "email"@ && find_by@ != "username"@ ==> r is None,
    {
        proof {
            reveal_strlit("email");
            reveal_strlit("username");
            assert("email"@.len() != "username"@.len());
        }
        if str_eq(find_by, "email") {
            match self.index_by_email(data_find_in) {
                Some(i) => {
                    proof {
                        lemma_email_index_agrees(self@, data_find_in@, i as int);
                    }
                    Some(self.accounts[i].clone())
                },
                None => None,
            }
        } else if str_eq(find_by, "username") {
            match self.index_by_username(data_find_in) {
                Some(i) => {
                    proof {
                        lemma_username_index_agrees(self@, data_find_in@, i as int);
                    }
                    Some(self.accounts[i].clone())
                },
                None => None,
            }
        } else {
            None
        }
    }

    /// The account with this id, if any.
    pub fn get_userinfo(&self, user_id: u64) -> (r: Option<User>)
        requires
            self.wf(),
        ensures
            match r {
                Some(u) => has_id(self@, user_id) && u == user_by_id(self@, user_id),
                None => !has_id(self@, user_id),
            },
    {
        match self.index_by_id(user_id) {
            Some(i) => {
                proof {
                    lemma_id_index_agrees(self@, user_id, i as int);
                }
                Some(self.accounts[i].clone())
            },
            None => None,
        }
    }

    /// Every stored account, in insertion order.
    #[allow(non_snake_case)]
    pub fn getUserList(&self) -> (r: Vec<User>)
        ensures
            r@ == self@,
    {
        let mut out: Vec<User> = Vec::new();
        let mut i: usize = 0;
        while i < self.accounts.len()
            invariant
                i <= self.accounts.len(),
                out@ == self@.subrange(0, i as int),
            decreases self.accounts.len() - i,
        {
            out.push(self.accounts[i].clone());
            i += 1;
        }
        proof {
            assert(self@.subrange(0, self@.len() as int) =~= self@);
        }
        out
    }
}

impl AccountRegistry {
    /// Approve an account: `Pending` becomes `Active`, so a later login with
    /// correct credentials is no longer gated. An id that resolves to no
    /// account is reported, and nothing changes.
    pub fn allow_user(&mut self, string_id: u64) -> (r: AllowError)
        requires
            old(self).wf(),
        ensures
            final(self).wf(),
            final(self).spec_next_id() == old(self).spec_next_id(),
            !has_id(old(self)@, string_id) ==> r == AllowError::UserNotFound && final(self)@
                == old(self)@,
            has_id(old(self)@, string_id) ==> r == AllowError::Done && final(self)@ == old(
                self,
            )@.update(
                id_index(old(self)@, string_id),
                (User { allow: true, ..old(self)@[id_index(old(self)@, string_id)] }),
            ),
    {
        match self.index_by_id(string_id) {
            Some(i) => {
                proof {
                    lemma_id_index_agrees(self@, string_id, i as int);
                }
                self.accounts[i].allow = true;
                AllowError::Done
            },
            None => AllowError::UserNotFound,
        }
    }

    /// Remove an account. Terminal: the account is gone at once and for
    /// good. An id that resolves to no account is reported, and nothing
    /// changes.
    pub fn delete_user(&mut self, user_id: u64) -> (r: AllowError)
        requires
            old(self).wf(),
        ensures
            final(self).wf(),
            final(self).spec_next_id() == old(self).spec_next_id(),
            !has_id(old(self)@, user_id) ==> r == AllowError::UserNotFound && final(self)@ == old(
                self,
            )@,
            has_id(old(self)@, user_id) ==> r == AllowError::Done && final(self)@ == old(
                self,
            )@.remove(id_index(old(self)@, user_id)),
            !has_id(final(self)@, user_id),
    {
        match self.index_by_id(user_id) {
            Some(i) => {
                proof {
                    lemma_id_index_agrees(self@, user_id, i as int);
                }
                self.accounts.remove(i);
                proof {
                    let prior = old(self)@;
                    let now_ = self@;
                    assert forall|k: int| 0 <= k < now_.len() implies now_[k].id != user_id by {
                        if k < i {
                            assert(now_[k] == prior[k]);
                        } else {
                            assert(now_[k] == prior[k + 1]);
                        }
                    }
                }
                AllowError::Done
            },
            None => AllowError::UserNotFound,
        }
    }

    /// Replace an account's credential with an already-derived hash and
    /// revoke its approval. The exact step behind `forget_password`, taking
    /// the hashing outcome as an argument.
    pub fn reset_with_hash(&mut self, email: &str, new_hash: String) -> (r: AllowError)
        requires
            old(self).wf(),
            is_bcrypt_hash(new_hash@),
        ensures
            final(self).wf(),
            final(self).spec_next_id() == old(self).spec_next_id(),
            !has_email(old(self)@, email@) ==> r == AllowError::UserNotFound && final(self)@ == old(
                self,
            )@,
            has_email(old(self)@, email@) ==> r == AllowError::Done && final(self)@ == old(
                self,
            )@.update(
                email_index(old(self)@, email@),
                (User {
                    password: new_hash,
                    allow: false,
                    ..old(self)@[email_index(old(self)@, email@)]
                }),
            ),
    {
        match self.index_by_email(email) {
            Some(i) => {
                proof {
                    lemma_email_index_agrees(self@, email@, i as int);
                }
                self.accounts[i].password = new_hash;
                self.accounts[i].allow = false;
                AllowError::Done
            },
            None => AllowError::UserNotFound,
        }
    }

    /// Reset a credential from a plaintext: hash it, store the hash, and
    /// force the account back to `Pending` — a credential change always
    /// revokes trust until the account is approved again. Reported as
    /// `UserNotFound` when the email resolves to no account (nothing
    /// changes), or when hashing fails (nothing changes).
    pub fn forget_password(&mut self, email: String, new_password: String) -> (r: AllowError)
        requires
            old(self).wf(),
        ensures
            final(self).wf(),
            final(self).spec_next_id() == old(self).spec_next_id(),
            !has_email(old(self)@, email@) ==> r == AllowError::UserNotFound && final(self)@ == old(
                self,
            )@,
            r == AllowError::UserNotFound ==> final(self)@ == old(self)@,
            has_email(old(self)@, email@) && r == AllowError::Done ==> {
                let i = email_index(old(self)@, email@);
                let u = final(self)@[i];
                &&& final(self)@ == old(self)@.update(i, u)
                &&& u.allow == false
                &&& bcrypt_verifies(new_password@, u.password@)
                &&& is_bcrypt_hash(u.password@)
                &&& u.id == old(self)@[i].id
                &&& u.email == old(self)@[i].email
                &&& u.username == old(self)@[i].username
                &&& u.first_name == old(self)@[i].first_name
                &&& u.last_name == old(self)@[i].last_name
                &&& u.role == old(self)@[i].role
            },
    {
        match hash_text(new_password, HASH_COST) {
            Ok(hash_password) => self.reset_with_hash(email.as_str(), hash_password),
            Err(()) => AllowError::UserNotFound,
        }
    }
}

/// The patch would hand the account at `i` an email or username some other
/// account already carries.
pub open spec fn patch_collides(users: Seq<User>, i: int, info: UserChangeRequest) -> bool {
    ||| exists|j: int| 0 <= j < users.len() && j != i && users[j].email@ == info.email@
    ||| exists|j: int| 0 <= j < users.len() && j != i && users[j].username@ == info.username@
}

/// The account at `i` rewritten by the patch, its password replaced when the
/// patch carries one.
pub open spec fn patched_user(prior: User, info: UserChangeRequest, password: Option<
    String,
>) -> User {
    User {
        id: prior.id,
        email: info.email,
        username: info.username,
        first_name: info.first_name,
        last_name: info.last_name,
        role: info.role,
        password: match password {
            Some(h) => h,
            None => prior.password,
        },
        allow: info.allow,
    }
}

impl AccountRegistry {
    /// Whether the patch would collide with an account other than the one at
    /// index `i`.
    fn check_patch_collision(&self, i: usize, info: &UserChangeRequest) -> (r: bool)
        requires
            i < self@.len(),
        ensures
            r == patch_collides(self@, i as int, *info),
    {
        let mut j: usize = 0;
        while j < self.accounts.len()
            invariant
                j <= self.accounts.len(),
                i < self@.len(),
                forall|k: int|
                    0 <= k < j && k != i ==> self.accounts@[k].email@ != info.email@
                        && self.accounts@[k].username@ != info.username@,
            decreases self.accounts.len() - j,
        {
            if j != i && (str_eq(self.accounts[j].email.as_str(), info.email.as_str()) || str_eq(
                self.accounts[j].username.as_str(),
                info.username.as_str(),
            )) {
                return true;
            }
            j += 1;
        }
        false
    }

    /// Apply a profile patch with an already-derived password hash (or none,
    /// keeping the stored credential). The exact step behind `change_user`,
    /// taking the hashing outcome as an argument. Refused — reported as
    /// `UserNotFound`, with nothing changed — when the id resolves to no
    /// account or the patch would break the uniqueness of emails or
    /// usernames.
    pub fn change_with_hash(
        &mut self,
        string_id: u64,
        info: &UserChangeRequest,
        password_hash: Option<String>,
    ) -> (r: AllowError)
        requires
            old(self).wf(),
            password_hash matches Some(h) ==> is_bcrypt_hash(h@),
        ensures
            final(self).wf(),
            final(self).spec_next_id() == old(self).spec_next_id(),
            !has_id(old(self)@, string_id) ==> r == AllowError::UserNotFound && final(self)@ == old(
                self,
            )@,
            has_id(old(self)@, string_id) && patch_collides(
                old(self)@,
                id_index(old(self)@, string_id),
                *info,
            ) ==> r == AllowError::UserNotFound && final(self)@ == old(self)@,
            has_id(old(self)@, string_id) && !patch_collides(
                old(self)@,
                id_index(old(self)@, string_id),
                *info,
            ) ==> r == AllowError::Done && final(self)@ == old(self)@.update(
                id_index(old(self)@, string_id),
                patched_user(
                    old(self)@[id_index(old(self)@, string_id)],
                    *info,
                    password_hash,
                ),
            ),
    {
        match self.index_by_id(string_id) {
            Some(i) => {
                proof {
                    lemma_id_index_agrees(self@, string_id, i as int);
                }
                if self.check_patch_collision(i, info) {
                    AllowError::UserNotFound
                } else {
                    let prior = self.accounts[i].clone();
                    self.accounts[i] = patch_in_exec(prior, info, password_hash);
                    AllowError::Done
                }
            },
            None => AllowError::UserNotFound,
        }
    }

    /// Update an account's profile: username, email, names, role and the
    /// activation flag are all rewritten from the patch; a non-empty
    /// password in the patch is rehashed and stored in the same update,
    /// without revoking approval (unlike a credential reset — the asymmetry
    /// is the system's stated trade-off). Reported as `UserNotFound`, with
    /// nothing changed, when the patch is missing, the id resolves to no
    /// account, the patch would break uniqueness, or hashing fails.
    pub fn change_user(&mut self, string_id: u64, user_infor: Option<UserChangeRequest>) -> (r:
        AllowError)
        requires
            old(self).wf(),
        ensures
            final(self).wf(),
            final(self).spec_next_id() == old(self).spec_next_id(),
            r == AllowError::UserNotFound ==> final(self)@ == old(self)@,
            user_infor is None ==> r == AllowError::UserNotFound,
            !has_id(old(self)@, string_id) ==> r == AllowError::UserNotFound,
            user_infor matches Some(info) && has_id(old(self)@, string_id) && patch_collides(
                old(self)@,
                id_index(old(self)@, string_id),
                info,
            ) ==> r == AllowError::UserNotFound,
            r == AllowError::Done ==> (user_infor matches Some(info) && has_id(
                old(self)@,
                string_id,
            ) && !patch_collides(old(self)@, id_index(old(self)@, string_id), info) && {
                let i = id_index(old(self)@, string_id);
                let u = final(self)@[i];
                &&& final(self)@ == old(self)@.update(i, u)
                &&& u.id == old(self)@[i].id
                &&& u.email == info.email
                &&& u.username == info.username
                &&& u.first_name == info.first_name
                &&& u.last_name == info.last_name
                &&& u.role == info.role
                &&& u.allow == info.allow
                &&& (info.password@.len() == 0 ==> u.password == old(self)@[i].password)
                &&& (info.password@.len() > 0 ==> bcrypt_verifies(info.password@, u.password@)
                    && is_bcrypt_hash(u.password@))
            }),
            user_infor matches Some(info) && has_id(old(self)@, string_id) && !patch_collides(
                old(self)@,
                id_index(old(self)@, string_id),
                info,
            ) && info.password@.len() == 0 ==> r == AllowError::Done,
    {
        match user_infor {
            None => AllowError::UserNotFound,
            Some(users_info) => {
                if users_info.password.as_str().unicode_len() == 0 {
                    self.change_with_hash(string_id, &users_info, None)
                } else {
                    match hash_text(users_info.password.clone(), HASH_COST) {
                        Ok(hashpassword) => self.change_with_hash(
                            string_id,
                            &users_info,
                            Some(hashpassword),
                        ),
                        Err(()) => AllowError::UserNotFound,
                    }
                }
            },
        }
    }
}

impl AccountRegistry {
    /// Login: a strict ordered pipeline. An unknown email is `WrongLogin`;
    /// a known email with a credential its stored hash refuses is
    /// `WrongPassword`; correct credentials on an unapproved account are
    /// `NotPermit`, and never a token; correct credentials on an approved
    /// account yield the account's id and role and a token over them,
    /// expiring `expiration_token` seconds after `now`.
    pub fn login(
        &self,
        login_request: &LoginRequest,
        secret: &str,
        expiration_token: u64,
        now: u64,
    ) -> (r: LoginError)
        requires
            self.wf(),
            now + expiration_token <= u64::MAX,
        ensures
            (r is WrongLogin) == !has_email(self@, login_request.email@),
            has_email(self@, login_request.email@) ==> ((r is WrongPassword) == !bcrypt_verifies(
                login_request.password@,
                user_by_email(self@, login_request.email@).password@,
            )),
            has_email(self@, login_request.email@) && bcrypt_verifies(
                login_request.password@,
                user_by_email(self@, login_request.email@).password@,
            ) ==> ((r is NotPermit) == !user_by_email(self@, login_request.email@).allow),
            has_email(self@, login_request.email@) && bcrypt_verifies(
                login_request.password@,
                user_by_email(self@, login_request.email@).password@,
            ) && user_by_email(self@, login_request.email@).allow ==> (r matches
                LoginError::Accepted(resp) && ({
                let u = user_by_email(self@, login_request.email@);
                &&& resp.userID == u.id
                &&& resp.role == u.role
                &&& jwt_claims_of(resp.token.token@, secret@) == Some(
                    (u.id, u.role, (now + expiration_token) as u64),
                )
            })),
            !(r is Unknown),
    {
        match self.index_by_email(login_request.email.as_str()) {
            None => LoginError::WrongLogin,
            Some(i) => {
                proof {
                    lemma_email_index_agrees(self@, login_request.email@, i as int);
                }
                if verify_password(
                    login_request.password.as_str(),
                    self.accounts[i].password.as_str(),
                ) {
                    if self.accounts[i].allow {
                        let token = encode_jwt_at(
                            self.accounts[i].id,
                            self.accounts[i].role,
                            secret,
                            expiration_token,
                            now,
                        );
                        LoginError::Accepted(
                            LoginResponse {
                                token: Token { token },
                                userID: self.accounts[i].id,
                                role: self.accounts[i].role,
                            },
                        )
                    } else {
                        LoginError::NotPermit
                    }
                } else {
                    LoginError::WrongPassword
                }
            },
        }
    }

    /// Create an account from an already-derived credential hash. The exact
    /// step behind registration, taking the hashing outcome as an argument:
    /// on fresh email and username it always succeeds, appending an account
    /// whose id is drawn fresh from the counter and whose activation is
    /// `auto_activate`, and returns a token over the new identity.
    pub fn register_with_hash(
        &mut self,
        registration_request: &RegistrationRequest,
        hash_password: String,
        auto_activate: bool,
        secret: &str,
        expiration_token: u64,
        now: u64,
    ) -> (r: RegistrationError)
        requires
            old(self).wf(),
            is_bcrypt_hash(hash_password@),
            now + expiration_token <= u64::MAX,
            old(self).spec_next_id() < u64::MAX,
        ensures
            final(self).wf(),
            has_email(old(self)@, registration_request.email@) ==> (r is AlreadyRegisteredByEmail)
                && final(self)@ == old(self)@ && final(self).spec_next_id() == old(
                self,
            ).spec_next_id(),
            !has_email(old(self)@, registration_request.email@) && has_username(
                old(self)@,
                registration_request.username@,
            ) ==> (r is AlreadyRegisteredByUsername) && final(self)@ == old(self)@ && final(self).spec_next_id() == old(self).spec_next_id(),
            (r is Registered) == (!has_email(old(self)@, registration_request.email@)
                && !has_username(old(self)@, registration_request.username@)),
            r matches RegistrationError::Registered(t) ==> ({
                let u = final(self)@.last();
                &&& final(self)@ == old(self)@.push(u)
                &&& final(self).spec_next_id() == old(self).spec_next_id() + 1
                &&& u.id == old(self).spec_next_id()
                &&& u.email == registration_request.email
                &&& u.username == registration_request.username
                &&& u.first_name == registration_request.first_name
                &&& u.last_name == registration_request.last_name
                &&& u.role == registration_request.role
                &&& u.password == hash_password
                &&& u.allow == auto_activate
                &&& jwt_claims_of(t.token@, secret@) == Some(
                    (u.id, u.role, (now + expiration_token) as u64),
                )
            }),
    {
        if let Some(_) = self.index_by_email(registration_request.email.as_str()) {
            return RegistrationError::AlreadyRegisteredByEmail;
        }
        if let Some(_) = self.index_by_username(registration_request.username.as_str()) {
            return RegistrationError::AlreadyRegisteredByUsername;
        }
        let id = self.next_id;
        let user = User {
            id,
            email: registration_request.email.clone(),
            username: registration_request.username.clone(),
            first_name: registration_request.first_name.clone(),
            last_name: registration_request.last_name.clone(),
            role: registration_request.role,
            password: hash_password,
            allow: auto_activate,
        };
        self.accounts.push(user);
        self.next_id = id + 1;
        let token = encode_jwt_at(id, registration_request.role, secret, expiration_token, now);
        RegistrationError::Registered(Token { token })
    }

    /// Registration: run the ordered uniqueness resolution, and on a fresh
    /// email and username hash the credential and create the account with
    /// activation `auto_activate` (`false` on the self-service path, `true`
    /// on the admin path). A used email wins over a used username; hashing
    /// failure is the weak-credential outcome and creates nothing.
    pub fn register(
        &mut self,
        registration_request: &RegistrationRequest,
        auto_activate: bool,
        secret: &str,
        expiration_token: u64,
        now: u64,
    ) -> (r: RegistrationError)
        requires
            old(self).wf(),
            now + expiration_token <= u64::MAX,
            old(self).spec_next_id() < u64::MAX,
        ensures
            final(self).wf(),
            (r is AlreadyRegisteredByEmail) == has_email(
                old(self)@,
                registration_request.email@,
            ),
            !has_email(old(self)@, registration_request.email@) ==> ((r
                is AlreadyRegisteredByUsername) == has_username(
                old(self)@,
                registration_request.username@,
            )),
            !(r is Registered) ==> final(self)@ == old(self)@ && final(self).spec_next_id() == old(
                self,
            ).spec_next_id(),
            (r is WrongPassword) ==> !has_email(old(self)@, registration_request.email@)
                && !has_username(old(self)@, registration_request.username@),
            !has_email(old(self)@, registration_request.email@) && !has_username(
                old(self)@,
                registration_request.username@,
            ) ==> (r is Registered) || (r is WrongPassword),
            r matches RegistrationError::Registered(t) ==> ({
                let u = final(self)@.last();
                &&& final(self)@ == old(self)@.push(u)
                &&& final(self).spec_next_id() == old(self).spec_next_id() + 1
                &&& u.id == old(self).spec_next_id()
                &&& u.email == registration_request.email
                &&& u.username == registration_request.username
                &&& u.first_name == registration_request.first_name
                &&& u.last_name == registration_request.last_name
                &&& u.role == registration_request.role
                &&& u.allow == auto_activate
                &&& bcrypt_verifies(registration_request.password@, u.password@)
                &&& is_bcrypt_hash(u.password@)
                &&& jwt_claims_of(t.token@, secret@) == Some(
                    (u.id, u.role, (now + expiration_token) as u64),
                )
            }),
            !(r is Unknown) && !(r is AlreadyRegisteredByLogin),
    {
        match find_user_by_email_username(
            &*self,
            registration_request.email.as_str(),
            registration_request.username.as_str(),
        ) {
            FindUserBy::UserNotFound => {
                match hash_text(registration_request.password.clone(), HASH_COST) {
                    Ok(hash_password) => self.register_with_hash(
                        registration_request,
                        hash_password,
                        auto_activate,
                        secret,
                        expiration_token,
                        now,
                    ),
                    Err(()) => RegistrationError::WrongPassword,
                }
            },
            FindUserBy::UserFoundByEmail => RegistrationError::AlreadyRegisteredByEmail,
            FindUserBy::UserFoundByLogin => RegistrationError::AlreadyRegisteredByLogin,
            FindUserBy::UserFoundByUsername => RegistrationError::AlreadyRegisteredByUsername,
        }
    }

    /// Self-service registration: the created account awaits approval
    /// (`allow = false`), and the new identity's token is returned.
    pub fn registration(
        &mut self,
        registration_request: &RegistrationRequest,
        secret: &str,
        expiration_token: u64,
        now: u64,
    ) -> (r: RegistrationError)
        requires
            old(self).wf(),
            now + expiration_token <= u64::MAX,
            old(self).spec_next_id() < u64::MAX,
        ensures
            final(self).wf(),
            (r is AlreadyRegisteredByEmail) == has_email(
                old(self)@,
                registration_request.email@,
            ),
            !has_email(old(self)@, registration_request.email@) ==> ((r
                is AlreadyRegisteredByUsername) == has_username(
                old(self)@,
                registration_request.username@,
            )),
            !(r is Registered) ==> final(self)@ == old(self)@ && final(self).spec_next_id() == old(
                self,
            ).spec_next_id(),
            !has_email(old(self)@, registration_request.email@) && !has_username(
                old(self)@,
                registration_request.username@,
            ) ==> (r is Registered) || (r is WrongPassword),
            r matches RegistrationError::Registered(t) ==> ({
                let u = final(self)@.last();
                &&& final(self)@ == old(self)@.push(u)
                &&& final(self).spec_next_id() == old(self).spec_next_id() + 1
                &&& u.id == old(self).spec_next_id()
                &&& u.email == registration_request.email
                &&& u.username == registration_request.username
                &&& u.first_name == registration_request.first_name
                &&& u.last_name == registration_request.last_name
                &&& u.role == registration_request.role
                &&& u.allow == false
                &&& bcrypt_verifies(registration_request.password@, u.password@)
                &&& is_bcrypt_hash(u.password@)
                &&& jwt_claims_of(t.token@, secret@) == Some(
                    (u.id, u.role, (now + expiration_token) as u64),
                )
            }),
            !(r is Unknown) && !(r is AlreadyRegisteredByLogin),
    {
        self.register(registration_request, false, secret, expiration_token, now)
    }

    /// Admin-path registration: identical to self-service except that the
    /// created account is pre-activated (`allow = true`). The token over the
    /// new identity is returned here too; the boundary discards it, since
    /// the admin acts on behalf of another identity.
    pub fn admin_user_registration(
        &mut self,
        registration_request: &RegistrationRequest,
        secret: &str,
        expiration_token: u64,
        now: u64,
    ) -> (r: RegistrationError)
        requires
            old(self).wf(),
            now + expiration_token <= u64::MAX,
            old(self).spec_next_id() < u64::MAX,
        ensures
            final(self).wf(),
            (r is AlreadyRegisteredByEmail) == has_email(
                old(self)@,
                registration_request.email@,
            ),
            !has_email(old(self)@, registration_request.email@) ==> ((r
                is AlreadyRegisteredByUsername) == has_username(
                old(self)@,
                registration_request.username@,
            )),
            !(r is Registered) ==> final(self)@ == old(self)@ && final(self).spec_next_id() == old(
                self,
            ).spec_next_id(),
            !has_email(old(self)@, registration_request.email@) && !has_username(
                old(self)@,
                registration_request.username@,
            ) ==> (r is Registered) || (r is WrongPassword),
            r matches RegistrationError::Registered(t) ==> ({
                let u = final(self)@.last();
                &&& final(self)@ == old(self)@.push(u)
                &&& final(self).spec_next_id() == old(self).spec_next_id() + 1
                &&& u.id == old(self).spec_next_id()
                &&& u.email == registration_request.email
                &&& u.username == registration_request.username
                &&& u.first_name == registration_request.first_name
                &&& u.last_name == registration_request.last_name
                &&& u.role == registration_request.role
                &&& u.allow == true
                &&& bcrypt_verifies(registration_request.password@, u.password@)
                &&& is_bcrypt_hash(u.password@)
                &&& jwt_claims_of(t.token@, secret@) == Some(
                    (u.id, u.role, (now + expiration_token) as u64),
                )
            }),
            !(r is Unknown) && !(r is AlreadyRegisteredByLogin),
    {
        self.register(registration_request, true, secret, expiration_token, now)
    }

    /// Seed the single super-admin: if neither the email nor the username is
    /// taken, create the account with role 0, pre-activated. Reported as
    /// already-registered when either key is taken or hashing fails, and
    /// nothing changes then.
    pub fn feeder(
        &mut self,
        admin_email: String,
        admin_username: String,
        admin_password: String,
        admin_first_name: String,
        admin_last_name: String,
    ) -> (r: FeederError)
        requires
            old(self).wf(),
            old(self).spec_next_id() < u64::MAX,
        ensures
            final(self).wf(),
            !(r is Seeded) ==> final(self)@ == old(self)@ && final(self).spec_next_id() == old(
                self,
            ).spec_next_id(),
            has_email(old(self)@, admin_email@) ==> (r is AlreadyRegisteredByEmail),
            (r is AlreadyRegisteredByUsername) == (!has_email(old(self)@, admin_email@)
                && has_username(old(self)@, admin_username@)),
            !has_email(old(self)@, admin_email@) && !has_username(old(self)@, admin_username@)
                ==> ((r is Seeded) || (r is AlreadyRegisteredByEmail)),
            r matches FeederError::Seeded(m) ==> m@ == "Success"@ && !has_email(
                old(self)@,
                admin_email@,
            ) && !has_username(old(self)@, admin_username@) && ({
                let u = final(self)@.last();
                &&& final(self)@ == old(self)@.push(u)
                &&& final(self).spec_next_id() == old(self).spec_next_id() + 1
                &&& u.id == old(self).spec_next_id()
                &&& u.email == admin_email
                &&& u.username == admin_username
                &&& u.first_name == admin_first_name
                &&& u.last_name == admin_last_name
                &&& u.role == 0
                &&& u.allow == true
                &&& bcrypt_verifies(admin_password@, u.password@)
                &&& is_bcrypt_hash(u.password@)
            }),
    {
        match find_user_by_email_username(&*self, admin_email.as_str(), admin_username.as_str()) {
            FindUserBy::UserNotFound => {
                match hash_text(admin_password, HASH_COST) {
                    Ok(hash_password) => {
                        let id = self.next_id;
                        let user = User {
                            id,
                            email: admin_email,
                            username: admin_username,
                            first_name: admin_first_name,
                            last_name: admin_last_name,
                            role: 0,
                            password: hash_password,
                            allow: true,
                        };
                        self.accounts.push(user);
                        self.next_id = id + 1;
                        FeederError::Seeded(String::from_str("Success"))
                    },
                    Err(()) => FeederError::AlreadyRegisteredByEmail,
                }
            },
            FindUserBy::UserFoundByLogin => FeederError::AlreadyRegisteredByEmail,
            FindUserBy::UserFoundByEmail => FeederError::AlreadyRegisteredByEmail,
            FindUserBy::UserFoundByUsername => FeederError::AlreadyRegisteredByUsername,
        }
    }
}

/// Law: in a well-formed registry no two accounts share an email and no two
/// share a username; every mutation of `AccountRegistry` promises `wf` of
/// the state it leaves behind, so this holds of every reachable state.
pub proof fn lemma_uniqueness(r: AccountRegistry)
    requires
        r.wf(),
    ensures
        forall|i: int, j: int|
            0 <= i < r@.len() && 0 <= j < r@.len() && i != j ==> r@[i].email@ != r@[j].email@,
        forall|i: int, j: int|
            0 <= i < r@.len() && 0 <= j < r@.len() && i != j ==> r@[i].username@
                != r@[j].username@,
{
}

/// Law: a credential reset revokes trust. The state a successful
/// `forget_password` leaves behind — the account rewritten with the new
/// hash and `allow == false` — is exactly one in which `login` with the new
/// password resolves to `NotPermit`: the email is still found, the new
/// password verifies, and the account is not approved.
pub proof fn lemma_reset_revokes_trust(
    prior: Seq<User>,
    after: Seq<User>,
    u: User,
    email: Seq<char>,
    new_password: Seq<char>,
)
    requires
        emails_unique(prior),
        has_email(prior, email),
        u.email == prior[email_index(prior, email)].email,
        prior[email_index(prior, email)].email@ == email,
        u.allow == false,
        bcrypt_verifies(new_password, u.password@),
        after == prior.update(email_index(prior, email), u),
    ensures
        emails_unique(after),
        has_email(after, email),
        bcrypt_verifies(new_password, user_by_email(after, email).password@),
        !user_by_email(after, email).allow,
{
    let i = email_index(prior, email);
    assert(0 <= i < prior.len() && prior[i].email@ == email);
    assert(after[i] == u);
    assert(has_email(after, email));
    lemma_email_index_agrees(after, email, i);
}

/// Build the patched account record in executable code.
fn patch_in_exec(prior: User, info: &UserChangeRequest, password_hash: Option<String>) -> (r: User)
    ensures
        r == patched_user(prior, *info, password_hash),
{
    let password = match password_hash {
        Some(h) => h,
        None => prior.password,
    };
    User {
        id: prior.id,
        email: info.email.clone(),
        username: info.username.clone(),
        first_name: info.first_name.clone(),
        last_name: info.last_name.clone(),
        role: info.role,
        password,
        allow: info.allow,
    }
}

/// The ordered uniqueness resolution used by registration: the email is
/// looked up first, then the username; the email collision wins when both
/// collide. The in-memory registry's lookups cannot fail, so the
/// lookup-failure signal `UserFoundByLogin` is never reported.
pub fn find_user_by_email_username(
    database: &AccountRegistry,
    email: &str,
    username: &str,
) -> (r: FindUserBy)
    requires
        database.wf(),
    ensures
        (r is UserFoundByEmail) == has_email(database@, email@),
        !has_email(database@, email@) ==> (r is UserFoundByUsername) == has_username(
            database@,
            username@,
        ),
        (r is UserNotFound) == (!has_email(database@, email@) && !has_username(
            database@,
            username@,
        )),
        !(r is UserFoundByLogin),
{
    match database.find_user_by("email", email) {
        Some(_) => FindUserBy::UserFoundByEmail,
        None => match database.find_user_by("username", username) {
            Some(_) => FindUserBy::UserFoundByUsername,
            None => FindUserBy::UserNotFound,
        },
    }
}

} // verus!
