//! Users: drivers who park and owners who rent out lots; signing up,
//! logging in and looking users up.

use vstd::prelude::*;
use crate::db::{first_row, returned_rows, runs, DbError, Query, Reply, Row, Step, Value};

verus! {

pub const CREATE_USER: &'static str = "INSERT INTO users(email, pass_hash, acct_type)
                              VALUES
                                  ($1, $2, $3)
                              RETURNING *;";

pub const FIND_USER_BY_EMAIL: &'static str = "select * from users where email = $1;";

pub const FIND_USER_BY_ID: &'static str = "select * from users where user_id = $1;";

pub const SAVE_USER: &'static str = "UPDATE users SET email = $1, pass_hash = $2, acct_type = $3
                              WHERE user_id = $4;";

/// The bcrypt cost that passwords are hashed with.
pub const HASH_COST: u32 = 6;

/// What `bcrypt::verify` answers for a password and a stored hash: whether
/// they match, or `None` where it reports an error (a malformed hash).
pub uninterp spec fn bcrypt_verdict(password: Seq<char>, hash: Seq<char>) -> Option<bool>;

/// Calls `bcrypt::verify(password, hash)`; its answer is named
/// `bcrypt_verdict`, a function of the two strings alone (bcrypt takes the
/// salt and the cost from the hash).
#[verifier::external_body]
fn bcrypt_verify(password: &String, hash: &String) -> (r: Option<bool>)
    ensures
        r == bcrypt_verdict(password@, hash@),
{
    bcrypt::verify(password, hash).ok()
}

/// Calls `bcrypt::hash(password, cost)`, which salts with the operating
/// system's randomness, so the hash itself is not stated. What is stated is
/// what the source shows of every hash it returns: verifying the same
/// password against it succeeds, and it is 60 characters that start with
/// `$2b$`, the cost in two digits and `$`. `None` where it reports an error (only
/// when the randomness cannot be had, since the cost is in range).
#[verifier::external_body]
fn bcrypt_hash(password: &String, cost: u32) -> (r: Option<String>)
    requires
        4 <= cost <= 31,
    ensures
        r matches Some(h) ==> bcrypt_verdict(password@, h@) == Some(true),
        r matches Some(h) ==> h@.len() == 60 && h@.subrange(0, 7) == bcrypt_prefix(cost as int),
{
    bcrypt::hash(password, cost).ok()
}

/// The start of a bcrypt hash made with this cost: the version `$2b$`, the
/// cost in two digits, and a `$`.
pub open spec fn bcrypt_prefix(cost: int) -> Seq<char> {
    seq!['$', '2', 'b', '$', ((cost / 10) + 48) as char, ((cost % 10) + 48) as char, '$']
}

/// The kind of account.
#[derive(Debug, PartialEq, Eq, Clone, Copy)]
pub enum UserType {
    Parker,
    Owner,
}

/// The account type that a stored number stands for.
pub open spec fn user_type_from_db(t: i32) -> UserType {
    if t == 0 {
        UserType::Parker
    } else {
        UserType::Owner
    }
}

impl UserType {
    pub open spec fn spec_to_db(self) -> i32 {
        match self {
            UserType::Parker => 0,
            UserType::Owner => 1,
        }
    }

    /// The number the account type is stored as.
    pub fn to_db(&self) -> (r: i32)
        ensures
            r == self.spec_to_db(),
    {
        match self {
            UserType::Parker => 0,
            UserType::Owner => 1,
        }
    }
}

/// Storing an account type and reading it back gives the same type.
pub proof fn law_user_type_round_trip(t: UserType)
    ensures
        user_type_from_db(t.spec_to_db()) == t,
        t.spec_to_db() == 0 || t.spec_to_db() == 1,
{
}

#[derive(Debug, PartialEq)]
pub struct User {
    pub user_id: i32,
    pub email: String,
    pub pass_hash: String,
    pub acct_type: UserType,
}

/// The row holds a user: its id, email and hash, and a valid account type.
pub open spec fn user_row(row: Row) -> bool {
    &&& row.int_at("user_id"@) is Some
    &&& row.text_at("email"@) is Some
    &&& row.text_at("pass_hash"@) is Some
    &&& (row.int_at("acct_type"@) == Some(0i32) || row.int_at("acct_type"@) == Some(1i32))
}

/// The user that a user row holds.
pub open spec fn user_of(row: Row) -> User {
    User {
        user_id: row.int_at("user_id"@).unwrap(),
        email: row.text_at("email"@).unwrap(),
        pass_hash: row.text_at("pass_hash"@).unwrap(),
        acct_type: user_type_from_db(row.int_at("acct_type"@).unwrap()),
    }
}

/// The reply brought back a first row, and it holds a user.
pub open spec fn user_reply(reply: Reply) -> bool {
    returned_rows(reply) && user_row(first_row(reply))
}

/// Where the reply brought back rows, the first holds a user.
pub open spec fn user_reply_if_found(reply: Reply) -> bool {
    returned_rows(reply) ==> user_row(first_row(reply))
}

/// What a login with `password` comes to, given the rows found for the
/// email: no user with that email, or a password that does not verify
/// against the user's hash, is a failed login.
pub open spec fn login_outcome(rows: Seq<Row>, password: Seq<char>) -> Result<User, ()> {
    if rows.len() == 0 {
        Err(())
    } else if bcrypt_verdict(password, user_of(rows[0]).pass_hash@) == Some(true) {
        Ok(user_of(rows[0]))
    } else {
        Err(())
    }
}

/// The step inserts a new user with this email, password hash and account
/// type.
pub open spec fn inserts_user<T>(step: Step<T>, email: String, hash: String, t: UserType) -> bool {
    runs(step, CREATE_USER@, seq![Value::Text(email), Value::Text(hash), Value::Int(t.spec_to_db())])
}

/// A login succeeds only for an email that belongs to a user and a password
/// that bcrypt verifies against that user's hash, and then it is that user.
pub proof fn law_login_needs_a_user_and_the_password(rows: Seq<Row>, password: Seq<char>)
    ensures
        rows.len() == 0 ==> login_outcome(rows, password) == Err::<User, ()>(()),
        login_outcome(rows, password) is Ok <==> rows.len() > 0 && bcrypt_verdict(
            password,
            user_of(rows[0]).pass_hash@,
        ) == Some(true),
        login_outcome(rows, password) matches Ok(u) ==> u == user_of(rows[0]),
{
}

/// Hashes a password for storage; `None` where bcrypt could not get the
/// randomness for a salt.
pub fn hash_password(pw: &String) -> (r: Option<String>)
    ensures
        r matches Some(h) ==> bcrypt_verdict(pw@, h@) == Some(true),
        r matches Some(h) ==> h@.len() == 60 && h@.subrange(0, 7) == bcrypt_prefix(HASH_COST as int),
{
    bcrypt_hash(pw, HASH_COST)
}

impl User {
    /// Parses a user from a database row.
    pub fn parse(row: &Row) -> (u: User)
        requires
            user_row(*row),
        ensures
            u == user_of(*row),
    {
        let t = row.get_int("acct_type").unwrap();
        User {
            user_id: row.get_int("user_id").unwrap(),
            email: row.get_text("email").unwrap(),
            pass_hash: row.get_text("pass_hash").unwrap(),
            acct_type: if t == 0 {
                UserType::Parker
            } else {
                UserType::Owner
            },
        }
    }

    /// Create a user in the database and return it.
    pub fn create(email: &String, phash: &String, acct_type: &UserType, replies: &[Reply]) -> (step: Step<Result<User, DbError>>)
        requires
            replies@.len() > 0 && replies@[0] is Ok ==> user_reply(replies@[0]),
        ensures
            replies@.len() == 0 ==> runs(
                step,
                CREATE_USER@,
                seq![Value::Text(*email), Value::Text(*phash), Value::Int(acct_type.spec_to_db())],
            ),
            replies@.len() > 0 ==> step == Step::Done(match replies@[0] {
                Ok(rows) => Ok(user_of(rows@[0])),
                Err(e) => Err::<User, DbError>(e),
            }),
    {
        if replies.len() == 0 {
            let params = vec![Value::Text(email.clone()), Value::Text(phash.clone()), Value::Int(acct_type.to_db())];
            return Step::Run(Query::new(CREATE_USER, params));
        }
        match &replies[0] {
            Ok(rows) => Step::Done(Ok(User::parse(&rows[0]))),
            Err(e) => Step::Done(Err(e.duplicate())),
        }
    }

    /// Whether `password` is the one this user's hash was made from.
    pub fn verify_password(&self, password: &String) -> (r: bool)
        requires
            bcrypt_verdict(password@, self.pass_hash@) is Some,
        ensures
            r == (bcrypt_verdict(password@, self.pass_hash@) == Some(true)),
    {
        match bcrypt_verify(password, &self.pass_hash) {
            Some(ok) => ok,
            None => false,
        }
    }

    /// Lookup and return the user if login was successful: the email must
    /// belong to a user, and the password verify against the user's hash.
    pub fn login(email: &String, password: &String, replies: &[Reply]) -> (step: Step<Result<User, ()>>)
        requires
            replies@.len() > 0 && returned_rows(replies@[0]) ==> {
                &&& user_row(first_row(replies@[0]))
                &&& bcrypt_verdict(password@, user_of(first_row(replies@[0])).pass_hash@) is Some
            },
        ensures
            replies@.len() == 0 ==> runs(step, FIND_USER_BY_EMAIL@, seq![Value::Text(*email)]),
            replies@.len() > 0 ==> step == Step::Done(match replies@[0] {
                Ok(rows) => login_outcome(rows@, password@),
                Err(_) => Err(()),
            }),
    {
        if replies.len() == 0 {
            let params = vec![Value::Text(email.clone())];
            assert(params@ =~= seq![Value::Text(*email)]);
            return Step::Run(Query::new(FIND_USER_BY_EMAIL, params));
        }
        match &replies[0] {
            Ok(rows) => {
                if rows.len() == 0 {
                    return Step::Done(Err(()));
                }
                let u = User::parse(&rows[0]);
                if u.verify_password(password) {
                    Step::Done(Ok(u))
                } else {
                    Step::Done(Err(()))
                }
            },
            Err(_) => Step::Done(Err(())),
        }
    }

    /// `login`, for any stored hash: `Done(None)` where bcrypt cannot read
    /// the stored hash.
    pub fn try_login(email: &String, password: &String, replies: &[Reply]) -> (step: Step<Option<Result<User, ()>>>)
        requires
            replies@.len() > 0 ==> user_reply_if_found(replies@[0]),
        ensures
            replies@.len() == 0 ==> runs(step, FIND_USER_BY_EMAIL@, seq![Value::Text(*email)]),
            replies@.len() > 0 ==> step == Step::Done(match replies@[0] {
                Ok(rows) => if rows@.len() > 0 && bcrypt_verdict(password@, user_of(rows@[0]).pass_hash@) is None {
                    None
                } else {
                    Some(login_outcome(rows@, password@))
                },
                Err(_) => Some(Err(())),
            }),
    {
        if replies.len() > 0 {
            if let Ok(rows) = &replies[0] {
                if rows.len() > 0 {
                    let hash = rows[0].get_text("pass_hash").unwrap();
                    if bcrypt_verify(password, &hash).is_none() {
                        return Step::Done(None);
                    }
                }
            }
        }
        match User::login(email, password, replies) {
            Step::Run(q) => Step::Run(q),
            Step::Done(r) => Step::Done(Some(r)),
        }
    }

    /// Registers a new user, unless one with this email exists. `hashed` is
    /// what `hash_password` made of the password, before anything else:
    /// where no hash could be made, signup goes no further. Otherwise the
    /// first step looks the email up; the second inserts the user with the
    /// hash; the third reads the inserted row.
    pub fn signup(email: &String, hashed: &Option<String>, t: &UserType, replies: &[Reply]) -> (step: Step<Option<Result<User, ()>>>)
        requires
            replies@.len() > 1 && replies@[1] is Ok ==> user_reply(replies@[1]),
        ensures
            hashed is None ==> step == Step::Done(None::<Result<User, ()>>),
            hashed matches Some(h) ==> {
                &&& replies@.len() == 0 ==> runs(step, FIND_USER_BY_EMAIL@, seq![Value::Text(*email)])
                &&& replies@.len() > 0 && returned_rows(replies@[0]) ==> step == Step::Done(Some(Err::<User, ()>(())))
                &&& replies@.len() == 1 && !returned_rows(replies@[0]) ==> inserts_user(step, *email, *h, *t)
                &&& replies@.len() > 1 && !returned_rows(replies@[0]) ==> step == Step::Done(Some(match replies@[1] {
                    Ok(rows) => Ok(user_of(rows@[0])),
                    Err(_) => Err::<User, ()>(()),
                }))
            },
    {
        let h = match hashed {
            Some(h) => h,
            None => return Step::Done(None),
        };
        if replies.len() == 0 {
            let params = vec![Value::Text(email.clone())];
            assert(params@ =~= seq![Value::Text(*email)]);
            return Step::Run(Query::new(FIND_USER_BY_EMAIL, params));
        }
        if let Ok(rows) = &replies[0] {
            if rows.len() != 0 {
                return Step::Done(Some(Err(())));
            }
        }
        if replies.len() == 1 {
            let params = vec![Value::Text(email.clone()), Value::Text(h.clone()), Value::Int(t.to_db())];
            return Step::Run(Query::new(CREATE_USER, params));
        }
        match &replies[1] {
            Ok(rows) => Step::Done(Some(Ok(User::parse(&rows[0])))),
            Err(_) => Step::Done(Some(Err(()))),
        }
    }

    /// Save the user to the database: its email, password hash and account
    /// type are written to the row with its id.
    pub fn save(&self, replies: &[Reply]) -> (step: Step<Result<(), ()>>)
        ensures
            replies@.len() == 0 ==> runs(
                step,
                SAVE_USER@,
                seq![
                    Value::Text(self.email),
                    Value::Text(self.pass_hash),
                    Value::Int(self.acct_type.spec_to_db()),
                    Value::Int(self.user_id),
                ],
            ),
            replies@.len() > 0 ==> step == Step::Done(if replies@[0] is Ok {
                Ok::<(), ()>(())
            } else {
                Err(())
            }),
    {
        if replies.len() == 0 {
            let params = vec![
                Value::Text(self.email.clone()),
                Value::Text(self.pass_hash.clone()),
                Value::Int(self.acct_type.to_db()),
                Value::Int(self.user_id),
            ];
            return Step::Run(Query::new(SAVE_USER, params));
        }
        match &replies[0] {
            Ok(_) => Step::Done(Ok(())),
            Err(_) => Step::Done(Err(())),
        }
    }

    /// Lookup a user by id in the database; `None` where there is none.
    pub fn lookup(id: i32, replies: &[Reply]) -> (step: Step<Option<User>>)
        requires
            replies@.len() > 0 ==> user_reply_if_found(replies@[0]),
        ensures
            replies@.len() == 0 ==> runs(step, FIND_USER_BY_ID@, seq![Value::Int(id)]),
            replies@.len() > 0 ==> step == Step::Done(match replies@[0] {
                Ok(rows) => if rows@.len() > 0 {
                    Some(user_of(rows@[0]))
                } else {
                    None
                },
                Err(_) => None,
            }),
    {
        if replies.len() == 0 {
            let params = vec![Value::Int(id)];
            assert(params@ =~= seq![Value::Int(id)]);
            return Step::Run(Query::new(FIND_USER_BY_ID, params));
        }
        match &replies[0] {
            Ok(rows) => if rows.len() > 0 {
                Step::Done(Some(User::parse(&rows[0])))
            } else {
                Step::Done(None)
            },
            Err(_) => Step::Done(None),
        }
    }
}

/// What a user row gives back of what `create` wrote: the row holding the
/// email, hash and stored account type that were inserted (and the id the
/// database chose) reads back as exactly that user.
pub proof fn law_inserted_user_reads_back(row: Row, id: i32, email: String, phash: String, t: UserType)
    requires
        row.int_at("user_id"@) == Some(id),
        row.text_at("email"@) == Some(email),
        row.text_at("pass_hash"@) == Some(phash),
        row.int_at("acct_type"@) == Some(t.spec_to_db()),
    ensures
        user_row(row),
        user_of(row) == (User { user_id: id, email, pass_hash: phash, acct_type: t }),
{
}

/// A user who signed up with a password can log in with it: when the hash
/// that signup inserted is one the password verifies against (as every hash
/// that `hash_password` makes is), and the row found at login holds that
/// hash, the login succeeds.
pub proof fn law_signup_then_login(
    email: String,
    password: Seq<char>,
    hash: String,
    t: UserType,
    signup_step: Step<Option<Result<User, ()>>>,
    rows: Seq<Row>,
)
    requires
        bcrypt_verdict(password, hash@) == Some(true),
        inserts_user(signup_step, email, hash, t),
        rows.len() > 0,
        user_row(rows[0]),
        user_of(rows[0]).pass_hash == hash,
    ensures
        login_outcome(rows, password) == Ok::<User, ()>(user_of(rows[0])),
{
}

} // verus!
