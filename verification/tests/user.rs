use parking::db::{Column, DbError, Reply, Row, Step, Value};
use parking::user::{hash_password, User, UserType, CREATE_USER, FIND_USER_BY_EMAIL, FIND_USER_BY_ID, SAVE_USER};

fn col(name: &str, value: Value) -> Column {
    Column { name: name.to_string(), value }
}

fn text(s: &str) -> Value {
    Value::Text(s.to_string())
}

fn user_row(id: i32, email: &str, hash: &str, t: i32) -> Row {
    Row {
        columns: vec![
            col("user_id", Value::Int(id)),
            col("email", text(email)),
            col("pass_hash", text(hash)),
            col("acct_type", Value::Int(t)),
        ],
    }
}

fn s(x: &str) -> String {
    x.to_string()
}

#[test]
fn account_types_are_stored_as_zero_and_one() {
    assert_eq!(UserType::Parker.to_db(), 0);
    assert_eq!(UserType::Owner.to_db(), 1);
}

#[test]
fn user_parse_reads_a_row() {
    let u = User::parse(&user_row(5, "a@b.c", "h", 1));
    assert_eq!(u, User { user_id: 5, email: s("a@b.c"), pass_hash: s("h"), acct_type: UserType::Owner });
    let p = User::parse(&user_row(6, "d@e.f", "h", 0));
    assert_eq!(p.acct_type, UserType::Parker);
}

#[test]
fn stored_account_type_reads_back_the_same() {
    for t in [UserType::Parker, UserType::Owner] {
        let u = User::parse(&user_row(1, "x", "y", t.to_db()));
        assert_eq!(u.acct_type, t);
    }
}

#[test]
fn user_create_inserts_then_reads_the_row() {
    let replies: Vec<Reply> = vec![];
    match User::create(&s("a@b.c"), &s("hash"), &UserType::Owner, &replies) {
        Step::Run(q) => {
            assert_eq!(q.sql, CREATE_USER);
            assert_eq!(q.params, vec![text("a@b.c"), text("hash"), Value::Int(1)]);
        },
        Step::Done(_) => panic!("expected a query"),
    }
    let replies: Vec<Reply> = vec![Ok(vec![user_row(7, "a@b.c", "hash", 1)])];
    assert_eq!(
        User::create(&s("a@b.c"), &s("hash"), &UserType::Owner, &replies),
        Step::Done(Ok(User { user_id: 7, email: s("a@b.c"), pass_hash: s("hash"), acct_type: UserType::Owner }))
    );
    let replies: Vec<Reply> = vec![Err(DbError { message: s("duplicate") })];
    assert_eq!(
        User::create(&s("a@b.c"), &s("hash"), &UserType::Owner, &replies),
        Step::Done(Err(DbError { message: s("duplicate") }))
    );
}

#[test]
fn hashed_password_is_not_the_password_and_verifies() {
    let h = hash_password(&s("hunter2")).expect("randomness");
    assert_ne!(h, "hunter2");
    assert!(h.starts_with("$2b$06$"));
    assert_eq!(h.chars().count(), 60);
    let u = User { user_id: 1, email: s("e"), pass_hash: h, acct_type: UserType::Parker };
    assert!(u.verify_password(&s("hunter2")));
    assert!(!u.verify_password(&s("hunter3")));
}

#[test]
fn login_accepts_the_right_password_only() {
    let h = hash_password(&s("pw")).unwrap();
    let none: Vec<Reply> = vec![];
    match User::login(&s("a@b.c"), &s("pw"), &none) {
        Step::Run(q) => {
            assert_eq!(q.sql, FIND_USER_BY_EMAIL);
            assert_eq!(q.params, vec![text("a@b.c")]);
        },
        Step::Done(_) => panic!("expected a query"),
    }
    let found: Vec<Reply> = vec![Ok(vec![user_row(3, "a@b.c", &h, 0)])];
    match User::login(&s("a@b.c"), &s("pw"), &found) {
        Step::Done(Ok(u)) => assert_eq!(u.user_id, 3),
        _ => panic!("expected a login"),
    }
    assert_eq!(User::login(&s("a@b.c"), &s("nope"), &found), Step::Done(Err(())));
    let failed: Vec<Reply> = vec![Err(DbError { message: s("down") })];
    assert_eq!(User::login(&s("a@b.c"), &s("pw"), &failed), Step::Done(Err(())));
}

#[test]
fn try_login_reports_an_unreadable_hash() {
    let found: Vec<Reply> = vec![Ok(vec![user_row(3, "a@b.c", "not a hash", 0)])];
    assert_eq!(User::try_login(&s("a@b.c"), &s("pw"), &found), Step::Done(None));
    let h = hash_password(&s("pw")).unwrap();
    let found: Vec<Reply> = vec![Ok(vec![user_row(3, "a@b.c", &h, 0)])];
    match User::try_login(&s("a@b.c"), &s("pw"), &found) {
        Step::Done(Some(Ok(u))) => assert_eq!(u.email, "a@b.c"),
        _ => panic!("expected a login"),
    }
    let failed: Vec<Reply> = vec![Err(DbError { message: s("down") })];
    assert_eq!(User::try_login(&s("a@b.c"), &s("pw"), &failed), Step::Done(Some(Err(()))));
}

#[test]
fn signup_refuses_a_taken_email() {
    let replies: Vec<Reply> = vec![Ok(vec![user_row(3, "a@b.c", "h", 0)])];
    let hashed = hash_password(&s("pw"));
    assert_eq!(User::signup(&s("a@b.c"), &hashed, &UserType::Parker, &replies), Step::Done(Some(Err(()))));
}

#[test]
fn signup_without_a_hash_goes_no_further() {
    let none: Vec<Reply> = vec![];
    assert_eq!(User::signup(&s("a@b.c"), &None, &UserType::Parker, &none), Step::Done(None));
    let taken: Vec<Reply> = vec![Ok(vec![user_row(3, "a@b.c", "h", 0)])];
    assert_eq!(User::signup(&s("a@b.c"), &None, &UserType::Parker, &taken), Step::Done(None));
}

#[test]
fn signup_then_login_with_the_same_password() {
    let hashed = hash_password(&s("pw"));
    let mut replies: Vec<Reply> = vec![];
    match User::signup(&s("a@b.c"), &hashed, &UserType::Owner, &replies) {
        Step::Run(q) => assert_eq!(q.sql, FIND_USER_BY_EMAIL),
        _ => panic!("expected the email lookup"),
    }
    replies.push(Ok(vec![]));
    let hash = match User::signup(&s("a@b.c"), &hashed, &UserType::Owner, &replies) {
        Step::Run(q) => {
            assert_eq!(q.sql, CREATE_USER);
            assert_eq!(q.params[0], text("a@b.c"));
            assert_eq!(q.params[2], Value::Int(1));
            match &q.params[1] {
                Value::Text(h) => h.clone(),
                _ => panic!("expected a hash"),
            }
        },
        _ => panic!("expected the insert"),
    };
    assert_eq!(Some(hash.clone()), hashed);
    replies.push(Ok(vec![user_row(11, "a@b.c", &hash, 1)]));
    match User::signup(&s("a@b.c"), &hashed, &UserType::Owner, &replies) {
        Step::Done(Some(Ok(u))) => assert_eq!(u.user_id, 11),
        _ => panic!("expected the new user"),
    }
    let login: Vec<Reply> = vec![Ok(vec![user_row(11, "a@b.c", &hash, 1)])];
    match User::login(&s("a@b.c"), &s("pw"), &login) {
        Step::Done(Ok(u)) => assert_eq!(u.user_id, 11),
        _ => panic!("expected a login"),
    }
    let failed: Vec<Reply> = vec![Ok(vec![]), Err(DbError { message: s("x") })];
    assert_eq!(User::signup(&s("a@b.c"), &hashed, &UserType::Owner, &failed), Step::Done(Some(Err(()))));
}

#[test]
fn lookup_by_id() {
    let none: Vec<Reply> = vec![];
    match User::lookup(4, &none) {
        Step::Run(q) => {
            assert_eq!(q.sql, FIND_USER_BY_ID);
            assert_eq!(q.params, vec![Value::Int(4)]);
        },
        _ => panic!("expected a query"),
    }
    let found: Vec<Reply> = vec![Ok(vec![user_row(4, "x", "y", 0)])];
    match User::lookup(4, &found) {
        Step::Done(Some(u)) => assert_eq!(u.user_id, 4),
        _ => panic!("expected the user"),
    }
    let failed: Vec<Reply> = vec![Err(DbError { message: s("no column id") })];
    assert_eq!(User::lookup(4, &failed), Step::Done(None));
}

#[test]
fn login_with_an_unknown_email_fails() {
    let nobody: Vec<Reply> = vec![Ok(vec![])];
    assert_eq!(User::login(&s("who@x"), &s("pw"), &nobody), Step::Done(Err(())));
    assert_eq!(User::try_login(&s("who@x"), &s("pw"), &nobody), Step::Done(Some(Err(()))));
}

#[test]
fn lookup_of_an_unknown_id_is_none() {
    let nobody: Vec<Reply> = vec![Ok(vec![])];
    assert_eq!(User::lookup(99, &nobody), Step::Done(None));
}

#[test]
fn save_writes_the_user_row() {
    let u = User { user_id: 7, email: s("a@b.c"), pass_hash: s("h"), acct_type: UserType::Owner };
    let none: Vec<Reply> = vec![];
    match u.save(&none) {
        Step::Run(q) => {
            assert_eq!(q.sql, SAVE_USER);
            assert_eq!(q.params, vec![text("a@b.c"), text("h"), Value::Int(1), Value::Int(7)]);
        },
        _ => panic!("expected the update"),
    }
    let ok: Vec<Reply> = vec![Ok(vec![])];
    assert_eq!(u.save(&ok), Step::Done(Ok(())));
    let failed: Vec<Reply> = vec![Err(DbError { message: s("x") })];
    assert_eq!(u.save(&failed), Step::Done(Err(())));
}
