//! The database as the rest of the library sees it: rows of named columns,
//! queries to run, replies that come back, and the pool that keeps idle
//! clients for reuse.
//!
//! Every operation that talks to the database is written as a step
//! function: it is handed the replies received so far and answers either
//! with the next query to run or with its final result.

use vstd::prelude::*;
use std::collections::VecDeque;

verus! {

/// One column value as the database hands it over.
#[derive(Debug, PartialEq)]
pub enum Value {
    Null,
    Int(i32),
    Text(String),
    /// A UTC timestamp, in seconds since 1970-01-01T00:00:00.
    Time(i64),
}

impl Value {
    /// A copy of this value.
    pub fn duplicate(&self) -> (r: Value)
        ensures
            r == *self,
    {
        match self {
            Value::Null => Value::Null,
            Value::Int(i) => Value::Int(*i),
            Value::Text(s) => Value::Text(s.clone()),
            Value::Time(t) => Value::Time(*t),
        }
    }
}

/// A named column of a result row.
#[derive(Debug, PartialEq)]
pub struct Column {
    pub name: String,
    pub value: Value,
}

/// One row of a query result, its columns in the order the query gave them.
#[derive(Debug, PartialEq)]
pub struct Row {
    pub columns: Vec<Column>,
}

/// The value of the first column called `name`, if there is one.
pub open spec fn column_value(cols: Seq<Column>, name: Seq<char>) -> Option<Value>
    decreases cols.len(),
{
    if cols.len() == 0 {
        None
    } else if cols[0].name@ == name {
        Some(cols[0].value)
    } else {
        column_value(cols.drop_first(), name)
    }
}

/// `column_value` finds the first column whose name matches.
proof fn lemma_column_value_first(cols: Seq<Column>, name: Seq<char>, i: int)
    requires
        0 <= i <= cols.len(),
        forall|j: int| 0 <= j < i ==> cols[j].name@ != name,
    ensures
        i < cols.len() && cols[i].name@ == name ==> column_value(cols, name) == Some(cols[i].value),
        i == cols.len() ==> column_value(cols, name) is None,
    decreases i,
{
    if i > 0 {
        let rest = cols.drop_first();
        assert forall|j: int| 0 <= j < i - 1 implies rest[j].name@ != name by {
            assert(rest[j] == cols[j + 1]);
        }
        lemma_column_value_first(rest, name, i - 1);
        if i < cols.len() {
            assert(rest[i - 1] == cols[i]);
        }
    }
}

impl Row {
    /// The value of the column called `name`.
    pub open spec fn value(self, name: Seq<char>) -> Option<Value> {
        column_value(self.columns@, name)
    }

    /// The integer in the column called `name`, if it holds one.
    pub open spec fn int_at(self, name: Seq<char>) -> Option<i32> {
        match self.value(name) {
            Some(Value::Int(i)) => Some(i),
            _ => None,
        }
    }

    /// The text in the column called `name`, if it holds some.
    pub open spec fn text_at(self, name: Seq<char>) -> Option<String> {
        match self.value(name) {
            Some(Value::Text(s)) => Some(s),
            _ => None,
        }
    }

    /// The timestamp in the column called `name`, if it holds one.
    pub open spec fn time_at(self, name: Seq<char>) -> Option<i64> {
        match self.value(name) {
            Some(Value::Time(t)) => Some(t),
            _ => None,
        }
    }

    fn position(&self, name: &str) -> (r: Option<usize>)
        ensures
            match r {
                Some(i) => i < self.columns@.len() && self.value(name@) == Some(self.columns@[i as int].value),
                None => self.value(name@) is None,
            },
    {
        let key = String::from_str(name);
        let mut i: usize = 0;
        while i < self.columns.len()
            invariant
                i <= self.columns@.len(),
                key@ == name@,
                forall|j: int| 0 <= j < i ==> self.columns@[j].name@ != name@,
            decreases self.columns@.len() - i,
        {
            if self.columns[i].name == key {
                proof {
                    lemma_column_value_first(self.columns@, name@, i as int);
                }
                return Some(i);
            }
            i = i + 1;
        }
        proof {
            lemma_column_value_first(self.columns@, name@, i as int);
        }
        None
    }

    /// The integer in the column called `name`.
    pub fn get_int(&self, name: &str) -> (r: Option<i32>)
        ensures
            r == self.int_at(name@),
    {
        match self.position(name) {
            Some(i) => match &self.columns[i].value {
                Value::Int(v) => Some(*v),
                _ => None,
            },
            None => None,
        }
    }

    /// The text in the column called `name`.
    pub fn get_text(&self, name: &str) -> (r: Option<String>)
        ensures
            r == self.text_at(name@),
    {
        match self.position(name) {
            Some(i) => match &self.columns[i].value {
                Value::Text(s) => Some(s.clone()),
                _ => None,
            },
            None => None,
        }
    }

    /// The timestamp in the column called `name`.
    pub fn get_time(&self, name: &str) -> (r: Option<i64>)
        ensures
            r == self.time_at(name@),
    {
        match self.position(name) {
            Some(i) => match &self.columns[i].value {
                Value::Time(t) => Some(*t),
                _ => None,
            },
            None => None,
        }
    }
}

/// What the database reports when a query fails.
#[derive(Debug, PartialEq)]
pub struct DbError {
    pub message: String,
}

impl DbError {
    /// A copy of this error.
    pub fn duplicate(&self) -> (r: DbError)
        ensures
            r == *self,
    {
        DbError { message: self.message.clone() }
    }
}

/// A statement to run, with its positional parameters `$1`, `$2`, ...
#[derive(Debug, PartialEq)]
pub struct Query {
    pub sql: String,
    pub params: Vec<Value>,
}

impl Query {
    /// The query `sql` with the parameters `params`.
    pub fn new(sql: &str, params: Vec<Value>) -> (q: Query)
        ensures
            q.sql@ == sql@,
            q.params@ == params@,
    {
        Query { sql: String::from_str(sql), params }
    }
}

/// What came back from running a query: its rows, or the error.
pub type Reply = Result<Vec<Row>, DbError>;

/// The next move of an operation that talks to the database.
#[derive(Debug, PartialEq)]
pub enum Step<T> {
    /// Run this query and hand its reply back, after the replies so far.
    Run(Query),
    /// The operation is over, with this result.
    Done(T),
}

/// The step runs the query `sql` with the parameters `params`.
pub open spec fn runs<T>(step: Step<T>, sql: Seq<char>, params: Seq<Value>) -> bool {
    step matches Step::Run(q) && q.sql@ == sql && q.params@ == params
}

/// The rows of the reply, where the query succeeded.
pub open spec fn rows_of(reply: Reply) -> Seq<Row> {
    match reply {
        Ok(rows) => rows@,
        Err(_) => Seq::empty(),
    }
}

/// The query succeeded and brought back at least one row.
pub open spec fn returned_rows(reply: Reply) -> bool {
    reply matches Ok(rows) && rows@.len() > 0
}

/// The first row of the reply.
pub open spec fn first_row(reply: Reply) -> Row {
    rows_of(reply)[0]
}

/// A pool of idle database clients, handed out first come, first served.
pub struct ClientPool<T> {
    clients: VecDeque<T>,
}

/// The idle clients after one more is given back.
pub open spec fn pool_after_drop<T>(idle: Seq<T>, c: T) -> Seq<T> {
    idle.push(c)
}

/// The client handed out, and the idle clients left: the oldest idle
/// client, or none when the pool is empty (a new connection is then due).
pub open spec fn pool_after_get<T>(idle: Seq<T>) -> (Option<T>, Seq<T>) {
    if idle.len() == 0 {
        (None, idle)
    } else {
        (Some(idle[0]), idle.drop_first())
    }
}

impl<T> View for ClientPool<T> {
    type V = Seq<T>;

    closed spec fn view(&self) -> Seq<T> {
        self.clients@
    }
}

impl<T> ClientPool<T> {
    /// An empty pool.
    pub fn new() -> (p: ClientPool<T>)
        ensures
            p@ == Seq::<T>::empty(),
    {
        ClientPool { clients: VecDeque::new() }
    }

    /// The number of idle clients.
    pub fn len(&self) -> (n: usize)
        ensures
            n == self@.len(),
    {
        self.clients.len()
    }

    /// Takes the oldest idle client out of the pool; `None` when there is
    /// none, and the caller is to connect afresh.
    pub fn get_client(&mut self) -> (c: Option<T>)
        ensures
            (c, final(self)@) == pool_after_get(old(self)@),
    {
        if self.clients.len() == 0 {
            None
        } else {
            let c = self.clients.pop_front();
            assert(self.clients@ =~= old(self)@.drop_first());
            c
        }
    }

    /// Gives a client back to the pool; returns how many are idle now.
    pub fn drop_client(&mut self, c: T) -> (n: usize)
        ensures
            final(self)@ == pool_after_drop(old(self)@, c),
            n == final(self)@.len(),
    {
        self.clients.push_back(c);
        self.clients.len()
    }
}

/// Giving a client back never jumps the queue: the next client handed out
/// is the one that would have been handed out anyway, and a client given
/// back to an empty pool is the next one handed out.
pub proof fn law_pool_first_come_first_served<T>(idle: Seq<T>, c: T)
    ensures
        pool_after_get(pool_after_drop(idle, c)) == (if idle.len() == 0 {
            (Some(c), idle)
        } else {
            (Some(idle[0]), pool_after_drop(idle.drop_first(), c))
        }),
{
    if idle.len() == 0 {
        assert(idle.push(c).drop_first() =~= idle);
    } else {
        assert(idle.push(c).drop_first() =~= idle.drop_first().push(c));
    }
}

} // verus!
