# parking

A parking-lot reservation service. Drivers ("parkers") register vehicles
and reserve time in lots; owners list lots and see, hour by hour, how full
a lot is on a day.

- `src/` is the library, verified with Verus. Every operation that talks to
  the database is a step function: it is handed the replies received so far
  and answers with the next query to run or with its result, so the queries
  it issues and what it makes of the replies are both stated and proved.
  - `db`: rows, queries, replies, and the pool of idle database clients.
  - `user`, `vehicle`, `lot`: the records and their database operations;
    password hashing and checking go through bcrypt.
  - `clock`: timestamps and the calls into chrono.
  - `booking`: one-time and recurring bookings and when they conflict.
  - `routes`: the decisions behind the pages (signup account types,
    reservation times, the home page, a lot's day view).
  - `structs`: the records of the data model.
- `app/` is the web server (Rocket, postgres): it runs the queries that the
  library asks for, keeps the cookies and renders the templates.
- `tests/` exercises the library on concrete values.
