# accounts

User accounts: new and stored users, their passwords, how users are looked up,
stored and activated, and how the user of a request is found.

- `src/` is the library, verified with Verus. It performs no input or output: a
  function says what to ask a store or a request, another one takes the reply.
  - `model/user.rs`: users and their passwords, `model/password.rs`: encryption
    with bcrypt, `model/user_uuid.rs`: the texts of UUIDs
  - `model/query.rs`, `model/lookup.rs`, `model/change.rs`: what is asked of a
    store, and what is made of its replies
  - `model/store.rs`: what holds of all this together with a store that does as
    it is asked
  - `request/user/mod.rs`: the login of a request
- `app/` carries out the questions with Diesel on PostgreSQL, and the login as a
  Rocket request guard.
- `tests/` runs the library against a store in memory.
