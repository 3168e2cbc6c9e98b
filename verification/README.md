# kawoof

A small quiz service: users sign up and log in, write quizzes ("kawoofs"),
host them live, and players join a lobby and answer questions.

- `src/` is the verified library (Verus): the log-in decision over the user
  table (with bcrypt through `pwhash`), the stored form of quizzes and their
  questions and how it is read back, and the events of a hosted quiz.
  `src/laws.rs` states and proves the properties that tie these together,
  such as "a user who signed up can log in" and "answers read back as they
  were stored".
- `app/` is the web server (Rocket, SQLite through sqlx, Tera templates,
  JWT session cookies); it reads requests and the database, calls the
  library, and writes responses.
- `tests/` runs the library on concrete values.
