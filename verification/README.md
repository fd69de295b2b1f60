# targetz

Customer, interaction and project tracking.

- `src/` is the library, verified with Verus: the data model (customers,
  stakeholders, interactions, projects and their status history), the tab and
  list state of each screen, the forms and what they hand to the stores, the
  decisions taken around the stores, and the laws these obey.
- `app/` is the program around it: the SQLite stores (sqlx), start-up from the
  environment, a line-oriented front end, the error types with `Display`, and
  the few floating-point conversions (the budget and the colour space).
- `tests/` runs the library on concrete values.
