# ahut_dorm_sign

The domain logic of an automatic dormitory check-in service for the student
attendance system of Anhui University of Technology, written in Verus and
verified.

## Layout

- `src/` — the verified library.
  - `text`, `time` — character-level text operations (trimming, splitting,
    decimal numbers, hex identifiers) and a model of UTC instants, dates,
    times of day, weekdays and time zones.
  - `domain` — access control, school users and their encrypted
    credentials, tokens and sessions, authentication and retry policies,
    sign-in tasks, scheduled runs, and the check-in flow as a state machine.
  - `infrastructure` — the configuration read from environment values, the
    gateway's addresses, tokens, task lists, headers and reply checks, the
    credential protector and signer, and the reading of stored records.
  - `services`, `transport`, `models`, `constants`, `utils` — the app API's
    requests, headers, signatures and business envelope.
- `tests/` — tests of the library on concrete values.
- `app/` — the I/O around the library: HTTP (`reqwest`), PostgreSQL
  (`sqlx`), the process environment, serde forms of the library's values,
  and the floating-point location handling of a check-in.

## Design notes

- The roles of each user are held in a `BTreeMap` keyed by the user's ID
  as a `u128`. Each user's roles, and each role's permissions, are vectors
  kept in increasing order with a well-formedness invariant (sorted, no
  entry twice): a role or permission code is a struct of the library, and a
  `BTreeSet` or map keyed by it would rest on comparison impls written by
  `derive`, which Verus does not read; the invariant states the order
  directly.
- Request headers are an ordered list of name and value pairs; the HTTP
  layer in `app/` turns them into `reqwest` headers.
- Calendar dates are day numbers; the year, month and day of a number are
  those of the proleptic Gregorian calendar (`is_civil_date`,
  `civil_day_number` in `time`), as `chrono` computes them.
