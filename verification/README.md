# jiff_sql

Verified conversions between civil dates and times (as the `jiff` calendar
library has them) and the forms MySQL, PostgreSQL and SQLite store them in.

- `src/calendar.rs`: the value types as plain integers, their ranges, the
  day count of the proleptic Gregorian calendar and its ordering lemmas.
- `src/duration.rs`: arithmetic on signed durations.
- `src/jiff_api.rs`, `src/bytes_io.rs`: the calls into `jiff`, `byteorder`
  and `bytes`, each with the contract it is trusted for, and little-endian
  bytes of integers.
- `src/text.rs`: the text forms that are written, and reading them.
- `src/mysql_time.rs`, `src/mysql.rs`: MySQL's binary protocol forms.
- `src/postgres.rs`: PostgreSQL's counts from 2000-01-01 and intervals.
- `src/sqlite.rs`: SQLite's text, Unix-seconds and Julian-day forms.
- `app/lib.rs`: conversions to and from `jiff`'s own types, and the
  floating-point reading of Julian day numbers.

The `law_*` proof functions state what reading back a written value gives.
