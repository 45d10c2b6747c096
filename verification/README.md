# rustyhip

An HTTP front end, run as a Lambda function, to an SQLite database whose pages
live in S3. The rules of the service are a library that Verus verifies; what
talks to the outside world is an ordinary program around it.

- `src/` is the library.
  - `settings`: the environment variables and what they mean.
  - `db`: the settings of a connection, the policy for statements, and how values
    and rows become JSON.
  - `opening` and `execution`: the opening of a connection and the execution of a
    statement, step by step. They say what to do next and go on with what came of
    it. `execution` decides when a checkpoint has to follow a statement, and gives
    no result before it has completed.
  - `handler` and `state`: what is answered to a request.
  - `logging`: log events as JSON objects, without sensitive values.
  - `json`, `failure`, `errors`, `text`: what the others are made of.
- `app/` is the program: it speaks HTTP, holds the connection, reads and writes
  JSON, and logs.
- `tests/` run the library, against a real SQLite database where one is needed.

## Requests

`GET /` and `GET /health` tell that the service is up. `POST /sql` runs a
statement:

    {"sql": "SELECT name FROM fruit WHERE id = ?", "params": [1], "rows_format": "arrays"}

`params` and `rows_format` (`objects` or `arrays`) may be left out. The answer is

    {"columns": [...], "rows": [...], "rowcount": 0, "lastrowid": 0, "readonly": true}

or an error with one of the codes in `errors`:

    {"error": {"code": "RUSTYHIP_E_SQL", "message": "...", "request_id": "..."}}

## What is proved

The functions of the library state exactly what they return. Beyond that, the
proof functions whose names begin with `law_` state what holds of several of them
together, among it:

- A write is answered with status 200 only when it is durable: where a checkpoint
  is due, the database has said that it ran to completion.
- Where there is a token, no request without it is served.
- No statement can undo the configuration of the connection.
- A bad value in the environment counts as an unset variable.
- No log event gives the value of a sensitive field away.
