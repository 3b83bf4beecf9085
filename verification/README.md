# sqlx_testing

Every test gets a MySQL database of its own. Where templates are enabled, the database is a clone
of a template that holds the test's migrations; otherwise it is created empty and the migrations
are applied to it. The database of a test that succeeds is deleted again.

The library decides what happens; it never talks to a server. A procedure is a value that names
the next `Command`, and the `Reply` to it turns it into the next such value. Each step has a
contract over a model of the procedure, and the `law_*` proof functions say what holds of whole
conversations.

| module | what it holds |
| --- | --- |
| `text`, `sql`, `refs` | text with exact models, SQL statements, references to databases |
| `digest`, `migrate` | the calls into `sha2` and `base64`, hashes of migrations, database names |
| `protocol` | commands, replies, errors |
| `clone`, `clone_laws` | cloning a template |
| `template` | getting or making a template under a lock |
| `cleanup` | removing test databases |
| `testing`, `mysql` | what a test is given, and what MySQL offers to tests |
| `context`, `context_laws` | making the database of a test |
| `run`, `run_laws` | filling the database, calling the test, deleting the database |
| `once` | a value that is set once |

`app/` performs the procedures with a database client, and `tests/` plays conversations.
