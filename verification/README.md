# astrodolph

A Discord bot for AstroDolph, a pet each member of a server can own and
upgrade, with a few fun, meta and moderation commands besides.

- `src/` is the verified library: what each command decides and the texts it
  answers with, proved against their contracts.
  - `ship`: the compatibility score of two names and the `ship` answer.
  - `members`: reading a member from a mention or id, through serenity's parser.
  - `astrodolph`: astrodolph stats, upgrades and their answers.
  - `moderation`: who may kick or ban whom; purge counts and answers.
  - `meta`: avatar links, user, invite and bot information fields.
  - `calc`: rewriting calculator expressions and explaining their errors.
  - `dispatch`: answers to commands the framework refuses to run.
  - `notice`, `text`: embed texts, decimal rendering, parsing and replacement.
- `app/` is the bot itself: the serenity client and commands, the database and
  the evaluation of calculator expressions. It takes the commands' decisions
  and texts from the library, and writes back the rows the library computes;
  the SQL statements, the retry of an upgrade whose row changed meanwhile,
  and the floating-point scaling of displayed stats are its own.
- `tests/` runs the library on concrete values.
