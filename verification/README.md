# plan_rewrite

Helpers for the rules of a query optimizer, verified with Verus.

- `columns`: which columns an expression refers to.
- `rewrite`: the children of an expression, and the same expression around other children.
- `rebuild`: the same plan node around other expressions and inputs.
- `optimize`: applying a rule to the children of a plan node, and explaining what a rule did.

The types that these work on stand in `expr`, `scalar`, `schema`, `plan` and `error`, each with a
mathematical model that the contracts speak of. `display` and `text` write expressions and plans
down. What holds between the functions is proved in `column_laws`, `rewrite_laws` and
`rebuild_laws`.

Types of columns and table schemas come from the `arrow` crate. The functions marked
`#[verifier::external_body]` in `scalar`, `schema` and `display` call it, but for `write_quoted`,
which calls the standard library; their doc comments say what is taken for granted about each call.
