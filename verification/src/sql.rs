//! A query under construction: SQL text with `?` placeholders and the values
//! bound to them, in order.

use vstd::prelude::*;
use crate::text::{int_decimal, push_i64_decimal};

verus! {

/// A value bound to a placeholder.
pub enum SqlBind {
    Text(String),
    Int(i64),
}

/// What a bound value stands for.
pub enum SqlArg {
    Text(Seq<char>),
    Int(int),
}

/// The meaning of a bound value.
pub open spec fn arg_of(b: SqlBind) -> SqlArg {
    match b {
        SqlBind::Text(s) => SqlArg::Text(s@),
        SqlBind::Int(v) => SqlArg::Int(v as int),
    }
}

/// A stretch of SQL text together with the values its placeholders bind.
pub struct SqlPiece {
    pub text: Seq<char>,
    pub args: Seq<SqlArg>,
}

/// Nothing.
pub open spec fn empty_piece() -> SqlPiece {
    SqlPiece { text: Seq::empty(), args: Seq::empty() }
}

/// Text that binds nothing.
pub open spec fn lit(s: Seq<char>) -> SqlPiece {
    SqlPiece { text: s, args: Seq::empty() }
}

/// A placeholder bound to a text value.
pub open spec fn bind_text(v: Seq<char>) -> SqlPiece {
    SqlPiece { text: "?"@, args: seq![SqlArg::Text(v)] }
}

/// A placeholder bound to an integer.
pub open spec fn bind_int(v: int) -> SqlPiece {
    SqlPiece { text: "?"@, args: seq![SqlArg::Int(v)] }
}

/// `a` followed by `b`.
pub open spec fn then(a: SqlPiece, b: SqlPiece) -> SqlPiece {
    SqlPiece { text: a.text + b.text, args: a.args + b.args }
}

/// `after` is `before` with `piece` appended.
pub open spec fn extends(before: SqlQuery, after: SqlQuery, piece: SqlPiece) -> bool {
    &&& after.sql@ == before.sql@ + piece.text
    &&& after.args() == before.args() + piece.args
}

/// Appending two pieces in turn appends the two together.
pub proof fn lemma_extends_then(a: SqlQuery, b: SqlQuery, c: SqlQuery, p: SqlPiece, q: SqlPiece)
    requires
        extends(a, b, p),
        extends(b, c, q),
    ensures
        extends(a, c, then(p, q)),
{
    assert(c.sql@ =~= a.sql@ + (p.text + q.text));
    assert(c.args() =~= a.args() + (p.args + q.args));
}

/// Appending nothing leaves a query as it was.
pub proof fn lemma_extends_empty(a: SqlQuery)
    ensures
        extends(a, a, empty_piece()),
{
    assert(a.sql@ =~= a.sql@ + Seq::<char>::empty());
    assert(a.args() =~= a.args() + Seq::<SqlArg>::empty());
}

/// A query being built: its text and the values of its placeholders.
pub struct SqlQuery {
    pub sql: String,
    pub binds: Vec<SqlBind>,
}

impl SqlQuery {
    /// The meanings of the bound values, in order.
    pub open spec fn args(&self) -> Seq<SqlArg> {
        self.binds@.map_values(|b: SqlBind| arg_of(b))
    }

    /// A query that starts with `sql` and binds nothing yet.
    pub fn new(sql: &str) -> (q: SqlQuery)
        ensures
            q.sql@ == sql@,
            q.args() == Seq::<SqlArg>::empty(),
    {
        let q = SqlQuery { sql: String::from_str(sql), binds: Vec::new() };
        assert(q.args() =~= Seq::<SqlArg>::empty());
        q
    }

    /// Appends SQL text.
    pub fn push(&mut self, s: &str)
        ensures
            final(self).sql@ == old(self).sql@ + s@,
            final(self).args() == old(self).args(),
            extends(*old(self), *final(self), lit(s@)),
    {
        self.sql.append(s);
        assert(self.args() =~= old(self).args() + Seq::<SqlArg>::empty());
    }

    /// Appends the decimal text of an integer.
    pub fn push_i64(&mut self, v: i64)
        ensures
            extends(*old(self), *final(self), lit(int_decimal(v as int))),
    {
        push_i64_decimal(&mut self.sql, v);
        assert(self.args() =~= old(self).args() + Seq::<SqlArg>::empty());
    }

    /// Appends a placeholder bound to a text value.
    pub fn push_bind_text(&mut self, v: String)
        ensures
            final(self).sql@ == old(self).sql@ + "?"@,
            final(self).args() == old(self).args().push(SqlArg::Text(v@)),
            extends(*old(self), *final(self), bind_text(v@)),
    {
        self.sql.append("?");
        let ghost old_binds = self.binds@;
        self.binds.push(SqlBind::Text(v));
        proof {
            assert(self.binds@ == old_binds.push(SqlBind::Text(v)));
            assert(self.args() =~= old_binds.map_values(|b: SqlBind| arg_of(b)).push(SqlArg::Text(v@)));
            assert(self.args() =~= old(self).args() + seq![SqlArg::Text(v@)]);
        }
    }

    /// Appends a placeholder bound to an integer.
    pub fn push_bind_int(&mut self, v: i64)
        ensures
            final(self).sql@ == old(self).sql@ + "?"@,
            final(self).args() == old(self).args().push(SqlArg::Int(v as int)),
            extends(*old(self), *final(self), bind_int(v as int)),
    {
        self.sql.append("?");
        let ghost old_binds = self.binds@;
        self.binds.push(SqlBind::Int(v));
        proof {
            assert(self.args() =~= old_binds.map_values(|b: SqlBind| arg_of(b)).push(SqlArg::Int(v as int)));
            assert(self.args() =~= old(self).args() + seq![SqlArg::Int(v as int)]);
        }
    }
}

/// The pieces in order, one after another.
pub open spec fn concat_pieces(s: Seq<SqlPiece>) -> SqlPiece
    decreases s.len(),
{
    if s.len() == 0 { empty_piece() } else { then(concat_pieces(s.drop_last()), s.last()) }
}

/// Appending one more piece extends what was appended so far by it.
pub proof fn lemma_extends_step(q0: SqlQuery, qa: SqlQuery, qb: SqlQuery, done: Seq<SqlPiece>, p: SqlPiece)
    requires
        extends(q0, qa, concat_pieces(done)),
        extends(qa, qb, p),
    ensures
        extends(q0, qb, concat_pieces(done.push(p))),
{
    lemma_extends_then(q0, qa, qb, concat_pieces(done), p);
    assert(done.push(p).drop_last() =~= done);
}

/// `prefix ?` binding `v`, or nothing.
pub open spec fn opt_int_piece(prefix: Seq<char>, o: Option<i64>) -> SqlPiece {
    match o {
        Some(v) => then(lit(prefix), bind_int(v as int)),
        None => empty_piece(),
    }
}

/// `prefix ?` binding `v`, or nothing.
pub open spec fn opt_text_piece(prefix: Seq<char>, o: Option<String>) -> SqlPiece {
    match o {
        Some(v) => then(lit(prefix), bind_text(v@)),
        None => empty_piece(),
    }
}

/// Appends `prefix ?` binding `o`'s value, or nothing.
pub fn push_opt_int(query: &mut SqlQuery, prefix: &str, o: Option<i64>)
    ensures
        extends(*old(query), *final(query), opt_int_piece(prefix@, o)),
{
    match o {
        Some(v) => {
            let ghost q0 = *query;
            query.push(prefix);
            let ghost q1 = *query;
            query.push_bind_int(v);
            proof { lemma_extends_then(q0, q1, *query, lit(prefix@), bind_int(v as int)); }
        }
        None => {
            proof { lemma_extends_empty(*query); }
        }
    }
}

/// Appends `prefix ?` binding `o`'s value, or nothing.
pub fn push_opt_text(query: &mut SqlQuery, prefix: &str, o: &Option<String>)
    ensures
        extends(*old(query), *final(query), opt_text_piece(prefix@, *o)),
{
    match o {
        Some(v) => {
            let ghost q0 = *query;
            query.push(prefix);
            let ghost q1 = *query;
            query.push_bind_text(v.clone());
            proof { lemma_extends_then(q0, q1, *query, lit(prefix@), bind_text(v@)); }
        }
        None => {
            proof { lemma_extends_empty(*query); }
        }
    }
}

} // verus!
