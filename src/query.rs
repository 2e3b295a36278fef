//! Optional filters of the list and recommendation endpoints, and the query
//! strings they render to.

use vstd::prelude::*;
use crate::text::{
    append_unsigned, int_pair, int_param, join_pairs, join_step, lemma_join_push, opt_int_pair,
    opt_str_pair, push_param, str_param,
};

verus! {

/// A page of a listing: how many records, and the cursor to resume from.
#[derive(Debug, Clone, PartialEq, Eq)]
pub struct CursorQuery {
    pub number: Option<i32>,
    pub cursor: Option<String>,
}

impl CursorQuery {
    /// The pairs of the query, in the order in which they are rendered.
    pub open spec fn pairs(&self) -> Seq<Option<Seq<char>>> {
        seq![opt_int_pair("n"@, self.number), opt_str_pair("cursor"@, self.cursor)]
    }

    /// A query with every field absent.
    pub fn new() -> (r: Self)
        ensures
            r.number is None,
            r.cursor is None,
    {
        CursorQuery { number: None, cursor: None }
    }

    /// Sets the number of records.
    pub fn number(self, number: i32) -> (r: Self)
        ensures
            r.number == Some(number),
            r.cursor == self.cursor,
    {
        CursorQuery { number: Some(number), ..self }
    }

    /// Sets the cursor to resume from.
    pub fn cursor(self, cursor: &str) -> (r: Self)
        ensures
            r.number == self.number,
            r.cursor matches Some(c) && c@ == cursor@,
    {
        CursorQuery { cursor: Some(String::from_str(cursor)), ..self }
    }

    /// The query string: `n`, then `cursor`, each where present.
    pub fn to_query_string(&self) -> (r: String)
        ensures
            r@ == join_pairs(self.pairs()),
    {
        let mut out = String::new();
        push_param(&mut out, int_param("n", self.number));
        push_param(&mut out, str_param("cursor", &self.cursor));
        proof {
            lemma_join_pairs_2(self.pairs());
        }
        out
    }
}

/// A page of a ranking: how many records, and how many to skip.
#[derive(Debug, Clone, PartialEq, Eq)]
pub struct OffsetQuery {
    pub number: Option<i32>,
    pub offset: Option<i32>,
}

impl OffsetQuery {
    /// The pairs of the query, in the order in which they are rendered.
    pub open spec fn pairs(&self) -> Seq<Option<Seq<char>>> {
        seq![opt_int_pair("n"@, self.number), opt_int_pair("offset"@, self.offset)]
    }

    /// A query with every field absent.
    pub fn new() -> (r: Self)
        ensures
            r.number is None,
            r.offset is None,
    {
        OffsetQuery { number: None, offset: None }
    }

    /// Sets the number of records.
    pub fn number(self, number: i32) -> (r: Self)
        ensures
            r.number == Some(number),
            r.offset == self.offset,
    {
        OffsetQuery { number: Some(number), ..self }
    }

    /// Sets the number of records to skip.
    pub fn offset(self, offset: i32) -> (r: Self)
        ensures
            r.number == self.number,
            r.offset == Some(offset),
    {
        OffsetQuery { offset: Some(offset), ..self }
    }

    /// The query string: `n`, then `offset`, each where present.
    pub fn to_query_string(&self) -> (r: String)
        ensures
            r@ == join_pairs(self.pairs()),
    {
        let mut out = String::new();
        push_param(&mut out, int_param("n", self.number));
        push_param(&mut out, int_param("offset", self.offset));
        proof {
            lemma_join_pairs_2(self.pairs());
        }
        out
    }
}

/// Filters of the latest and popular rankings: the user the ranking is for,
/// how many records, and how many to skip.
#[derive(Debug, Clone, PartialEq, Eq)]
pub struct UserIdQuery {
    pub user_id: Option<String>,
    pub number: Option<i32>,
    pub offset: Option<i32>,
}

impl UserIdQuery {
    /// The pairs of the query, in the order in which they are rendered.
    pub open spec fn pairs(&self) -> Seq<Option<Seq<char>>> {
        seq![
            opt_str_pair("user-id"@, self.user_id),
            opt_int_pair("n"@, self.number),
            opt_int_pair("offset"@, self.offset),
        ]
    }

    /// A query with every field absent.
    pub fn new() -> (r: Self)
        ensures
            r.user_id is None,
            r.number is None,
            r.offset is None,
    {
        UserIdQuery { user_id: None, number: None, offset: None }
    }

    /// Sets the user the ranking is for.
    pub fn user_id(self, user_id: &str) -> (r: Self)
        ensures
            r.user_id matches Some(u) && u@ == user_id@,
            r.number == self.number,
            r.offset == self.offset,
    {
        UserIdQuery { user_id: Some(String::from_str(user_id)), ..self }
    }

    /// Sets the number of records.
    pub fn number(self, number: i32) -> (r: Self)
        ensures
            r.user_id == self.user_id,
            r.number == Some(number),
            r.offset == self.offset,
    {
        UserIdQuery { number: Some(number), ..self }
    }

    /// Sets the number of records to skip.
    pub fn offset(self, offset: i32) -> (r: Self)
        ensures
            r.user_id == self.user_id,
            r.number == self.number,
            r.offset == Some(offset),
    {
        UserIdQuery { offset: Some(offset), ..self }
    }

    /// The query string: `user-id`, `n`, then `offset`, each where present.
    pub fn to_query_string(&self) -> (r: String)
        ensures
            r@ == join_pairs(self.pairs()),
    {
        let mut out = String::new();
        push_param(&mut out, str_param("user-id", &self.user_id));
        push_param(&mut out, int_param("n", self.number));
        push_param(&mut out, int_param("offset", self.offset));
        proof {
            lemma_join_pairs_3(self.pairs());
        }
        out
    }
}

/// Filters of a recommendation: whether and after how long the result is
/// written back as read, how many records, and how many to skip.
#[derive(Debug, Clone, PartialEq, Eq)]
pub struct WriteBackQuery {
    pub write_back_type: Option<String>,
    pub write_back_delay: Option<String>,
    pub number: Option<i32>,
    pub offset: Option<i32>,
}

impl WriteBackQuery {
    /// The pairs of the query, in the order in which they are rendered.
    pub open spec fn pairs(&self) -> Seq<Option<Seq<char>>> {
        seq![
            opt_str_pair("write-back-type"@, self.write_back_type),
            opt_str_pair("write-back-delay"@, self.write_back_delay),
            opt_int_pair("n"@, self.number),
            opt_int_pair("offset"@, self.offset),
        ]
    }

    /// A query with every field absent.
    pub fn new() -> (r: Self)
        ensures
            r.write_back_type is None,
            r.write_back_delay is None,
            r.number is None,
            r.offset is None,
    {
        WriteBackQuery { write_back_type: None, write_back_delay: None, number: None, offset: None }
    }

    /// Sets the feedback type under which the result is written back.
    pub fn write_back_type(self, write_back_type: &str) -> (r: Self)
        ensures
            r.write_back_type matches Some(t) && t@ == write_back_type@,
            r.write_back_delay == self.write_back_delay,
            r.number == self.number,
            r.offset == self.offset,
    {
        WriteBackQuery { write_back_type: Some(String::from_str(write_back_type)), ..self }
    }

    /// Sets the delay after which the result is written back.
    pub fn write_back_delay(self, write_back_delay: &str) -> (r: Self)
        ensures
            r.write_back_type == self.write_back_type,
            r.write_back_delay matches Some(d) && d@ == write_back_delay@,
            r.number == self.number,
            r.offset == self.offset,
    {
        WriteBackQuery { write_back_delay: Some(String::from_str(write_back_delay)), ..self }
    }

    /// Sets the number of records.
    pub fn number(self, number: i32) -> (r: Self)
        ensures
            r.write_back_type == self.write_back_type,
            r.write_back_delay == self.write_back_delay,
            r.number == Some(number),
            r.offset == self.offset,
    {
        WriteBackQuery { number: Some(number), ..self }
    }

    /// Sets the number of records to skip.
    pub fn offset(self, offset: i32) -> (r: Self)
        ensures
            r.write_back_type == self.write_back_type,
            r.write_back_delay == self.write_back_delay,
            r.number == self.number,
            r.offset == Some(offset),
    {
        WriteBackQuery { offset: Some(offset), ..self }
    }

    /// The query string: `write-back-type`, `write-back-delay`, `n`, then
    /// `offset`, each where present.
    pub fn to_query_string(&self) -> (r: String)
        ensures
            r@ == join_pairs(self.pairs()),
    {
        let mut out = String::new();
        push_param(&mut out, str_param("write-back-type", &self.write_back_type));
        push_param(&mut out, str_param("write-back-delay", &self.write_back_delay));
        push_param(&mut out, int_param("n", self.number));
        push_param(&mut out, int_param("offset", self.offset));
        proof {
            lemma_join_pairs_4(self.pairs());
        }
        out
    }
}

/// The options of a recommendation in their simplest form: a count, where
/// zero stands for no count at all.
#[derive(Debug, Clone, Copy, PartialEq, Eq)]
pub struct RecommendOptions {
    pub n: usize,
}

impl Default for RecommendOptions {
    fn default() -> (r: Self)
        ensures
            r.n == 0,
    {
        RecommendOptions { n: 0 }
    }
}

impl RecommendOptions {
    /// The pairs of the options: `n` where it is not zero.
    pub open spec fn pairs(&self) -> Seq<Option<Seq<char>>> {
        seq![if self.n > 0 { Some(int_pair("n"@, self.n as int)) } else { None }]
    }

    /// The query string: `n=<count>` for a count above zero, else empty.
    pub fn to_query_string(&self) -> (r: String)
        ensures
            r@ == join_pairs(self.pairs()),
    {
        let mut out = String::new();
        if self.n > 0 {
            proof {
                reveal_strlit("n=");
                reveal_strlit("n");
            }
            out.append("n=");
            append_unsigned(&mut out, self.n as u64);
        }
        proof {
            lemma_join_push(Seq::empty(), self.pairs()[0]);
            assert(Seq::<Option<Seq<char>>>::empty().push(self.pairs()[0]) =~= self.pairs());
            if self.n > 0 {
                assert(out@ =~= int_pair("n"@, self.n as int));
            }
        }
        out
    }
}

/// A query object with no field set renders to the empty string, and one
/// whose only field set is the record count `n` renders to the single pair
/// `n=<count>`, whatever its type. For the simple recommendation options, a
/// count of zero stands for no count and renders to nothing.
pub proof fn lemma_absent_fields_render_nothing(n: i32, k: usize)
    requires
        k > 0,
    ensures
        join_pairs(RecommendOptions { n: 0 }.pairs()) == Seq::<char>::empty(),
        join_pairs(RecommendOptions { n: k }.pairs()) == int_pair("n"@, k as int),
        join_pairs(CursorQuery { number: None, cursor: None }.pairs()) == Seq::<char>::empty(),
        join_pairs(OffsetQuery { number: None, offset: None }.pairs()) == Seq::<char>::empty(),
        join_pairs(UserIdQuery { user_id: None, number: None, offset: None }.pairs())
            == Seq::<char>::empty(),
        join_pairs(
            WriteBackQuery {
                write_back_type: None,
                write_back_delay: None,
                number: None,
                offset: None,
            }.pairs(),
        ) == Seq::<char>::empty(),
        join_pairs(CursorQuery { number: Some(n), cursor: None }.pairs())
            == int_pair("n"@, n as int),
        join_pairs(OffsetQuery { number: Some(n), offset: None }.pairs())
            == int_pair("n"@, n as int),
        join_pairs(UserIdQuery { user_id: None, number: Some(n), offset: None }.pairs())
            == int_pair("n"@, n as int),
        join_pairs(
            WriteBackQuery {
                write_back_type: None,
                write_back_delay: None,
                number: Some(n),
                offset: None,
            }.pairs(),
        ) == int_pair("n"@, n as int),
{
    lemma_join_push(Seq::empty(), None);
    assert(Seq::<Option<Seq<char>>>::empty().push(None) =~= RecommendOptions { n: 0 }.pairs());
    let p = Some(int_pair("n"@, k as int));
    lemma_join_push(Seq::empty(), p);
    assert(Seq::<Option<Seq<char>>>::empty().push(p) =~= RecommendOptions { n: k }.pairs());
    lemma_join_pairs_2(CursorQuery { number: None, cursor: None }.pairs());
    lemma_join_pairs_2(OffsetQuery { number: None, offset: None }.pairs());
    lemma_join_pairs_3(UserIdQuery { user_id: None, number: None, offset: None }.pairs());
    lemma_join_pairs_4(
        WriteBackQuery {
            write_back_type: None,
            write_back_delay: None,
            number: None,
            offset: None,
        }.pairs(),
    );
    lemma_join_pairs_2(CursorQuery { number: Some(n), cursor: None }.pairs());
    lemma_join_pairs_2(OffsetQuery { number: Some(n), offset: None }.pairs());
    lemma_join_pairs_3(UserIdQuery { user_id: None, number: Some(n), offset: None }.pairs());
    lemma_join_pairs_4(
        WriteBackQuery {
            write_back_type: None,
            write_back_delay: None,
            number: Some(n),
            offset: None,
        }.pairs(),
    );
}

/// Unfolds the rendering of two pairs.
proof fn lemma_join_pairs_2(ps: Seq<Option<Seq<char>>>)
    requires
        ps.len() == 2,
    ensures
        join_pairs(ps) == join_step(join_step(Seq::empty(), ps[0]), ps[1]),
{
    lemma_join_push(Seq::empty(), ps[0]);
    lemma_join_push(seq![ps[0]], ps[1]);
    assert(Seq::<Option<Seq<char>>>::empty().push(ps[0]) =~= seq![ps[0]]);
    assert(seq![ps[0]].push(ps[1]) =~= ps);
}

/// Unfolds the rendering of three pairs.
proof fn lemma_join_pairs_3(ps: Seq<Option<Seq<char>>>)
    requires
        ps.len() == 3,
    ensures
        join_pairs(ps) == join_step(join_step(join_step(Seq::empty(), ps[0]), ps[1]), ps[2]),
{
    lemma_join_pairs_2(ps.drop_last());
    lemma_join_push(ps.drop_last(), ps[2]);
    assert(ps.drop_last().push(ps[2]) =~= ps);
}

/// Unfolds the rendering of four pairs.
proof fn lemma_join_pairs_4(ps: Seq<Option<Seq<char>>>)
    requires
        ps.len() == 4,
    ensures
        join_pairs(ps) == join_step(
            join_step(join_step(join_step(Seq::empty(), ps[0]), ps[1]), ps[2]),
            ps[3],
        ),
{
    lemma_join_pairs_3(ps.drop_last());
    lemma_join_push(ps.drop_last(), ps[3]);
    assert(ps.drop_last().push(ps[3]) =~= ps);
}

} // verus!
