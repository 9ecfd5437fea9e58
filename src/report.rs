//! Report text: the rolling context kept between analyses, and how a report
//! is laid out as messages that fit the publication surface.

use vstd::prelude::*;
use vstd::string::{StrSliceExecFns, StringExecFns};

verus! {

/// How many characters of the last report are kept as context.
pub const CONTEXT_LIMIT: usize = 2000;

/// The most characters a single message may hold.
pub const MESSAGE_LIMIT: usize = 2000;

/// The size of the pieces a long report body is split into.
pub const CHUNK_SIZE: usize = 1900;

/// The last `n` characters of `s`, or all of `s` when it is shorter.
pub open spec fn tail_chars(s: Seq<char>, n: nat) -> Seq<char> {
    if s.len() > n {
        s.subrange(s.len() - n, s.len() as int)
    } else {
        s
    }
}

/// The context kept from a report: its last `CONTEXT_LIMIT` characters.
pub fn rolling_context(report: &str) -> (r: String)
    ensures
        r@ == tail_chars(report@, CONTEXT_LIMIT as nat),
        r@.len() <= CONTEXT_LIMIT,
{
    let n = report.unicode_len();
    if n > CONTEXT_LIMIT {
        String::from_str(report.substring_char(n - CONTEXT_LIMIT, n))
    } else {
        String::from_str(report)
    }
}

/// `s` cut into consecutive pieces of `limit` characters, the last one
/// possibly shorter.
pub open spec fn chunks_spec(s: Seq<char>, limit: nat) -> Seq<Seq<char>>
    decreases s.len(),
{
    if s.len() == 0 || limit == 0 {
        Seq::empty()
    } else if s.len() <= limit {
        seq![s]
    } else {
        seq![s.take(limit as int)] + chunks_spec(s.skip(limit as int), limit)
    }
}

/// The character sequences of some strings.
pub open spec fn string_views(v: Seq<String>) -> Seq<Seq<char>> {
    v.map_values(|s: String| s@)
}

/// The pieces one after another.
pub open spec fn joined(pieces: Seq<Seq<char>>) -> Seq<char>
    decreases pieces.len(),
{
    if pieces.len() == 0 {
        Seq::empty()
    } else {
        pieces[0] + joined(pieces.skip(1))
    }
}

/// The number of pieces of `limit` characters needed to hold `len` characters.
pub open spec fn ceil_div(len: nat, limit: nat) -> nat {
    if len % limit == 0 {
        len / limit
    } else {
        len / limit + 1
    }
}

/// Cuts a report body into pieces of at most `limit` characters.
pub fn chunk_report(body: &str, limit: usize) -> (r: Vec<String>)
    requires
        limit > 0,
    ensures
        string_views(r@) == chunks_spec(body@, limit as nat),
{
    let n = body.unicode_len();
    let mut out: Vec<String> = Vec::new();
    let mut start: usize = 0;
    proof {
        assert(body@.skip(0) =~= body@);
        assert(string_views(out@) + chunks_spec(body@, limit as nat) =~= chunks_spec(
            body@,
            limit as nat,
        ));
    }
    while start < n
        invariant
            n == body@.len(),
            start <= n,
            limit > 0,
            string_views(out@) + chunks_spec(body@.skip(start as int), limit as nat) == chunks_spec(
                body@,
                limit as nat,
            ),
        decreases n - start,
    {
        let rest = Ghost(body@.skip(start as int));
        let end = if n - start > limit {
            start + limit
        } else {
            n
        };
        let piece = String::from_str(body.substring_char(start, end));
        let ghost before = string_views(out@);
        out.push(piece);
        proof {
            assert(string_views(out@) =~= before.push(piece@));
            if n - start > limit {
                assert(piece@ =~= rest@.take(limit as int));
                assert(rest@.skip(limit as int) =~= body@.skip(end as int));
                assert(chunks_spec(rest@, limit as nat) == seq![piece@] + chunks_spec(
                    body@.skip(end as int),
                    limit as nat,
                ));
                assert(before + chunks_spec(rest@, limit as nat) =~= before.push(piece@)
                    + chunks_spec(body@.skip(end as int), limit as nat));
            } else {
                assert(piece@ =~= rest@);
                assert(chunks_spec(rest@, limit as nat) == seq![piece@]);
                assert(body@.skip(end as int) =~= Seq::<char>::empty());
                assert(chunks_spec(body@.skip(end as int), limit as nat) =~= Seq::<
                    Seq<char>,
                >::empty());
                assert(before + chunks_spec(rest@, limit as nat) =~= before.push(piece@)
                    + chunks_spec(body@.skip(end as int), limit as nat));
            }
        }
        start = end;
    }
    proof {
        assert(body@.skip(start as int) =~= Seq::<char>::empty());
        assert(string_views(out@) + Seq::<Seq<char>>::empty() =~= string_views(out@));
    }
    out
}

/// Cutting a body of `L` characters into pieces of at most `C` characters
/// gives ceil(L / C) pieces, none longer than `C`, and the pieces one after
/// another are the body again.
pub proof fn lemma_chunks_cover_body(body: Seq<char>, limit: nat)
    requires
        limit > 0,
    ensures
        chunks_spec(body, limit).len() == ceil_div(body.len(), limit),
        forall|i: int|
            0 <= i < chunks_spec(body, limit).len() ==> 0 < #[trigger] chunks_spec(
                body,
                limit,
            )[i].len() <= limit,
        joined(chunks_spec(body, limit)) == body,
    decreases body.len(),
{
    let c = chunks_spec(body, limit);
    if body.len() == 0 {
        assert(joined(c) =~= body);
    } else if body.len() <= limit {
        assert(body.len() / limit == 0 || body.len() == limit) by (nonlinear_arith)
            requires
                0 < body.len() <= limit,
        {
            if body.len() < limit {
                assert(body.len() / limit == 0) by (nonlinear_arith)
                    requires
                        0 < body.len() < limit,
                ;
            }
        }
        if body.len() == limit {
            assert(body.len() % limit == 0 && body.len() / limit == 1) by (nonlinear_arith)
                requires
                    body.len() == limit,
                    limit > 0,
            ;
        } else {
            assert(body.len() % limit != 0) by (nonlinear_arith)
                requires
                    0 < body.len() < limit,
            ;
        }
        assert(c.skip(1) =~= Seq::<Seq<char>>::empty());
        assert(joined(c.skip(1)) == Seq::<char>::empty());
        assert(joined(c) =~= body);
    } else {
        let rest = body.skip(limit as int);
        lemma_chunks_cover_body(rest, limit);
        let rc = chunks_spec(rest, limit);
        assert(c == seq![body.take(limit as int)] + rc);
        assert(c.skip(1) =~= rc);
        assert(joined(c) == body.take(limit as int) + joined(rc));
        assert(body =~= body.take(limit as int) + rest);
        let l = body.len();
        assert(ceil_div(l, limit) == ceil_div((l - limit) as nat, limit) + 1) by (nonlinear_arith)
            requires
                l > limit,
                limit > 0,
        {
            assert(((l - limit) as nat) / limit == l / limit - 1) by (nonlinear_arith)
                requires
                    l > limit,
                    limit > 0,
            ;
            assert(((l - limit) as nat) % limit == l % limit) by (nonlinear_arith)
                requires
                    l > limit,
                    limit > 0,
            ;
        }
        assert forall|i: int| 0 <= i < c.len() implies 0 < #[trigger] c[i].len() <= limit by {
            if i > 0 {
                assert(c[i] == rc[i - 1]);
            }
        }
    }
}

/// The messages that publish a report under a header: header and body in one
/// message when together they stay under `MESSAGE_LIMIT` characters, else the
/// header alone followed by the body in pieces of `CHUNK_SIZE` characters.
pub open spec fn report_messages_spec(header: Seq<char>, body: Seq<char>) -> Seq<Seq<char>> {
    if header.len() + body.len() < MESSAGE_LIMIT {
        seq![header + body]
    } else {
        seq![header] + chunks_spec(body, CHUNK_SIZE as nat)
    }
}

/// Lays out a report under a header as messages.
pub fn report_messages(header: &str, body: &str) -> (r: Vec<String>)
    ensures
        string_views(r@) == report_messages_spec(header@, body@),
{
    let h = header.unicode_len();
    let b = body.unicode_len();
    if b < MESSAGE_LIMIT && h < MESSAGE_LIMIT - b {
        let mut out: Vec<String> = Vec::new();
        out.push(String::from_str(header).concat(body));
        assert(string_views(out@) =~= seq![header@ + body@]);
        out
    } else {
        let mut out: Vec<String> = Vec::new();
        out.push(String::from_str(header));
        let mut pieces = chunk_report(body, CHUNK_SIZE);
        let ghost first = string_views(out@);
        let ghost rest = string_views(pieces@);
        out.append(&mut pieces);
        assert(string_views(out@) =~= first + rest);
        assert(first =~= seq![header@]);
        out
    }
}

} // verus!
