//! The argument stream parser: the inverse direction.
//!
//! The flat wire text is split on ASCII whitespace, bracket characters at
//! a token's edges are split off as standalone delimiter tokens, and the
//! token stream is consumed by a two-state machine (outside an array /
//! inside an array) into a typed argument list of scalars and one-level
//! arrays.  Every non-delimiter token must be a valid decimal integer of
//! the VM's working width; the first offending token is reported.

use vstd::prelude::*;

use crate::chars::{all_dec_digits, dec_val};
use crate::errors::PrepError;
use crate::status::str_eq;
use crate::wide::{parse_dec_wide, two256, wide_val, Wide256};
use vstd::string::{StrSliceExecFns, StringExecFns};

verus! {

broadcast use vstd::string::group_string_axioms;

// ---------------------------------------------------------------------
// Whitespace splitting.
// ---------------------------------------------------------------------

/// Whether `c` is one of the five ASCII whitespace characters.
pub open spec fn is_ws(c: char) -> bool {
    c == ' ' || c == '\t' || c == '\n' || c == '\r' || c == '\x0c'
}

/// The whitespace splitter as a character-by-character machine: `cur` is
/// the token being read, `acc` the tokens already read.
pub open spec fn ws_split_rec(s: Seq<char>, cur: Seq<char>, acc: Seq<Seq<char>>) -> Seq<Seq<char>>
    decreases s.len(),
{
    if s.len() == 0 {
        if cur.len() > 0 {
            acc.push(cur)
        } else {
            acc
        }
    } else if is_ws(s.first()) {
        ws_split_rec(
            s.drop_first(),
            Seq::empty(),
            if cur.len() > 0 {
                acc.push(cur)
            } else {
                acc
            },
        )
    } else {
        ws_split_rec(s.drop_first(), cur.push(s.first()), acc)
    }
}

/// The maximal whitespace-free tokens of a string, in order.
pub open spec fn ws_split(s: Seq<char>) -> Seq<Seq<char>> {
    ws_split_rec(s, Seq::empty(), Seq::empty())
}

/// The bracket splitting of one whitespace token: an opening bracket at
/// the front and a closing bracket at the back each become standalone
/// delimiter tokens, applied once each, in that order.
pub open spec fn bracket_expand(t: Seq<char>) -> Seq<Seq<char>> {
    let pre: Seq<Seq<char>> = if t.len() > 0 && t.first() == '[' {
        seq![seq!['[']]
    } else {
        Seq::empty()
    };
    let t1: Seq<char> = if t.len() > 0 && t.first() == '[' {
        t.drop_first()
    } else {
        t
    };
    if t1.len() > 0 && t1.last() == ']' {
        let t2 = t1.drop_last();
        pre + (if t2.len() > 0 {
            seq![t2]
        } else {
            Seq::<Seq<char>>::empty()
        }) + seq![seq![']']]
    } else {
        pre + (if t1.len() > 0 {
            seq![t1]
        } else {
            Seq::<Seq<char>>::empty()
        })
    }
}

/// The bracket splitting of every whitespace token, concatenated.
pub open spec fn expand_all(ts: Seq<Seq<char>>) -> Seq<Seq<char>>
    decreases ts.len(),
{
    if ts.len() == 0 {
        Seq::empty()
    } else {
        expand_all(ts.drop_last()) + bracket_expand(ts.last())
    }
}

/// The token stream of the flat wire text: whitespace splitting, then
/// bracket splitting.
pub open spec fn tokenize_spec(s: Seq<char>) -> Seq<Seq<char>> {
    expand_all(ws_split(s))
}

/// The views of a token list.
pub open spec fn token_views(ts: Seq<String>) -> Seq<Seq<char>> {
    ts.map_values(|t: String| t@)
}

/// Splits a string into its maximal whitespace-free tokens.
fn split_whitespace_tokens(s: &str) -> (out: Vec<String>)
    ensures
        token_views(out@) == ws_split(s@),
{
    let n = s.unicode_len();
    let mut out: Vec<String> = Vec::new();
    let mut start: usize = 0;
    let mut active = false;
    let mut i: usize = 0;
    proof {
        assert(s@.skip(0) =~= s@);
        assert(token_views(out@) =~= Seq::<Seq<char>>::empty());
    }
    while i < n
        invariant
            0 <= i <= n,
            n == s@.len(),
            active ==> 0 <= start < i,
            ws_split(s@) == ws_split_rec(
                s@.skip(i as int),
                if active {
                    s@.subrange(start as int, i as int)
                } else {
                    Seq::empty()
                },
                token_views(out@),
            ),
        decreases n - i,
    {
        let c = s.get_char(i);
        let ws = c == ' ' || c == '\t' || c == '\n' || c == '\r' || c == '\x0c';
        proof {
            assert(s@.skip(i as int).first() == s@[i as int]);
            assert(s@.skip(i as int).drop_first() =~= s@.skip(i as int + 1));
        }
        if ws {
            if active {
                let ghost prev = out@;
                let ghost cur = s@.subrange(start as int, i as int);
                let tok = s.substring_char(start, i).to_owned();
                out.push(tok);
                proof {
                    assert(token_views(out@) =~= token_views(prev).push(cur));
                    if cur.len() > 0 {
                        assert(ws_split_rec(s@.skip(i as int), cur, token_views(prev))
                            == ws_split_rec(
                            s@.skip(i as int + 1),
                            Seq::empty(),
                            token_views(prev).push(cur),
                        ));
                    }
                    assert(ws_split(s@) == ws_split_rec(
                        s@.skip(i as int + 1),
                        Seq::empty(),
                        token_views(out@),
                    ));
                }
                active = false;
            } else {
                proof {
                    assert(ws_split(s@) == ws_split_rec(
                        s@.skip(i as int + 1),
                        Seq::empty(),
                        token_views(out@),
                    ));
                }
            }
        } else {
            if !active {
                start = i;
                active = true;
                proof {
                    assert(s@.subrange(i as int, i as int) =~= Seq::<char>::empty());
                }
            }
            proof {
                assert(s@.subrange(start as int, i as int).push(s@[i as int]) =~= s@.subrange(
                    start as int,
                    i as int + 1,
                ));
                assert(ws_split(s@) == ws_split_rec(
                    s@.skip(i as int + 1),
                    s@.subrange(start as int, i as int + 1),
                    token_views(out@),
                ));
            }
        }
        i = i + 1;
    }
    let ghost prev = out@;
    if active {
        let tok = s.substring_char(start, n).to_owned();
        out.push(tok);
    }
    proof {
        assert(s@.skip(n as int) =~= Seq::<char>::empty());
        if active {
            assert(token_views(out@) =~= token_views(prev).push(
                s@.subrange(start as int, n as int),
            ));
        }
    }
    out
}

/// Appends the bracket splitting of one whitespace token.
fn push_bracket_parts(out: &mut Vec<String>, tok: &str)
    ensures
        token_views(final(out)@) == token_views(old(out)@) + bracket_expand(tok@),
{
    let n = tok.unicode_len();
    proof {
        reveal_strlit("[");
        reveal_strlit("]");
        assert("["@ =~= seq!['[']);
        assert("]"@ =~= seq![']']);
    }
    let has_pre = n > 0 && tok.get_char(0) == '[';
    if has_pre {
        out.push(String::from_str("["));
    }
    let rest_start: usize = if has_pre {
        1
    } else {
        0
    };
    let m = n - rest_start;
    // The remainder after prefix stripping is tok[rest_start..n].
    let has_close = m > 0 && tok.get_char(n - 1) == ']';
    if has_close {
        if m > 1 {
            let mid = tok.substring_char(rest_start, n - 1).to_owned();
            out.push(mid);
        }
        out.push(String::from_str("]"));
    } else {
        if m > 0 {
            let mid = tok.substring_char(rest_start, n).to_owned();
            out.push(mid);
        }
    }
    proof {
        let t = tok@;
        let t1: Seq<char> = if t.len() > 0 && t.first() == '[' {
            t.drop_first()
        } else {
            t
        };
        assert(t1 =~= t.subrange(rest_start as int, n as int));
        if has_close {
            assert(t1.last() == t[n - 1]);
            assert(t1.drop_last() =~= t.subrange(rest_start as int, n as int - 1));
        }
        assert(token_views(out@) =~= token_views(old(out)@) + bracket_expand(tok@));
    }
}

/// Splits the flat wire text into its token stream: whitespace splitting,
/// then bracket splitting.
pub fn tokenize(s: &str) -> (out: Vec<String>)
    ensures
        token_views(out@) == tokenize_spec(s@),
{
    let ws_tokens = split_whitespace_tokens(s);
    let mut out: Vec<String> = Vec::new();
    let mut i: usize = 0;
    proof {
        assert(token_views(out@) =~= expand_all(token_views(ws_tokens@).take(0)));
    }
    while i < ws_tokens.len()
        invariant
            0 <= i <= ws_tokens@.len(),
            token_views(out@) == expand_all(token_views(ws_tokens@).take(i as int)),
        decreases ws_tokens@.len() - i,
    {
        push_bracket_parts(&mut out, ws_tokens[i].as_str());
        proof {
            let wv = token_views(ws_tokens@);
            assert(wv.take(i as int + 1).drop_last() =~= wv.take(i as int));
            assert(wv.take(i as int + 1).last() == wv[i as int]);
            assert(wv[i as int] == ws_tokens@[i as int]@);
        }
        i = i + 1;
    }
    proof {
        assert(token_views(ws_tokens@).take(ws_tokens@.len() as int) =~= token_views(ws_tokens@));
    }
    out
}

// ---------------------------------------------------------------------
// The argument list and its mathematical reading.
// ---------------------------------------------------------------------

/// A typed argument of a VM invocation: a scalar or a one-level array.
#[derive(Clone, Debug)]
pub enum FlatArgument {
    Scalar(Wide256),
    Array(Vec<Wide256>),
}

/// The mathematical reading of an argument: its numeric values.
pub enum FlatArgumentModel {
    Scalar(nat),
    Array(Seq<nat>),
}

/// The reading of one argument.
pub open spec fn arg_model(a: FlatArgument) -> FlatArgumentModel {
    match a {
        FlatArgument::Scalar(w) => FlatArgumentModel::Scalar(wide_val(w)),
        FlatArgument::Array(v) => FlatArgumentModel::Array(
            v@.map_values(|w: Wide256| wide_val(w)),
        ),
    }
}

/// The reading of an argument list.
pub open spec fn args_model(s: Seq<FlatArgument>) -> Seq<FlatArgumentModel> {
    s.map_values(|a: FlatArgument| arg_model(a))
}

/// Whether a token is a valid integer literal of the VM's native decimal
/// form: decimal digits encoding a value of at most 256 bits.
pub open spec fn valid_num_token(t: Seq<char>) -> bool {
    t.len() > 0 && all_dec_digits(t) && dec_val(t) < two256()
}

// ---------------------------------------------------------------------
// The two-state parser.
// ---------------------------------------------------------------------

/// The parser as a token-by-token machine with two states, outside an
/// array and inside one: `cur` is the array being read, `acc` the
/// arguments already read.  A close delimiter outside an array, a
/// nested open delimiter, and any other non-numeric token are reported
/// as the offending token.
pub open spec fn parse_state(
    ts: Seq<Seq<char>>,
    in_array: bool,
    cur: Seq<nat>,
    acc: Seq<FlatArgumentModel>,
) -> Result<Seq<FlatArgumentModel>, Seq<char>>
    decreases ts.len(),
{
    if ts.len() == 0 {
        if in_array {
            Ok(acc.push(FlatArgumentModel::Array(cur)))
        } else {
            Ok(acc)
        }
    } else {
        let t = ts.first();
        if in_array {
            if t == seq![']'] {
                parse_state(
                    ts.drop_first(),
                    false,
                    Seq::empty(),
                    acc.push(FlatArgumentModel::Array(cur)),
                )
            } else if valid_num_token(t) {
                parse_state(ts.drop_first(), true, cur.push(dec_val(t)), acc)
            } else {
                Err(t)
            }
        } else {
            if t == seq!['['] {
                parse_state(ts.drop_first(), true, Seq::empty(), acc)
            } else if valid_num_token(t) {
                parse_state(
                    ts.drop_first(),
                    false,
                    Seq::empty(),
                    acc.push(FlatArgumentModel::Scalar(dec_val(t))),
                )
            } else {
                Err(t)
            }
        }
    }
}

/// The parse of a token stream, started outside any array.
pub open spec fn parse_tokens_spec(ts: Seq<Seq<char>>) -> Result<
    Seq<FlatArgumentModel>,
    Seq<char>,
> {
    parse_state(ts, false, Seq::empty(), Seq::empty())
}

/// The parse of the flat wire text: tokenization, then the two-state
/// machine.
pub open spec fn parse_args_spec(s: Seq<char>) -> Result<Seq<FlatArgumentModel>, Seq<char>> {
    parse_tokens_spec(tokenize_spec(s))
}

/// Reads array elements from `start` until a close delimiter or the end
/// of the stream, as the machine's inside-array state does: returns the
/// values and the index just past what was consumed.
fn process_array(tokens: &Vec<String>, start: usize) -> (r: Result<
    (Vec<Wide256>, usize),
    PrepError,
>)
    requires
        start <= tokens@.len(),
    ensures
        r matches Ok(p) ==> {
            &&& start <= p.1 <= tokens@.len()
            &&& forall|cur: Seq<nat>, acc: Seq<FlatArgumentModel>|
                #[trigger] parse_state(
                    token_views(tokens@).skip(start as int),
                    true,
                    cur,
                    acc,
                ) == parse_state(
                    token_views(tokens@).skip(p.1 as int),
                    false,
                    Seq::empty(),
                    acc.push(
                        FlatArgumentModel::Array(
                            cur + p.0@.map_values(|w: Wide256| wide_val(w)),
                        ),
                    ),
                )
        },
        r matches Err(e) ==> e matches PrepError::InvalidNumericToken(t) && (forall|
            cur: Seq<nat>,
            acc: Seq<FlatArgumentModel>,
        |
            #[trigger] parse_state(token_views(tokens@).skip(start as int), true, cur, acc)
                == Err::<Seq<FlatArgumentModel>, Seq<char>>(t@)),
{
    let ghost tv = token_views(tokens@);
    let mut vals: Vec<Wide256> = Vec::new();
    let mut i: usize = start;
    proof {
        assert forall|cur: Seq<nat>, acc: Seq<FlatArgumentModel>|
            #[trigger] parse_state(tv.skip(start as int), true, cur, acc) == parse_state(
                tv.skip(start as int),
                true,
                cur + vals@.map_values(|w: Wide256| wide_val(w)),
                acc,
            ) by {
            assert(cur + vals@.map_values(|w: Wide256| wide_val(w)) =~= cur);
        }
    }
    while i < tokens.len()
        invariant
            start <= i <= tokens@.len(),
            tv == token_views(tokens@),
            forall|cur: Seq<nat>, acc: Seq<FlatArgumentModel>|
                #[trigger] parse_state(tv.skip(start as int), true, cur, acc) == parse_state(
                    tv.skip(i as int),
                    true,
                    cur + vals@.map_values(|w: Wide256| wide_val(w)),
                    acc,
                ),
        decreases tokens@.len() - i,
    {
        proof {
            reveal_strlit("]");
            assert("]"@ =~= seq![']']);
            assert(tv.skip(i as int).first() == tv[i as int]);
            assert(tv[i as int] == tokens@[i as int]@);
            assert(tv.skip(i as int).drop_first() =~= tv.skip(i as int + 1));
        }
        if str_eq(tokens[i].as_str(), "]") {
            proof {
                assert forall|cur: Seq<nat>, acc: Seq<FlatArgumentModel>|
                    #[trigger] parse_state(tv.skip(start as int), true, cur, acc) == parse_state(
                        tv.skip(i as int + 1),
                        false,
                        Seq::empty(),
                        acc.push(
                            FlatArgumentModel::Array(
                                cur + vals@.map_values(|w: Wide256| wide_val(w)),
                            ),
                        ),
                    ) by {
                    assert(parse_state(tv.skip(start as int), true, cur, acc) == parse_state(
                        tv.skip(i as int),
                        true,
                        cur + vals@.map_values(|w: Wide256| wide_val(w)),
                        acc,
                    ));
                }
            }
            return Ok((vals, i + 1));
        }
        match parse_dec_wide(tokens[i].as_str()) {
            Some(w) => {
                let ghost prev_vals = vals@;
                vals.push(w);
                proof {
                    assert forall|cur: Seq<nat>, acc: Seq<FlatArgumentModel>|
                        #[trigger] parse_state(tv.skip(start as int), true, cur, acc)
                            == parse_state(
                            tv.skip(i as int + 1),
                            true,
                            cur + vals@.map_values(|w2: Wide256| wide_val(w2)),
                            acc,
                        ) by {
                        let mids = prev_vals.map_values(|w2: Wide256| wide_val(w2));
                        assert(parse_state(tv.skip(start as int), true, cur, acc) == parse_state(
                            tv.skip(i as int),
                            true,
                            cur + mids,
                            acc,
                        ));
                        assert(valid_num_token(tv[i as int]));
                        assert(parse_state(tv.skip(i as int), true, cur + mids, acc)
                            == parse_state(
                            tv.skip(i as int + 1),
                            true,
                            (cur + mids).push(dec_val(tv[i as int])),
                            acc,
                        ));
                        assert((cur + mids).push(dec_val(tv[i as int])) =~= cur + vals@.map_values(
                            |w2: Wide256| wide_val(w2),
                        ));
                    }
                }
            },
            None => {
                let ghost bad = tokens@[i as int]@;
                proof {
                    assert(!valid_num_token(tv[i as int]));
                    assert(!(tv[i as int] == seq![']']));
                    assert forall|cur: Seq<nat>, acc: Seq<FlatArgumentModel>|
                        #[trigger] parse_state(tv.skip(start as int), true, cur, acc) == Err::<
                            Seq<FlatArgumentModel>,
                            Seq<char>,
                        >(bad) by {
                        assert(parse_state(tv.skip(start as int), true, cur, acc) == parse_state(
                            tv.skip(i as int),
                            true,
                            cur + vals@.map_values(|w2: Wide256| wide_val(w2)),
                            acc,
                        ));
                    }
                }
                return Err(PrepError::InvalidNumericToken(tokens[i].clone()));
            },
        }
        i = i + 1;
    }
    proof {
        assert(tv.skip(tokens@.len() as int) =~= Seq::<Seq<char>>::empty());
        assert forall|cur: Seq<nat>, acc: Seq<FlatArgumentModel>|
            #[trigger] parse_state(tv.skip(start as int), true, cur, acc) == parse_state(
                tv.skip(tokens@.len() as int),
                false,
                Seq::empty(),
                acc.push(
                    FlatArgumentModel::Array(cur + vals@.map_values(|w: Wide256| wide_val(w))),
                ),
            ) by {
            assert(parse_state(tv.skip(start as int), true, cur, acc) == parse_state(
                tv.skip(tokens@.len() as int),
                true,
                cur + vals@.map_values(|w: Wide256| wide_val(w)),
                acc,
            ));
        }
    }
    Ok((vals, tokens.len()))
}

/// Parses the flat wire text into a typed argument list.  Succeeds
/// exactly when the two-state machine accepts the token stream; on
/// failure the offending token is reported, and no other failure kind
/// occurs.
pub fn process_args(value: &str) -> (r: Result<Vec<FlatArgument>, PrepError>)
    ensures
        (r is Ok) == (parse_args_spec(value@) is Ok),
        r matches Ok(args) ==> parse_args_spec(value@) == Ok::<
            Seq<FlatArgumentModel>,
            Seq<char>,
        >(args_model(args@)),
        r matches Err(e) ==> e matches PrepError::InvalidNumericToken(t) && parse_args_spec(
            value@,
        ) == Err::<Seq<FlatArgumentModel>, Seq<char>>(t@),
{
    let tokens = tokenize(value);
    let ghost tv = token_views(tokens@);
    let mut args: Vec<FlatArgument> = Vec::new();
    let mut i: usize = 0;
    proof {
        assert(tv.skip(0) =~= tv);
        assert(args_model(args@) =~= Seq::<FlatArgumentModel>::empty());
    }
    while i < tokens.len()
        invariant
            0 <= i <= tokens@.len(),
            tv == token_views(tokens@),
            tv == tokenize_spec(value@),
            parse_tokens_spec(tv) == parse_state(
                tv.skip(i as int),
                false,
                Seq::empty(),
                args_model(args@),
            ),
        decreases tokens@.len() - i,
    {
        proof {
            reveal_strlit("[");
            assert("["@ =~= seq!['[']);
            assert(tv.skip(i as int).first() == tv[i as int]);
            assert(tv[i as int] == tokens@[i as int]@);
            assert(tv.skip(i as int).drop_first() =~= tv.skip(i as int + 1));
        }
        if str_eq(tokens[i].as_str(), "[") {
            let inner_start = i + 1;
            match process_array(&tokens, inner_start) {
                Ok((arr_vals, next)) => {
                    let ghost prev_args = args@;
                    args.push(FlatArgument::Array(arr_vals));
                    proof {
                        assert(parse_state(tv.skip(i as int), false, Seq::empty(), args_model(prev_args))
                            == parse_state(tv.skip(i as int + 1), true, Seq::empty(), args_model(prev_args)));
                        assert(parse_state(tv.skip(inner_start as int), true, Seq::empty(), args_model(prev_args))
                            == parse_state(
                            tv.skip(next as int),
                            false,
                            Seq::empty(),
                            args_model(prev_args).push(
                                FlatArgumentModel::Array(
                                    Seq::empty() + arr_vals@.map_values(|w: Wide256| wide_val(w)),
                                ),
                            ),
                        ));
                        assert(args_model(args@) =~= args_model(prev_args).push(
                            FlatArgumentModel::Array(
                                Seq::empty() + arr_vals@.map_values(|w: Wide256| wide_val(w)),
                            ),
                        ));
                        assert(Seq::empty() + arr_vals@.map_values(|w: Wide256| wide_val(w)) =~=
                        arr_vals@.map_values(|w: Wide256| wide_val(w)));
                        assert(args_model(args@) =~= args_model(prev_args).push(
                            FlatArgumentModel::Array(
                                arr_vals@.map_values(|w: Wide256| wide_val(w)),
                            ),
                        ));
                    }
                    i = next;
                },
                Err(e) => {
                    proof {
                        assert(parse_state(tv.skip(i as int), false, Seq::empty(), args_model(args@))
                            == parse_state(tv.skip(i as int + 1), true, Seq::empty(), args_model(args@)));
                        assert(parse_state(
                            tv.skip(inner_start as int),
                            true,
                            Seq::empty(),
                            args_model(args@),
                        ) is Err);
                    }
                    return Err(e);
                },
            }
        } else {
            match parse_dec_wide(tokens[i].as_str()) {
                Some(w) => {
                    let ghost prev_args = args@;
                    args.push(FlatArgument::Scalar(w));
                    proof {
                        assert(valid_num_token(tv[i as int]));
                        assert(args_model(args@) =~= args_model(prev_args).push(
                            FlatArgumentModel::Scalar(wide_val(w)),
                        ));
                    }
                    i = i + 1;
                },
                None => {
                    proof {
                        assert(!valid_num_token(tv[i as int]));
                        assert(!(tv[i as int] == seq!['[']));
                    }
                    return Err(PrepError::InvalidNumericToken(tokens[i].clone()));
                },
            }
        }
    }
    proof {
        assert(tv.skip(tokens@.len() as int) =~= Seq::<Seq<char>>::empty());
    }
    Ok(args)
}

} // verus!
