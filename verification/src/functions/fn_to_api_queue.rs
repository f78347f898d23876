//! `FnToApiQueue`: hands SQL requests over to the API queue.
use vstd::prelude::*;
use sqlparser::dialect::PostgreSqlDialect;
use sqlparser::tokenizer::{Token, Tokenizer};
use crate::point::{Point, PointValue, PointView, ValueView};
use crate::fn_flow::{FnFlow, FnResult, FnKind};
use crate::functions::fn_input::{InputType, Converted, FloatConversion, convert_input};
use crate::text::{node_id, node_id_text, trim, trimmed, chars_of, chars_to_string, i64_text, bool_to_text};

verus! {

/// What the PostgreSQL tokenizer of `sqlparser` makes of the text `sql`: `None`
/// when it refuses the text, else its tokens in order, each as a flag (`true`
/// for a single-quoted string) and a text (the unescaped content of a
/// single-quoted string, the display text of any other token).
pub uninterp spec fn sql_tokens(sql: Seq<char>) -> Option<Seq<(bool, Seq<char>)>>;

/// The view of tokens.
pub open spec fn tokens_view(v: Seq<(bool, String)>) -> Seq<(bool, Seq<char>)> {
    v.map_values(|t: (bool, String)| (t.0, t.1@))
}

/// Tokenizes `sql` with `sqlparser`'s `Tokenizer` and the PostgreSQL dialect
/// (`Tokenizer::tokenize`). The contract claims that the result is what
/// `sql_tokens` names: the tokens, or an error exactly when the tokenizer
/// refuses the text. The error message is not stated.
#[verifier::external_body]
fn tokenize_sql(sql: &str) -> (r: Result<Vec<(bool, String)>, String>)
    ensures
        match r {
            Ok(v) => sql_tokens(sql@) == Some(tokens_view(v@)),
            Err(_) => sql_tokens(sql@) is None,
        },
{
    let dialect = PostgreSqlDialect {};
    match Tokenizer::new(&dialect, sql).tokenize() {
        Err(e) => Err(e.to_string()),
        Ok(tokens) => {
            let mut v = Vec::with_capacity(tokens.len());
            for t in tokens {
                v.push(match t {
                    Token::SingleQuotedString(s) => (true, s),
                    other => (false, other.to_string()),
                });
            }
            Ok(v)
        }
    }
}

/// The content of a single-quoted string made safe: NUL characters removed,
/// each single quote doubled.
pub open spec fn escape_quoted(text: Seq<char>) -> Seq<char>
    decreases text.len(),
{
    if text.len() == 0 {
        Seq::empty()
    } else {
        let c = text.last();
        escape_quoted(text.drop_last()) + (if c == '\0' { Seq::empty() } else if c == '\'' { seq!['\'', '\''] } else { seq![c] })
    }
}

/// `text` without its NUL characters.
pub open spec fn drop_nul(text: Seq<char>) -> Seq<char> {
    text.filter(|c: char| c != '\0')
}

/// The text of the tokens without NUL characters, single-quoted strings
/// escaped and quoted again.
pub open spec fn render_tokens(ts: Seq<(bool, Seq<char>)>) -> Seq<char>
    decreases ts.len(),
{
    if ts.len() == 0 {
        Seq::empty()
    } else {
        let t = ts.last();
        render_tokens(ts.drop_last()) + (if t.0 { seq!['\''] + escape_quoted(t.1) + seq!['\''] } else { drop_nul(t.1) })
    }
}

/// An escaped string holds no NUL character.
proof fn lemma_escaped_no_nul(text: Seq<char>)
    ensures
        !escape_quoted(text).contains('\0'),
    decreases text.len(),
{
    if text.len() > 0 {
        lemma_escaped_no_nul(text.drop_last());
        let c = text.last();
        let tail: Seq<char> = if c == '\0' { Seq::empty() } else if c == '\'' { seq!['\'', '\''] } else { seq![c] };
        let e = escape_quoted(text.drop_last());
        assert(escape_quoted(text) == e + tail);
        if (e + tail).contains('\0') {
            let i = choose|i: int| 0 <= i < (e + tail).len() && (e + tail)[i] == '\0';
            if i < e.len() {
                assert(e[i] == '\0');
            } else {
                assert(tail[i - e.len()] == '\0');
            }
        }
    }
}

/// A prepared request holds no NUL character.
pub proof fn lemma_prepared_has_no_nul(ts: Seq<(bool, Seq<char>)>)
    ensures
        !render_tokens(ts).contains('\0'),
    decreases ts.len(),
{
    if ts.len() > 0 {
        lemma_prepared_has_no_nul(ts.drop_last());
        let t = ts.last();
        lemma_escaped_no_nul(t.1);
        let r = render_tokens(ts.drop_last());
        let tail = if t.0 { seq!['\''] + escape_quoted(t.1) + seq!['\''] } else { drop_nul(t.1) };
        assert(render_tokens(ts) == r + tail);
        if (r + tail).contains('\0') {
            let i = choose|i: int| 0 <= i < (r + tail).len() && (r + tail)[i] == '\0';
            if i < r.len() {
                assert(r[i] == '\0');
            } else {
                let j = i - r.len();
                assert(tail[j] == '\0');
                if t.0 {
                    let q = escape_quoted(t.1);
                    if 1 <= j < 1 + q.len() {
                        assert(q[j - 1] == '\0');
                    }
                } else {
                    t.1.lemma_filter_pred(|c: char| c != '\0', j);
                }
            }
        }
    }
}

/// The SQL request prepared from `sql`: trimmed, tokenized, rendered; `None`
/// when the tokenizer refuses it.
pub open spec fn prepared_sql(sql: Seq<char>) -> Option<Seq<char>> {
    match sql_tokens(trimmed(sql)) {
        None => None,
        Some(ts) => Some(render_tokens(ts)),
    }
}

/// Escapes the content of a single-quoted string into `out`.
fn push_escaped(out: &mut Vec<char>, text: &String)
    ensures
        final(out)@ == old(out)@ + escape_quoted(text@),
{
    let cs = chars_of(text.as_str());
    let mut i: usize = 0;
    while i < cs.len()
        invariant
            i <= cs.len(),
            cs@ == text@,
            out@ == old(out)@ + escape_quoted(cs@.subrange(0, i as int)),
        decreases cs.len() - i,
    {
        let c = cs[i];
        assert(cs@.subrange(0, i + 1).drop_last() =~= cs@.subrange(0, i as int));
        if c == '\0' {
        } else if c == '\'' {
            out.push('\'');
            out.push('\'');
        } else {
            out.push(c);
        }
        i = i + 1;
        assert(out@ =~= old(out)@ + escape_quoted(cs@.subrange(0, i as int)));
    }
    assert(cs@.subrange(0, cs.len() as int) =~= cs@);
}

/// Renders the tokens.
fn render(tokens: &Vec<(bool, String)>) -> (r: Vec<char>)
    ensures
        r@ == render_tokens(tokens_view(tokens@)),
{
    let ghost ts = tokens_view(tokens@);
    let mut out: Vec<char> = Vec::new();
    let mut i: usize = 0;
    while i < tokens.len()
        invariant
            i <= tokens.len(),
            ts == tokens_view(tokens@),
            out@ == render_tokens(ts.subrange(0, i as int)),
        decreases tokens.len() - i,
    {
        assert(ts.subrange(0, i + 1).drop_last() =~= ts.subrange(0, i as int));
        let t = &tokens[i];
        if t.0 {
            out.push('\'');
            push_escaped(&mut out, &t.1);
            out.push('\'');
        } else {
            let cs = chars_of(t.1.as_str());
            let mut j: usize = 0;
            let ghost before = out@;
            while j < cs.len()
                invariant
                    j <= cs.len(),
                    out@ == before + drop_nul(cs@.subrange(0, j as int)),
                decreases cs.len() - j,
            {
                let c = cs[j];
                proof {
                    assert(cs@.subrange(0, j + 1) =~= cs@.subrange(0, j as int).push(c));
                    cs@.subrange(0, j as int).lemma_filter_push(c, |c: char| c != '\0');
                }
                if c != '\0' {
                    out.push(c);
                }
                j = j + 1;
                assert(out@ =~= before + drop_nul(cs@.subrange(0, j as int)));
            }
            assert(cs@.subrange(0, cs.len() as int) =~= cs@);
        }
        i = i + 1;
        assert(out@ =~= render_tokens(ts.subrange(0, i as int)));
    }
    assert(ts.subrange(0, tokens.len() as int) =~= ts);
    out
}

/// The text `FnToApiQueue` takes from a value: a string as it is, a logical or
/// integer value as text, a float as text made by the caller; bytes are refused.
pub open spec fn sql_text(v: ValueView) -> Converted {
    convert_input(InputType::String, v)
}

/// ### Function | `FnToApiQueue`
///
/// Hands the SQL requests of its input over to the API queue:
/// - only a `New` input is handed over; the input is passed on unchanged
/// - the request is trimmed and loses its NUL characters, its single-quoted
///   strings get their quotes doubled
/// - an empty request is not handed over
#[derive(Debug)]
pub struct FnToApiQueue<I> {
    txid: usize,
    id: String,
    input: I,
}

impl<I> FnToApiQueue<I> {
    /// The node's identifier.
    pub closed spec fn id_spec(&self) -> Seq<char> {
        self.id@
    }

    /// The transaction id of the points handed over.
    pub closed spec fn txid_spec(&self) -> usize {
        self.txid
    }

    /// Returns a new `FnToApiQueue`; `txid` identifies the sender of the requests.
    pub fn new(parent: &str, seq: usize, txid: usize, input: I) -> (r: Self)
        ensures
            r.id_spec() == node_id_text(parent@, "FnToApiQueue"@, seq),
            r.txid_spec() == txid,
    {
        FnToApiQueue { txid, id: node_id(parent, "FnToApiQueue", seq), input }
    }

    /// Returns the node's identifier.
    pub fn id(&self) -> (r: String)
        ensures
            r@ == self.id_spec(),
    {
        self.id.clone()
    }

    /// Returns the kind of the node.
    pub fn kind(&self) -> (r: FnKind)
        ensures
            r == FnKind::Fn,
    {
        FnKind::Fn
    }

    /// The input: the node's `input`.
    pub closed spec fn input_spec(&self) -> I {
        self.input
    }

    /// The node with `v` in place of its `input`.
    pub closed spec fn with_input(&self, v: I) -> Self {
        FnToApiQueue { input: v, ..*self }
    }

    /// The input. Returns a reference to it; the node is otherwise unchanged.
    pub fn input(&mut self) -> (r: &mut I)
        ensures
            *r == old(self).input_spec(),
            *final(self) == old(self).with_input(*final(r)),
    {
        &mut self.input
    }

    /// Prepares the SQL request `sql`: trimmed, without NUL characters,
    /// single-quoted strings with their quotes doubled; an error when the text
    /// is not valid SQL.
    pub fn prepare_raw_sql(&self, sql: &str) -> (r: Result<String, String>)
        ensures
            match prepared_sql(sql@) {
                Some(t) => r matches Ok(x) && x@ == t,
                None => r is Err,
            },
    {
        match tokenize_sql(trim(sql)) {
            Err(e) => Err(self.id.clone().concat(".prepare_raw_sql | Invalid SQL: ").concat(e.as_str())),
            Ok(tokens) => {
                let out = render(&tokens);
                Ok(chars_to_string(&out))
            }
        }
    }

    /// The floating-point conversion the caller must make for the text of the
    /// input result, if any (only for a `New` input).
    pub fn conversion(&self, input: &FnResult<FnFlow, String>) -> (r: Option<FloatConversion>)
        ensures
            r == (match *input {
                Ok(Some(f)) => if f.fresh() {
                    match sql_text(f.point()@.value) {
                        Converted::Float(c) => Some(c),
                        _ => None,
                    }
                } else {
                    None
                },
                _ => None,
            }),
    {
        match input {
            Ok(Some(f)) => if f.is_new() {
                match &f.value().value {
                    PointValue::Real(b) => Some(FloatConversion::RealToText(*b)),
                    PointValue::Double(b) => Some(FloatConversion::DoubleToText(*b)),
                    _ => None,
                }
            } else {
                None
            },
            _ => None,
        }
    }

    /// Evaluates the node on the result of its input; `float_text` is the text
    /// the caller made for the conversion `conversion` asked for. Returns the
    /// input unchanged and the point to hand over, if any.
    pub fn out(&self, input: FnResult<FnFlow, String>, float_text: Option<String>) -> (r: (FnResult<FnFlow, String>, Option<Point>))
        requires
            input matches Ok(Some(f)) && f.fresh() && sql_text(f.point()@.value) is Float ==> float_text is Some,
        ensures
            match input {
                Err(e) => r.0 == Err::<Option<FnFlow>, String>(e) && r.1 is None,
                Ok(None) => r.0 == Ok::<Option<FnFlow>, String>(None) && r.1 is None,
                Ok(Some(f)) => if !f.fresh() {
                    r.0 == Ok::<Option<FnFlow>, String>(Some(f)) && r.1 is None
                } else {
                    let text = match sql_text(f.point()@.value) {
                        Converted::Value(ValueView::Str(t)) => Some(t),
                        Converted::Float(_) => Some(float_text.unwrap()@),
                        _ => None,
                    };
                    match text {
                        None => r.0 is Err && r.1 is None,
                        Some(t) => match prepared_sql(t) {
                            None => r.0 is Err && r.1 is None,
                            Some(q) => r.0 == Ok::<Option<FnFlow>, String>(Some(f)) && if q.len() == 0 {
                                r.1 is None
                            } else {
                                r.1 matches Some(p) && p@ == PointView { txid: self.txid_spec(), value: ValueView::Str(q), ..f.point()@ }
                            },
                        },
                    }
                },
            },
    {
        let f = match input {
            Err(e) => return (Err(e), None),
            Ok(None) => return (Ok(None), None),
            Ok(Some(f)) => f,
        };
        if !f.is_new() {
            return (Ok(Some(f)), None);
        }
        let text: String = match &f.value().value {
            PointValue::String(s) => s.clone(),
            PointValue::Bool(b) => bool_to_text(*b),
            PointValue::Int(i) => i64_text(*i),
            PointValue::Real(_) | PointValue::Double(_) => match float_text {
                Some(t) => t,
                None => String::new(),
            },
            PointValue::Bytes(_) => return (Err(self.id.clone().concat(".out | Invalid input type 'Bytes', expected string")), None),
        };
        let sql = match self.prepare_raw_sql(text.as_str()) {
            Err(e) => return (Err(e), None),
            Ok(sql) => sql,
        };
        if sql.unicode_len() == 0 {
            return (Ok(Some(f)), None);
        }
        let p = f.value();
        let q = Point::new(self.txid, p.name.clone(), PointValue::String(sql), p.status, p.cot, p.ts);
        (Ok(Some(f)), Some(q))
    }
}

} // verus!
