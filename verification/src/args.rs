//! Command arguments: a table of long options (with an optional short form)
//! that take a value or act as switches, and the reading of the tokens of one
//! command against such a table.

use vstd::prelude::*;
use crate::text::{
    chars_of, string_from, chars_eq, starts_with, starts_with_chars, find, find_chars, slice_chars,
    views, concat2, concat3, concat4, concat5,
};

verus! {

/// One option of a command: `--long`, optionally `-s`, taking a value or not,
/// and whether it may be given more than once.
#[derive(Debug, Clone, Copy)]
pub struct OptSpec {
    pub long: &'static str,
    pub short: Option<char>,
    pub takes_value: bool,
    pub multiple: bool,
}

/// The view of an option.
pub ghost struct OptView {
    pub long: Seq<char>,
    pub short: Option<char>,
    pub takes_value: bool,
    pub multiple: bool,
}

pub open spec fn opt_view(o: OptSpec) -> OptView {
    OptView { long: o.long@, short: o.short, takes_value: o.takes_value, multiple: o.multiple }
}

pub open spec fn opt_views(v: Seq<OptSpec>) -> Seq<OptView> {
    v.map_values(|o: OptSpec| opt_view(o))
}

/// Errors of command arguments.
#[derive(Debug, Clone)]
pub enum ArgError {
    /// A token that names no option of the command.
    Unknown(String),
    /// The option needs a value and none follows.
    MissingValue(String),
    /// The option was given twice.
    Repeated(String),
    /// A switch was given a value.
    UnexpectedValue(String),
    /// A required option is missing.
    MissingRequired(String),
    /// The option's value is not one it accepts: option, value.
    InvalidValue(String, String),
    /// A positional argument the command does not take.
    UnexpectedPositional(String),
    /// A positional argument the command needs is missing.
    MissingPositional(String),
    /// Two options that exclude each other were both given.
    Conflict(String, String),
}

/// The view of an argument error.
pub ghost enum ArgErrorView {
    Unknown(Seq<char>),
    MissingValue(Seq<char>),
    Repeated(Seq<char>),
    UnexpectedValue(Seq<char>),
    MissingRequired(Seq<char>),
    InvalidValue(Seq<char>, Seq<char>),
    UnexpectedPositional(Seq<char>),
    MissingPositional(Seq<char>),
    Conflict(Seq<char>, Seq<char>),
}

impl View for ArgError {
    type V = ArgErrorView;

    open spec fn view(&self) -> ArgErrorView {
        match self {
            ArgError::Unknown(s) => ArgErrorView::Unknown(s@),
            ArgError::MissingValue(s) => ArgErrorView::MissingValue(s@),
            ArgError::Repeated(s) => ArgErrorView::Repeated(s@),
            ArgError::UnexpectedValue(s) => ArgErrorView::UnexpectedValue(s@),
            ArgError::MissingRequired(s) => ArgErrorView::MissingRequired(s@),
            ArgError::InvalidValue(a, b) => ArgErrorView::InvalidValue(a@, b@),
            ArgError::UnexpectedPositional(s) => ArgErrorView::UnexpectedPositional(s@),
            ArgError::MissingPositional(s) => ArgErrorView::MissingPositional(s@),
            ArgError::Conflict(a, b) => ArgErrorView::Conflict(a@, b@),
        }
    }
}

/// What an argument error says.
pub open spec fn arg_error_text(e: ArgErrorView) -> Seq<char> {
    match e {
        ArgErrorView::Unknown(t) => "unexpected argument '"@ + t + "'"@,
        ArgErrorView::MissingValue(o) => "a value is required for '"@ + o + "'"@,
        ArgErrorView::Repeated(o) => "the argument '"@ + o + "' cannot be used multiple times"@,
        ArgErrorView::UnexpectedValue(o) => "the switch '"@ + o + "' takes no value"@,
        ArgErrorView::MissingRequired(o) => "the following required argument was not provided: "@ + o,
        ArgErrorView::InvalidValue(o, v) => "invalid value '"@ + v + "' for '"@ + o + "'"@,
        ArgErrorView::UnexpectedPositional(t) => "unexpected argument '"@ + t + "'"@,
        ArgErrorView::MissingPositional(p) => "the following required argument was not provided: "@ + p,
        ArgErrorView::Conflict(a, b) => a + " and "@ + b + " cannot be used together"@,
    }
}

impl ArgError {
    /// The error's message.
    pub fn message(&self) -> (r: String)
        ensures
            r@ == arg_error_text(self@),
    {
        match self {
            ArgError::Unknown(t) => concat3("unexpected argument '", t.as_str(), "'"),
            ArgError::MissingValue(o) => concat3("a value is required for '", o.as_str(), "'"),
            ArgError::Repeated(o) => concat3("the argument '", o.as_str(), "' cannot be used multiple times"),
            ArgError::UnexpectedValue(o) => concat3("the switch '", o.as_str(), "' takes no value"),
            ArgError::MissingRequired(o) => concat2("the following required argument was not provided: ", o.as_str()),
            ArgError::InvalidValue(o, v) => concat5("invalid value '", v.as_str(), "' for '", o.as_str(), "'"),
            ArgError::UnexpectedPositional(t) => concat3("unexpected argument '", t.as_str(), "'"),
            ArgError::MissingPositional(p) => concat2("the following required argument was not provided: ", p.as_str()),
            ArgError::Conflict(a, b) => concat4(a.as_str(), " and ", b.as_str(), " cannot be used together"),
        }
    }
}

/// What the tokens gave: the values of each option in table order (a switch
/// records one empty value per use), the positional arguments, and whether
/// `--` has ended the options.
#[verifier::ext_equal]
pub ghost struct Parsed {
    pub values: Seq<Seq<Seq<char>>>,
    pub positionals: Seq<Seq<char>>,
    pub rest: bool,
}

/// The index of the option whose long name is `name`.
pub open spec fn long_index(specs: Seq<OptView>, name: Seq<char>) -> Option<int>
    decreases specs.len(),
{
    if specs.len() == 0 {
        None
    } else if specs.last().long == name {
        Some(specs.len() - 1)
    } else {
        long_index(specs.drop_last(), name)
    }
}

/// The index of the option whose short form is `c`.
pub open spec fn short_index(specs: Seq<OptView>, c: char) -> Option<int>
    decreases specs.len(),
{
    if specs.len() == 0 {
        None
    } else if specs.last().short == Some(c) {
        Some(specs.len() - 1)
    } else {
        short_index(specs.drop_last(), c)
    }
}

/// A token that reads as an option rather than a value.
pub open spec fn flag_like(t: Seq<char>) -> bool {
    t.len() >= 2 && t[0] == '-'
}

/// The name an option is reported under.
pub open spec fn long_name(o: OptView) -> Seq<char> {
    "--"@ + o.long
}

/// Records one use of option `k` whose value, if it has one, is `inline` or
/// the token after position `i`; then reads on.
pub open spec fn take_option(tokens: Seq<Seq<char>>, specs: Seq<OptView>, i: int, k: int, inline: Option<Seq<char>>, p: Parsed) -> Result<(Parsed, int), ArgErrorView> {
    let o = specs[k];
    if o.takes_value {
        let (value, next) = match inline {
            Some(v) => (Some(v), i + 1),
            None => if i + 1 < tokens.len() && !flag_like(tokens[i + 1]) {
                (Some(tokens[i + 1]), i + 2)
            } else {
                (None, i + 1)
            },
        };
        match value {
            None => Err(ArgErrorView::MissingValue(long_name(o))),
            Some(v) => if !o.multiple && p.values[k].len() > 0 {
                Err(ArgErrorView::Repeated(long_name(o)))
            } else {
                Ok((Parsed { values: p.values.update(k, p.values[k].push(v)), ..p }, next))
            },
        }
    } else if inline is Some {
        Err(ArgErrorView::UnexpectedValue(long_name(o)))
    } else if !o.multiple && p.values[k].len() > 0 {
        Err(ArgErrorView::Repeated(long_name(o)))
    } else {
        Ok((Parsed { values: p.values.update(k, p.values[k].push(Seq::empty())), ..p }, i + 1))
    }
}

/// What one token at position `i` does: `Ok(None)` asks for help and stops,
/// `Ok(Some((p, j)))` goes on at `j` with `p`.
pub open spec fn step(tokens: Seq<Seq<char>>, specs: Seq<OptView>, i: int, p: Parsed) -> Result<Option<(Parsed, int)>, ArgErrorView> {
    let t = tokens[i];
    if p.rest {
        Ok(Some((Parsed { positionals: p.positionals.push(t), ..p }, i + 1)))
    } else if t == "--"@ {
        Ok(Some((Parsed { rest: true, ..p }, i + 1)))
    } else if t == "--help"@ || t == "-h"@ {
        Ok(None)
    } else if starts_with(t, "--"@) {
        let body = t.skip(2);
        let (name, inline) = match find(body, "="@) {
            Some(q) => (body.take(q), Some(body.skip(q + 1))),
            None => (body, None),
        };
        match long_index(specs, name) {
            None => Err(ArgErrorView::Unknown(t)),
            Some(k) => match take_option(tokens, specs, i, k, inline, p) {
                Err(e) => Err(e),
                Ok(x) => Ok(Some(x)),
            },
        }
    } else if flag_like(t) {
        match short_index(specs, t[1]) {
            None => Err(ArgErrorView::Unknown(t)),
            Some(k) => {
                let tail = t.skip(2);
                let inline = if tail.len() == 0 {
                    None
                } else if tail[0] == '=' {
                    Some(tail.skip(1))
                } else {
                    Some(tail)
                };
                match take_option(tokens, specs, i, k, inline, p) {
                    Err(e) => Err(e),
                    Ok(x) => Ok(Some(x)),
                }
            },
        }
    } else {
        Ok(Some((Parsed { positionals: p.positionals.push(t), ..p }, i + 1)))
    }
}

/// Reads the tokens from position `i` on: `Ok(None)` when help was asked for.
pub open spec fn parse_from(tokens: Seq<Seq<char>>, specs: Seq<OptView>, i: int, p: Parsed) -> Result<Option<Parsed>, ArgErrorView>
    decreases tokens.len() - i,
{
    if i < 0 || i >= tokens.len() {
        Ok(Some(p))
    } else {
        match step(tokens, specs, i, p) {
            Err(e) => Err(e),
            Ok(None) => Ok(None),
            Ok(Some((q, j))) => if j <= i { Ok(Some(q)) } else { parse_from(tokens, specs, j, q) },
        }
    }
}

/// Nothing read yet, for `n` options.
pub open spec fn fresh(n: nat) -> Parsed {
    Parsed { values: Seq::new(n, |i: int| Seq::<Seq<char>>::empty()), positionals: Seq::empty(), rest: false }
}

/// Reads a command's tokens against its option table.
pub open spec fn parse_tokens(tokens: Seq<Seq<char>>, specs: Seq<OptView>) -> Result<Option<Parsed>, ArgErrorView> {
    parse_from(tokens, specs, 0, fresh(specs.len()))
}

/// The values read for each option, in table order.
pub struct ParsedArgs {
    pub values: Vec<Vec<String>>,
    pub positionals: Vec<String>,
    pub rest: bool,
}

pub open spec fn parsed_view(a: ParsedArgs) -> Parsed {
    Parsed {
        values: a.values@.map_values(|v: Vec<String>| views(v@)),
        positionals: views(a.positionals@),
        rest: a.rest,
    }
}

fn find_long(specs: &Vec<OptSpec>, name: &[char]) -> (r: Option<usize>)
    ensures
        r matches Some(k) ==> long_index(opt_views(specs@), name@) == Some(k as int),
        r is None ==> long_index(opt_views(specs@), name@) is None,
{
    let mut i: usize = specs.len();
    assert(opt_views(specs@).take(specs@.len() as int) =~= opt_views(specs@));
    while i > 0
        invariant
            i <= specs@.len(),
            long_index(opt_views(specs@), name@) == long_index(opt_views(specs@).take(i as int), name@),
        decreases i,
    {
        let ghost pre = opt_views(specs@).take(i as int);
        assert(pre.drop_last() =~= opt_views(specs@).take(i - 1));
        let l = chars_of(specs[i - 1].long);
        if chars_eq(l.as_slice(), name) {
            return Some(i - 1);
        }
        i = i - 1;
    }
    None
}

fn find_short(specs: &Vec<OptSpec>, c: char) -> (r: Option<usize>)
    ensures
        r matches Some(k) ==> short_index(opt_views(specs@), c) == Some(k as int),
        r is None ==> short_index(opt_views(specs@), c) is None,
{
    let mut i: usize = specs.len();
    assert(opt_views(specs@).take(specs@.len() as int) =~= opt_views(specs@));
    while i > 0
        invariant
            i <= specs@.len(),
            short_index(opt_views(specs@), c) == short_index(opt_views(specs@).take(i as int), c),
        decreases i,
    {
        let ghost pre = opt_views(specs@).take(i as int);
        assert(pre.drop_last() =~= opt_views(specs@).take(i - 1));
        match specs[i - 1].short {
            Some(s) => {
                if s == c {
                    return Some(i - 1);
                }
            },
            None => {},
        }
        i = i - 1;
    }
    None
}

fn option_name(o: &OptSpec) -> (r: String)
    ensures
        r@ == long_name(opt_view(*o)),
{
    let mut out: Vec<char> = Vec::new();
    out.push('-');
    out.push('-');
    let l = chars_of(o.long);
    crate::text::push_all(&mut out, l.as_slice());
    proof {
        reveal_strlit("--");
    }
    assert(out@ =~= long_name(opt_view(*o)));
    string_from(out.as_slice())
}

proof fn lemma_long_index_bound(specs: Seq<OptView>, name: Seq<char>)
    ensures
        long_index(specs, name) matches Some(k) ==> 0 <= k < specs.len() && specs[k].long == name,
    decreases specs.len(),
{
    if specs.len() > 0 && specs.last().long != name {
        lemma_long_index_bound(specs.drop_last(), name);
    }
}

proof fn lemma_short_index_bound(specs: Seq<OptView>, c: char)
    ensures
        short_index(specs, c) matches Some(k) ==> 0 <= k < specs.len(),
    decreases specs.len(),
{
    if specs.len() > 0 && specs.last().short != Some(c) {
        lemma_short_index_bound(specs.drop_last(), c);
    }
}

/// Records one use of option `k` (see `take_option`).
fn take_option_exec(tokens: &Vec<String>, specs: &Vec<OptSpec>, i: usize, k: usize, inline: Option<String>, p: &mut ParsedArgs) -> (r: Result<usize, ArgError>)
    requires
        i < tokens@.len(),
        k < specs@.len(),
        parsed_view(*old(p)).values.len() == specs@.len(),
    ensures
        match take_option(views(tokens@), opt_views(specs@), i as int, k as int,
            match inline { Some(v) => Some(v@), None => None }, parsed_view(*old(p))) {
            Err(e) => r matches Err(x) && x@ == e,
            Ok((q, j)) => r matches Ok(n) && n as int == j && parsed_view(*final(p)) == q,
        },
{
    let o = specs[k];
    let n = tokens.len();
    let ghost tv = views(tokens@);
    let ghost ov = opt_views(specs@);
    assert(ov[k as int] == opt_view(o));
    let ghost pv = parsed_view(*p);
    if o.takes_value {
        let (value, next): (Option<String>, usize) = match inline {
            Some(v) => (Some(v), i + 1),
            None => {
                if i + 1 < tokens.len() {
                    let nt = chars_of(tokens[i + 1].as_str());
                    assert(tv[i + 1] == nt@);
                    if !(nt.len() >= 2 && nt[0] == '-') {
                        (Some(tokens[i + 1].clone()), i + 2)
                    } else {
                        (None, i + 1)
                    }
                } else {
                    (None, i + 1)
                }
            },
        };
        match value {
            None => Err(ArgError::MissingValue(option_name(&o))),
            Some(v) => {
                if !o.multiple && p.values[k].len() > 0 {
                    assert(pv.values[k as int].len() == p.values@[k as int]@.len());
                    return Err(ArgError::Repeated(option_name(&o)));
                }
                assert(pv.values[k as int].len() == p.values@[k as int]@.len());
                let mut slot = p.values[k].clone();
                assert(views(slot@) == pv.values[k as int]);
                slot.push(v);
                p.values.set(k, slot);
                proof {
                    assert(views(p.values@[k as int]@) =~= pv.values[k as int].push(v@));
                    assert(parsed_view(*p).values =~= pv.values.update(k as int, pv.values[k as int].push(v@)));
                    assert(parsed_view(*p) =~= Parsed { values: pv.values.update(k as int, pv.values[k as int].push(v@)), ..pv });
                }
                Ok(next)
            },
        }
    } else if inline.is_some() {
        Err(ArgError::UnexpectedValue(option_name(&o)))
    } else if !o.multiple && p.values[k].len() > 0 {
        assert(pv.values[k as int].len() == p.values@[k as int]@.len());
        Err(ArgError::Repeated(option_name(&o)))
    } else {
        assert(pv.values[k as int].len() == p.values@[k as int]@.len());
        let mut slot = p.values[k].clone();
        assert(views(slot@) == pv.values[k as int]);
        slot.push(String::new());
        p.values.set(k, slot);
        proof {
            assert(views(p.values@[k as int]@) =~= pv.values[k as int].push(Seq::<char>::empty()));
            assert(parsed_view(*p) =~= Parsed { values: pv.values.update(k as int, pv.values[k as int].push(Seq::<char>::empty())), ..pv });
        }
        Ok(i + 1)
    }
}

/// Reads a command's tokens against its option table; `Ok(None)` when
/// `--help` or `-h` asks for help.
pub fn parse_options(tokens: &Vec<String>, specs: &Vec<OptSpec>) -> (r: Result<Option<ParsedArgs>, ArgError>)
    ensures
        match parse_tokens(views(tokens@), opt_views(specs@)) {
            Err(e) => r matches Err(x) && x@ == e,
            Ok(None) => r matches Ok(None),
            Ok(Some(q)) => r matches Ok(Some(a)) && parsed_view(a) == q,
        },
{
    let ghost tv = views(tokens@);
    let ghost ov = opt_views(specs@);
    let mut values: Vec<Vec<String>> = Vec::new();
    let mut k: usize = 0;
    while k < specs.len()
        invariant
            k <= specs@.len(),
            values@.len() == k,
            forall|j: int| 0 <= j < k ==> (#[trigger] values@[j])@.len() == 0,
        decreases specs.len() - k,
    {
        values.push(Vec::new());
        k = k + 1;
    }
    let mut p = ParsedArgs { values, positionals: Vec::new(), rest: false };
    assert(parsed_view(p) =~= fresh(ov.len())) by {
        assert forall|j: int| 0 <= j < p.values@.len() implies views(#[trigger] p.values@[j]@) =~= Seq::<Seq<char>>::empty() by {
            assert(p.values@[j]@.len() == 0);
        }
        assert(parsed_view(p).values =~= fresh(ov.len()).values);
        assert(views(p.positionals@) =~= Seq::<Seq<char>>::empty());
    }
    let mut i: usize = 0;
    while i < tokens.len()
        invariant
            i <= tokens@.len(),
            tv == views(tokens@),
            ov == opt_views(specs@),
            parsed_view(p).values.len() == specs@.len(),
            parse_tokens(tv, ov) == parse_from(tv, ov, i as int, parsed_view(p)),
        decreases tokens.len() - i,
    {
        let ghost pv = parsed_view(p);
        let t = chars_of(tokens[i].as_str());
        assert(tv[i as int] == t@);
        if p.rest {
            p.positionals.push(tokens[i].clone());
            assert(parsed_view(p) =~= Parsed { positionals: pv.positionals.push(t@), ..pv });
            i = i + 1;
            continue;
        }
        let dd = chars_of("--");
        let help = chars_of("--help");
        let h = chars_of("-h");
        proof {
            reveal_strlit("--");
        }
        if chars_eq(t.as_slice(), dd.as_slice()) {
            p.rest = true;
            assert(parsed_view(p) =~= Parsed { rest: true, ..pv });
            i = i + 1;
            continue;
        }
        if chars_eq(t.as_slice(), help.as_slice()) || chars_eq(t.as_slice(), h.as_slice()) {
            return Ok(None);
        }
        if starts_with_chars(t.as_slice(), dd.as_slice()) {
            let body = slice_chars(t.as_slice(), 2, t.len());
            assert(body@ =~= t@.skip(2));
            let eq: Vec<char> = vec!['='];
            assert(eq@ =~= "="@) by {
                reveal_strlit("=");
            }
            let (name, inline): (Vec<char>, Option<String>) = match find_chars(body.as_slice(), eq.as_slice()) {
                Some(q) => {
                    let n = slice_chars(body.as_slice(), 0, q);
                    let v = slice_chars(body.as_slice(), q + 1, body.len());
                    assert(n@ =~= body@.take(q as int));
                    assert(v@ =~= body@.skip(q + 1));
                    (n, Some(string_from(v.as_slice())))
                },
                None => (body, None),
            };
            match find_long(specs, name.as_slice()) {
                None => {
                    return Err(ArgError::Unknown(tokens[i].clone()));
                },
                Some(k) => {
                    proof {
                        lemma_long_index_bound(ov, name@);
                        let sb = t@.skip(2);
                        let (sn, si) = match find(sb, "="@) {
                            Some(q) => (sb.take(q), Some(sb.skip(q + 1))),
                            None => (sb, None),
                        };
                        assert(sn == name@);
                        assert(si == match inline { Some(v) => Some(v@), None => None::<Seq<char>> });
                        assert(!pv.rest);
                        assert(tv[i as int] != "--"@);
                        assert(!(tv[i as int] == "--help"@ || tv[i as int] == "-h"@));
                        assert(starts_with(tv[i as int], "--"@));
                        assert(long_index(ov, sn) == Some(k as int));
                        assert(step(tv, ov, i as int, pv) == match take_option(tv, ov, i as int, k as int, si, pv) {
                            Err(e) => Err::<Option<(Parsed, int)>, ArgErrorView>(e),
                            Ok(x) => Ok(Some(x)),
                        });
                    }
                    let ghost iv = match inline { Some(ref v) => Some(v@), None => None::<Seq<char>> };
                    let ghost tk = take_option(tv, ov, i as int, k as int, iv, pv);
                    let next = match take_option_exec(tokens, specs, i, k, inline, &mut p) {
                        Ok(j) => j,
                        Err(e) => {
                            assert(tk is Err);
                            assert(tk == Err::<(Parsed, int), ArgErrorView>(e@));
                            assert(step(tv, ov, i as int, pv) == Err::<Option<(Parsed, int)>, ArgErrorView>(e@));
                            return Err(e);
                        },
                    };
                    proof {
                        assert(step(tv, ov, i as int, pv) == Ok::<Option<(Parsed, int)>, ArgErrorView>(Some((parsed_view(p), next as int))));
                        assert(parse_from(tv, ov, i as int, pv) == parse_from(tv, ov, next as int, parsed_view(p)));
                    }
                    i = next;
                    continue;
                }
            }
        }
        if t.len() >= 2 && t[0] == '-' {
            match find_short(specs, t[1]) {
                None => {
                    return Err(ArgError::Unknown(tokens[i].clone()));
                },
                Some(k) => {
                    proof {
                        lemma_short_index_bound(ov, t@[1]);
                    }
                    let tail = slice_chars(t.as_slice(), 2, t.len());
                    assert(tail@ =~= t@.skip(2));
                    let inline: Option<String> = if tail.len() == 0 {
                        None
                    } else if tail[0] == '=' {
                        let v = slice_chars(tail.as_slice(), 1, tail.len());
                        assert(v@ =~= tail@.skip(1));
                        Some(string_from(v.as_slice()))
                    } else {
                        Some(string_from(tail.as_slice()))
                    };
                    let ghost iv = match inline { Some(ref v) => Some(v@), None => None::<Seq<char>> };
                    let ghost tk = take_option(tv, ov, i as int, k as int, iv, pv);
                    assert(step(tv, ov, i as int, pv) == match tk {
                        Err(e) => Err::<Option<(Parsed, int)>, ArgErrorView>(e),
                        Ok(x) => Ok(Some(x)),
                    });
                    let next = match take_option_exec(tokens, specs, i, k, inline, &mut p) {
                        Ok(j) => j,
                        Err(e) => {
                            assert(tk is Err);
                            return Err(e);
                        },
                    };
                    proof {
                        assert(parse_from(tv, ov, i as int, pv) == parse_from(tv, ov, next as int, parsed_view(p)));
                    }
                    i = next;
                    continue;
                }
            }
        }
        p.positionals.push(tokens[i].clone());
        assert(parsed_view(p) =~= Parsed { positionals: pv.positionals.push(t@), ..pv });
        i = i + 1;
    }
    Ok(Some(p))
}


proof fn lemma_parse_from_len(tokens: Seq<Seq<char>>, specs: Seq<OptView>, i: int, p: Parsed)
    requires
        p.values.len() == specs.len(),
    ensures
        parse_from(tokens, specs, i, p) matches Ok(Some(q)) ==> q.values.len() == specs.len(),
    decreases tokens.len() - i,
{
    if 0 <= i < tokens.len() {
        let t = tokens[i];
        lemma_long_index_bound(specs, t.skip(2));
        let body = t.skip(2);
        match find(body, "="@) {
            Some(q) => lemma_long_index_bound(specs, body.take(q)),
            None => {},
        }
        if t.len() >= 2 {
            lemma_short_index_bound(specs, t[1]);
        }
        match step(tokens, specs, i, p) {
            Ok(Some((q, j))) => {
                if j > i {
                    lemma_parse_from_len(tokens, specs, j, q);
                }
            },
            _ => {},
        }
    }
}

/// A successful reading holds one list of values per option.
pub proof fn lemma_parse_len(tokens: Seq<Seq<char>>, specs: Seq<OptView>)
    ensures
        parse_tokens(tokens, specs) matches Ok(Some(q)) ==> q.values.len() == specs.len(),
{
    lemma_parse_from_len(tokens, specs, 0, fresh(specs.len()));
}

} // verus!
