//! Building the search tool's argument list from the user's options.
//!
//! The list is always `--json`, the query and the root path, followed by the
//! option flags, with one `-g` flag per non-empty trimmed token of the glob
//! text split on `,` or `;`.

use vstd::prelude::*;
use vstd::string::StrSliceExecFns;

use crate::text::{is_ws_char, lemma_trim_start_no_leading_ws, spec_trim, spec_trim_end,
    spec_trim_start, trim_str};

verus! {

/// Options configuring one invocation of the search tool.
#[derive(Debug, Clone)]
pub struct RgOptions {
    pub case_insensitive: bool,
    pub search_hidden: bool,
    pub follow_symlinks: bool,
    pub globs: Option<String>,
}

pub struct RgOptionsV {
    pub case_insensitive: bool,
    pub search_hidden: bool,
    pub follow_symlinks: bool,
    pub globs: Option<Seq<char>>,
}

impl View for RgOptions {
    type V = RgOptionsV;

    open spec fn view(&self) -> RgOptionsV {
        RgOptionsV {
            case_insensitive: self.case_insensitive,
            search_hidden: self.search_hidden,
            follow_symlinks: self.follow_symlinks,
            globs: match self.globs {
                Some(ref g) => Some(g@),
                None => None,
            },
        }
    }
}

pub open spec fn is_glob_sep(c: char) -> bool {
    c == ',' || c == ';'
}

/// The trimmed form of `s.subrange(a, b)` as a token list: one token if it
/// is non-empty, none if it trims to nothing.
pub open spec fn spec_token(s: Seq<char>, a: int, b: int) -> Seq<Seq<char>> {
    let t = spec_trim(s.subrange(a, b));
    if t.len() == 0 {
        Seq::empty()
    } else {
        seq![t]
    }
}

/// The glob tokens of `s` from position `i`, the current token having begun
/// at `start`, with `acc` already gathered.
pub open spec fn spec_glob_tokens(s: Seq<char>, i: int, start: int, acc: Seq<Seq<char>>) -> Seq<
    Seq<char>,
>
    decreases s.len() - i,
{
    if start < 0 || i < start || i > s.len() {
        acc
    } else if i >= s.len() {
        acc + spec_token(s, start, s.len() as int)
    } else if is_glob_sep(s[i]) {
        spec_glob_tokens(s, i + 1, i + 1, acc + spec_token(s, start, i))
    } else {
        spec_glob_tokens(s, i + 1, start, acc)
    }
}

/// The non-empty trimmed tokens of the glob text, split on `,`/`;`, in
/// order.
pub open spec fn spec_split_globs(s: Seq<char>) -> Seq<Seq<char>> {
    spec_glob_tokens(s, 0, 0, Seq::empty())
}

/// Split the user's glob text into the tokens that become `-g` values.
pub fn split_globs(s: &str) -> (r: Vec<String>)
    ensures
        r@.map_values(|t: String| t@) == spec_split_globs(s@),
{
    let n = s.unicode_len();
    let mut out: Vec<String> = Vec::new();
    let mut start: usize = 0;
    let mut i: usize = 0;
    proof {
        assert(out@.map_values(|t: String| t@) =~= Seq::<Seq<char>>::empty());
    }
    while i < n
        invariant
            start <= i <= n,
            n == s@.len(),
            spec_split_globs(s@) == spec_glob_tokens(
                s@,
                i as int,
                start as int,
                out@.map_values(|t: String| t@),
            ),
        decreases n - i,
    {
        let c = s.get_char(i);
        if c == ',' || c == ';' {
            let tok = trim_str(s.substring_char(start, i));
            let ghost pre = out@.map_values(|t: String| t@);
            if tok.as_str().unicode_len() > 0 {
                out.push(tok);
                proof {
                    assert(out@.map_values(|t: String| t@) =~= pre + spec_token(
                        s@,
                        start as int,
                        i as int,
                    ));
                }
            } else {
                proof {
                    assert(out@.map_values(|t: String| t@) =~= pre + spec_token(
                        s@,
                        start as int,
                        i as int,
                    ));
                }
            }
            start = i + 1;
        }
        i = i + 1;
    }
    let tok = trim_str(s.substring_char(start, n));
    let ghost pre = out@.map_values(|t: String| t@);
    if tok.as_str().unicode_len() > 0 {
        out.push(tok);
        proof {
            assert(out@.map_values(|t: String| t@) =~= pre + spec_token(s@, start as int, n as int));
        }
    } else {
        proof {
            assert(out@.map_values(|t: String| t@) =~= pre + spec_token(s@, start as int, n as int));
        }
    }
    out
}

/// The `-g` flag pairs for the tokens from position `k` on.
pub open spec fn spec_glob_flags_from(tokens: Seq<Seq<char>>, k: int) -> Seq<Seq<char>>
    decreases tokens.len() - k,
{
    if k < 0 || k >= tokens.len() {
        Seq::empty()
    } else {
        seq!["-g"@, tokens[k]] + spec_glob_flags_from(tokens, k + 1)
    }
}

/// The full argument list of one invocation: the structured-output flag, the
/// query, the root path, then the option flags in fixed order, then one `-g`
/// flag per glob token.
pub open spec fn spec_build_args(query: Seq<char>, path: Seq<char>, o: RgOptionsV) -> Seq<
    Seq<char>,
> {
    let base = seq!["--json"@, query, path];
    let base = if o.case_insensitive {
        base.push("-i"@)
    } else {
        base
    };
    let base = if o.search_hidden {
        base.push("--hidden"@)
    } else {
        base
    };
    let base = if o.follow_symlinks {
        base.push("-L"@)
    } else {
        base
    };
    match o.globs {
        Some(g) => base + spec_glob_flags_from(spec_split_globs(g), 0),
        None => base,
    }
}

/// Build the argument list for one search invocation.
pub fn build_args(query: &str, path: &str, options: &RgOptions) -> (r: Vec<String>)
    ensures
        r@.map_values(|t: String| t@) == spec_build_args(query@, path@, options@),
{
    let mut args: Vec<String> = Vec::new();
    args.push("--json".to_owned());
    args.push(query.to_owned());
    args.push(path.to_owned());
    if options.case_insensitive {
        args.push("-i".to_owned());
    }
    if options.search_hidden {
        args.push("--hidden".to_owned());
    }
    if options.follow_symlinks {
        args.push("-L".to_owned());
    }
    let ghost base = args@.map_values(|t: String| t@);
    match &options.globs {
        None => {
            proof {
                assert(args@.map_values(|t: String| t@) =~= spec_build_args(
                    query@,
                    path@,
                    options@,
                ));
            }
            args
        },
        Some(g) => {
            let toks = split_globs(g.as_str());
            let ghost toks_v = toks@.map_values(|t: String| t@);
            let mut gi: usize = 0;
            while gi < toks.len()
                invariant
                    gi <= toks.len(),
                    toks_v == toks@.map_values(|t: String| t@),
                    toks_v == spec_split_globs(options@.globs.unwrap()),
                    options@.globs is Some,
                    spec_build_args(query@, path@, options@) == args@.map_values(|t: String| t@)
                        + spec_glob_flags_from(toks_v, gi as int),
                decreases toks.len() - gi,
            {
                let ghost pre = args@.map_values(|t: String| t@);
                args.push("-g".to_owned());
                args.push(toks[gi].clone());
                proof {
                    assert(toks[gi as int]@ == toks_v[gi as int]);
                    assert(args@.map_values(|t: String| t@) =~= pre + seq![
                        "-g"@,
                        toks_v[gi as int],
                    ]);
                    assert(pre + seq!["-g"@, toks_v[gi as int]] + spec_glob_flags_from(
                        toks_v,
                        gi + 1,
                    ) =~= pre + spec_glob_flags_from(toks_v, gi as int));
                }
                gi = gi + 1;
            }
            proof {
                assert(spec_glob_flags_from(toks_v, gi as int) =~= Seq::<Seq<char>>::empty());
                assert(args@.map_values(|t: String| t@) =~= args@.map_values(|t: String| t@)
                    + Seq::<Seq<char>>::empty());
            }
            args
        },
    }
}

/// Every token of the glob text is non-empty and carries no leading or
/// trailing whitespace: a whitespace-only entry never becomes a `-g` value.
pub proof fn lemma_glob_tokens_trimmed(s: Seq<char>)
    ensures
        forall|k: int|
            0 <= k < spec_split_globs(s).len() ==> {
                let t = #[trigger] spec_split_globs(s)[k];
                t.len() > 0 && !is_ws_char(t[0]) && !is_ws_char(t.last())
            },
{
    lemma_glob_tokens_aux(s, 0, 0, Seq::empty());
}

proof fn lemma_trim_token_shape(u: Seq<char>)
    ensures
        spec_trim(u).len() > 0 ==> !is_ws_char(spec_trim(u)[0]) && !is_ws_char(spec_trim(u).last()),
{
    lemma_trim_start_no_leading_ws(spec_trim_end(u));
    lemma_trim_start_keeps_last(spec_trim_end(u));
    crate::text::lemma_trim_end_no_trailing_ws(u);
}

proof fn lemma_trim_start_keeps_last(t: Seq<char>)
    ensures
        spec_trim_start(t).len() > 0 ==> t.len() > 0 && spec_trim_start(t).last() == t.last(),
    decreases t.len(),
{
    if t.len() > 0 && is_ws_char(t[0]) {
        lemma_trim_start_keeps_last(t.drop_first());
        if spec_trim_start(t).len() > 0 {
            assert(t.drop_first().last() == t.last());
        }
    }
}

proof fn lemma_glob_tokens_aux(s: Seq<char>, i: int, start: int, acc: Seq<Seq<char>>)
    requires
        forall|k: int|
            0 <= k < acc.len() ==> {
                let t = #[trigger] acc[k];
                t.len() > 0 && !is_ws_char(t[0]) && !is_ws_char(t.last())
            },
    ensures
        forall|k: int|
            0 <= k < spec_glob_tokens(s, i, start, acc).len() ==> {
                let t = #[trigger] spec_glob_tokens(s, i, start, acc)[k];
                t.len() > 0 && !is_ws_char(t[0]) && !is_ws_char(t.last())
            },
    decreases s.len() - i,
{
    let res = spec_glob_tokens(s, i, start, acc);
    if start < 0 || i < start || i > s.len() {
    } else if i >= s.len() {
        lemma_token_append_shape(s, start, s.len() as int, acc);
        let cat = acc + spec_token(s, start, s.len() as int);
        assert(res == cat);
        assert forall|k: int| 0 <= k < res.len() implies {
            let t = #[trigger] res[k];
            t.len() > 0 && !is_ws_char(t[0]) && !is_ws_char(t.last())
        } by {
            assert(res[k] == cat[k]);
        }
    } else if is_glob_sep(s[i]) {
        lemma_token_append_shape(s, start, i, acc);
        lemma_glob_tokens_aux(s, i + 1, i + 1, acc + spec_token(s, start, i));
        assert(res == spec_glob_tokens(s, i + 1, i + 1, acc + spec_token(s, start, i)));
        assert forall|k: int| 0 <= k < res.len() implies {
            let t = #[trigger] res[k];
            t.len() > 0 && !is_ws_char(t[0]) && !is_ws_char(t.last())
        } by {
            assert(res[k] == spec_glob_tokens(s, i + 1, i + 1, acc + spec_token(s, start, i))[k]);
        }
    } else {
        lemma_glob_tokens_aux(s, i + 1, start, acc);
        assert(res == spec_glob_tokens(s, i + 1, start, acc));
        assert forall|k: int| 0 <= k < res.len() implies {
            let t = #[trigger] res[k];
            t.len() > 0 && !is_ws_char(t[0]) && !is_ws_char(t.last())
        } by {
            assert(res[k] == spec_glob_tokens(s, i + 1, start, acc)[k]);
        }
    }
}

proof fn lemma_token_append_shape(s: Seq<char>, a: int, b: int, acc: Seq<Seq<char>>)
    requires
        forall|k: int|
            0 <= k < acc.len() ==> {
                let t = #[trigger] acc[k];
                t.len() > 0 && !is_ws_char(t[0]) && !is_ws_char(t.last())
            },
    ensures
        forall|k: int|
            0 <= k < (acc + spec_token(s, a, b)).len() ==> {
                let t = #[trigger] (acc + spec_token(s, a, b))[k];
                t.len() > 0 && !is_ws_char(t[0]) && !is_ws_char(t.last())
            },
{
    lemma_trim_token_shape(s.subrange(a, b));
    let res = acc + spec_token(s, a, b);
    assert forall|k: int| 0 <= k < res.len() implies {
        let t = #[trigger] res[k];
        t.len() > 0 && !is_ws_char(t[0]) && !is_ws_char(t.last())
    } by {
        if k < acc.len() {
            assert(res[k] == acc[k]);
        } else {
            assert(res[k] == spec_token(s, a, b)[k - acc.len()]);
            assert(res[k] == spec_trim(s.subrange(a, b)));
        }
    }
}

} // verus!
