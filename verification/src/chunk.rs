//! The two chunk shapes the model server streams back, and their decoders.
//!
//! A generation chunk carries a piece of the answer plus bookkeeping; a
//! pull chunk carries a status line of a model download.  Each decoder
//! accepts exactly one JSON object of the right shape per line — unknown
//! members are skipped, a member given twice, a missing required member or
//! any malformed text means the line decodes to nothing (and the caller
//! drops it).

use vstd::prelude::*;

use crate::parse::{
    lit_false_at, lit_null_at, lit_true_at, parse_lit_false, parse_lit_null, parse_lit_true,
    parse_skip_value, parse_string, parse_u64, parse_u64_array, skip_ws, sp_skip_value, sp_string,
    sp_u64, sp_u64_array, sp_ws,
};
use crate::text::{chars_eq_str, chars_to_string, str_chars};

verus! {

/// Mathematical content of one generation chunk.
pub ghost struct GenChunkView {
    pub model: Seq<char>,
    pub created_at: Seq<char>,
    pub response: Seq<char>,
    pub done: bool,
    pub context: Option<Seq<u64>>,
    pub total_duration: Option<u64>,
    pub load_duration: Option<u64>,
    pub prompt_eval_count: Option<u64>,
    pub prompt_eval_duration: Option<u64>,
    pub eval_count: Option<u64>,
    pub eval_duration: Option<u64>,
}

/// Mathematical content of one pull chunk.
pub ghost struct PullChunkView {
    pub status: Seq<char>,
    pub digest: Option<Seq<char>>,
    pub total: Option<u64>,
    pub completed: Option<u64>,
}

/// One decoded generation chunk: a piece of the model's answer, whether it
/// is the last one, and — on the last one — the opaque context tokens to
/// hand back on the next turn.  The duration and count members are
/// informational only and never validated.
#[derive(Debug, Clone, PartialEq)]
pub struct BotResponse {
    pub model: String,
    pub created_at: String,
    pub response: String,
    pub done: bool,
    pub context: Option<Vec<u64>>,
    pub total_duration: Option<u64>,
    pub load_duration: Option<u64>,
    pub prompt_eval_count: Option<u64>,
    pub prompt_eval_duration: Option<u64>,
    pub eval_count: Option<u64>,
    pub eval_duration: Option<u64>,
}

impl View for BotResponse {
    type V = GenChunkView;

    open spec fn view(&self) -> GenChunkView {
        GenChunkView {
            model: self.model@,
            created_at: self.created_at@,
            response: self.response@,
            done: self.done,
            context: match self.context {
                Some(c) => Some(c@),
                None => None,
            },
            total_duration: self.total_duration,
            load_duration: self.load_duration,
            prompt_eval_count: self.prompt_eval_count,
            prompt_eval_duration: self.prompt_eval_duration,
            eval_count: self.eval_count,
            eval_duration: self.eval_duration,
        }
    }
}

/// One decoded response of the non-streaming generate call; same shape as
/// a generation chunk.
#[derive(Debug, Clone, PartialEq)]
pub struct GenerateResponse {
    pub model: String,
    pub created_at: String,
    pub response: String,
    pub done: bool,
    pub context: Option<Vec<u64>>,
    pub total_duration: Option<u64>,
    pub load_duration: Option<u64>,
    pub prompt_eval_count: Option<u64>,
    pub prompt_eval_duration: Option<u64>,
    pub eval_count: Option<u64>,
    pub eval_duration: Option<u64>,
}

impl View for GenerateResponse {
    type V = GenChunkView;

    open spec fn view(&self) -> GenChunkView {
        GenChunkView {
            model: self.model@,
            created_at: self.created_at@,
            response: self.response@,
            done: self.done,
            context: match self.context {
                Some(c) => Some(c@),
                None => None,
            },
            total_duration: self.total_duration,
            load_duration: self.load_duration,
            prompt_eval_count: self.prompt_eval_count,
            prompt_eval_duration: self.prompt_eval_duration,
            eval_count: self.eval_count,
            eval_duration: self.eval_duration,
        }
    }
}

/// One decoded pull chunk: a status line, and optionally the digest and
/// byte counts of the layer being downloaded.
#[derive(Debug, Clone, PartialEq)]
pub struct PullModelResponse {
    pub status: String,
    pub digest: Option<String>,
    pub total: Option<u64>,
    pub completed: Option<u64>,
}

impl View for PullModelResponse {
    type V = PullChunkView;

    open spec fn view(&self) -> PullChunkView {
        PullChunkView {
            status: self.status@,
            digest: match self.digest {
                Some(d) => Some(d@),
                None => None,
            },
            total: self.total,
            completed: self.completed,
        }
    }
}

/// Members of a generation chunk seen so far while decoding; the outer
/// `Option` marks whether the member occurred at all (so that a repeated
/// member can be refused), the inner one whether it held `null`.
pub ghost struct GenPartialView {
    pub model: Option<Seq<char>>,
    pub created_at: Option<Seq<char>>,
    pub response: Option<Seq<char>>,
    pub done: Option<bool>,
    pub context: Option<Option<Seq<u64>>>,
    pub total_duration: Option<Option<u64>>,
    pub load_duration: Option<Option<u64>>,
    pub prompt_eval_count: Option<Option<u64>>,
    pub prompt_eval_duration: Option<Option<u64>>,
    pub eval_count: Option<Option<u64>>,
    pub eval_duration: Option<Option<u64>>,
}

/// No members seen yet.
pub open spec fn gen_partial_empty() -> GenPartialView {
    GenPartialView {
        model: None,
        created_at: None,
        response: None,
        done: None,
        context: None,
        total_duration: None,
        load_duration: None,
        prompt_eval_count: None,
        prompt_eval_duration: None,
        eval_count: None,
        eval_duration: None,
    }
}

/// An optional number member: `null` or an unsigned decimal.
pub open spec fn sp_opt_u64(s: Seq<char>, i: int) -> Option<(Option<u64>, int)> {
    if lit_null_at(s, i) {
        Some((None, i + 4))
    } else {
        match sp_u64(s, i) {
            Some((n, j)) => Some((Some(n), j)),
            None => None,
        }
    }
}

/// The value of one generation-chunk member, dispatched on the member's
/// name, folded into the partial record.  A member seen before refuses.
pub open spec fn sp_gen_value(s: Seq<char>, i: int, key: Seq<char>, p: GenPartialView) -> Option<
    (GenPartialView, int),
> {
    if key == "model"@ {
        if p.model is Some {
            None
        } else {
            match sp_string(s, i) {
                Some((w, j)) => Some((GenPartialView { model: Some(w), ..p }, j)),
                None => None,
            }
        }
    } else if key == "created_at"@ {
        if p.created_at is Some {
            None
        } else {
            match sp_string(s, i) {
                Some((w, j)) => Some((GenPartialView { created_at: Some(w), ..p }, j)),
                None => None,
            }
        }
    } else if key == "response"@ {
        if p.response is Some {
            None
        } else {
            match sp_string(s, i) {
                Some((w, j)) => Some((GenPartialView { response: Some(w), ..p }, j)),
                None => None,
            }
        }
    } else if key == "done"@ {
        if p.done is Some {
            None
        } else if lit_true_at(s, i) {
            Some((GenPartialView { done: Some(true), ..p }, i + 4))
        } else if lit_false_at(s, i) {
            Some((GenPartialView { done: Some(false), ..p }, i + 5))
        } else {
            None
        }
    } else if key == "context"@ {
        if p.context is Some {
            None
        } else if lit_null_at(s, i) {
            Some((GenPartialView { context: Some(None), ..p }, i + 4))
        } else {
            match sp_u64_array(s, i) {
                Some((a, j)) => Some((GenPartialView { context: Some(Some(a)), ..p }, j)),
                None => None,
            }
        }
    } else if key == "total_duration"@ {
        if p.total_duration is Some {
            None
        } else {
            match sp_opt_u64(s, i) {
                Some((n, j)) => Some((GenPartialView { total_duration: Some(n), ..p }, j)),
                None => None,
            }
        }
    } else if key == "load_duration"@ {
        if p.load_duration is Some {
            None
        } else {
            match sp_opt_u64(s, i) {
                Some((n, j)) => Some((GenPartialView { load_duration: Some(n), ..p }, j)),
                None => None,
            }
        }
    } else if key == "prompt_eval_count"@ {
        if p.prompt_eval_count is Some {
            None
        } else {
            match sp_opt_u64(s, i) {
                Some((n, j)) => Some((GenPartialView { prompt_eval_count: Some(n), ..p }, j)),
                None => None,
            }
        }
    } else if key == "prompt_eval_duration"@ {
        if p.prompt_eval_duration is Some {
            None
        } else {
            match sp_opt_u64(s, i) {
                Some((n, j)) => Some((GenPartialView { prompt_eval_duration: Some(n), ..p }, j)),
                None => None,
            }
        }
    } else if key == "eval_count"@ {
        if p.eval_count is Some {
            None
        } else {
            match sp_opt_u64(s, i) {
                Some((n, j)) => Some((GenPartialView { eval_count: Some(n), ..p }, j)),
                None => None,
            }
        }
    } else if key == "eval_duration"@ {
        if p.eval_duration is Some {
            None
        } else {
            match sp_opt_u64(s, i) {
                Some((n, j)) => Some((GenPartialView { eval_duration: Some(n), ..p }, j)),
                None => None,
            }
        }
    } else {
        match sp_skip_value(s, i) {
            Some(j) => Some((p, j)),
            None => None,
        }
    }
}

/// The members of a generation-chunk object from `i` (just after `{` or a
/// `,`) to the closing `}`.
pub open spec fn sp_gen_members(s: Seq<char>, i: int, p: GenPartialView) -> Option<
    (GenPartialView, int),
>
    decreases s.len() - i,
{
    let i1 = sp_ws(s, i);
    match sp_string(s, i1) {
        None => None,
        Some((key, j)) => {
            let j1 = sp_ws(s, j);
            if 0 <= j1 < s.len() && s[j1] == ':' {
                let j2 = sp_ws(s, j1 + 1);
                match sp_gen_value(s, j2, key, p) {
                    None => None,
                    Some((p2, k)) => {
                        let k1 = sp_ws(s, k);
                        if 0 <= k1 < s.len() && s[k1] == '}' {
                            Some((p2, k1 + 1))
                            // the bound i < k1 + 1 always holds and keeps
                            // the recursion visibly descending
                        } else if 0 <= k1 < s.len() && s[k1] == ',' && i < k1 + 1 {
                            sp_gen_members(s, k1 + 1, p2)
                        } else {
                            None
                        }
                    },
                }
            } else {
                None
            }
        },
    }
}

/// The finished chunk, if all four required members were seen.
pub open spec fn sp_gen_finish(p: GenPartialView) -> Option<GenChunkView> {
    if p.model is Some && p.created_at is Some && p.response is Some && p.done is Some {
        Some(
            GenChunkView {
                model: p.model->0,
                created_at: p.created_at->0,
                response: p.response->0,
                done: p.done->0,
                context: match p.context {
                    Some(c) => c,
                    None => None,
                },
                total_duration: match p.total_duration {
                    Some(n) => n,
                    None => None,
                },
                load_duration: match p.load_duration {
                    Some(n) => n,
                    None => None,
                },
                prompt_eval_count: match p.prompt_eval_count {
                    Some(n) => n,
                    None => None,
                },
                prompt_eval_duration: match p.prompt_eval_duration {
                    Some(n) => n,
                    None => None,
                },
                eval_count: match p.eval_count {
                    Some(n) => n,
                    None => None,
                },
                eval_duration: match p.eval_duration {
                    Some(n) => n,
                    None => None,
                },
            },
        )
    } else {
        None
    }
}

/// What one line decodes to as a generation chunk: one JSON object of the
/// right shape, possibly surrounded by whitespace, and nothing else.
pub open spec fn sp_gen_chunk(s: Seq<char>) -> Option<GenChunkView> {
    let i = sp_ws(s, 0);
    if 0 <= i < s.len() && s[i] == '{' {
        match sp_gen_members(s, i + 1, gen_partial_empty()) {
            None => None,
            Some((p, j)) => {
                if sp_ws(s, j) == s.len() {
                    sp_gen_finish(p)
                } else {
                    None
                }
            },
        }
    } else {
        None
    }
}

/// Members of a pull chunk seen so far while decoding.
pub ghost struct PullPartialView {
    pub status: Option<Seq<char>>,
    pub digest: Option<Option<Seq<char>>>,
    pub total: Option<Option<u64>>,
    pub completed: Option<Option<u64>>,
}

/// No members seen yet.
pub open spec fn pull_partial_empty() -> PullPartialView {
    PullPartialView { status: None, digest: None, total: None, completed: None }
}

/// An optional string member: `null` or a string.
pub open spec fn sp_opt_string(s: Seq<char>, i: int) -> Option<(Option<Seq<char>>, int)> {
    if lit_null_at(s, i) {
        Some((None, i + 4))
    } else {
        match sp_string(s, i) {
            Some((w, j)) => Some((Some(w), j)),
            None => None,
        }
    }
}

/// The value of one pull-chunk member, dispatched on the member's name.
pub open spec fn sp_pull_value(s: Seq<char>, i: int, key: Seq<char>, p: PullPartialView) -> Option<
    (PullPartialView, int),
> {
    if key == "status"@ {
        if p.status is Some {
            None
        } else {
            match sp_string(s, i) {
                Some((w, j)) => Some((PullPartialView { status: Some(w), ..p }, j)),
                None => None,
            }
        }
    } else if key == "digest"@ {
        if p.digest is Some {
            None
        } else {
            match sp_opt_string(s, i) {
                Some((w, j)) => Some((PullPartialView { digest: Some(w), ..p }, j)),
                None => None,
            }
        }
    } else if key == "total"@ {
        if p.total is Some {
            None
        } else {
            match sp_opt_u64(s, i) {
                Some((n, j)) => Some((PullPartialView { total: Some(n), ..p }, j)),
                None => None,
            }
        }
    } else if key == "completed"@ {
        if p.completed is Some {
            None
        } else {
            match sp_opt_u64(s, i) {
                Some((n, j)) => Some((PullPartialView { completed: Some(n), ..p }, j)),
                None => None,
            }
        }
    } else {
        match sp_skip_value(s, i) {
            Some(j) => Some((p, j)),
            None => None,
        }
    }
}

/// The members of a pull-chunk object from `i` to the closing `}`.
pub open spec fn sp_pull_members(s: Seq<char>, i: int, p: PullPartialView) -> Option<
    (PullPartialView, int),
>
    decreases s.len() - i,
{
    let i1 = sp_ws(s, i);
    match sp_string(s, i1) {
        None => None,
        Some((key, j)) => {
            let j1 = sp_ws(s, j);
            if 0 <= j1 < s.len() && s[j1] == ':' {
                let j2 = sp_ws(s, j1 + 1);
                match sp_pull_value(s, j2, key, p) {
                    None => None,
                    Some((p2, k)) => {
                        let k1 = sp_ws(s, k);
                        if 0 <= k1 < s.len() && s[k1] == '}' {
                            Some((p2, k1 + 1))
                            // the bound i < k1 + 1 always holds and keeps
                            // the recursion visibly descending
                        } else if 0 <= k1 < s.len() && s[k1] == ',' && i < k1 + 1 {
                            sp_pull_members(s, k1 + 1, p2)
                        } else {
                            None
                        }
                    },
                }
            } else {
                None
            }
        },
    }
}

/// The finished pull chunk, if the required `status` member was seen.
pub open spec fn sp_pull_finish(p: PullPartialView) -> Option<PullChunkView> {
    if p.status is Some {
        Some(
            PullChunkView {
                status: p.status->0,
                digest: match p.digest {
                    Some(w) => w,
                    None => None,
                },
                total: match p.total {
                    Some(n) => n,
                    None => None,
                },
                completed: match p.completed {
                    Some(n) => n,
                    None => None,
                },
            },
        )
    } else {
        None
    }
}

/// What one line decodes to as a pull chunk.
pub open spec fn sp_pull_chunk(s: Seq<char>) -> Option<PullChunkView> {
    let i = sp_ws(s, 0);
    if 0 <= i < s.len() && s[i] == '{' {
        match sp_pull_members(s, i + 1, pull_partial_empty()) {
            None => None,
            Some((p, j)) => {
                if sp_ws(s, j) == s.len() {
                    sp_pull_finish(p)
                } else {
                    None
                }
            },
        }
    } else {
        None
    }
}

/// Working record of the generation-chunk decoder.
struct GenPartial {
    model: Option<Vec<char>>,
    created_at: Option<Vec<char>>,
    response: Option<Vec<char>>,
    done: Option<bool>,
    context: Option<Option<Vec<u64>>>,
    total_duration: Option<Option<u64>>,
    load_duration: Option<Option<u64>>,
    prompt_eval_count: Option<Option<u64>>,
    prompt_eval_duration: Option<Option<u64>>,
    eval_count: Option<Option<u64>>,
    eval_duration: Option<Option<u64>>,
}

impl View for GenPartial {
    type V = GenPartialView;

    closed spec fn view(&self) -> GenPartialView {
        GenPartialView {
            model: match self.model {
                Some(w) => Some(w@),
                None => None,
            },
            created_at: match self.created_at {
                Some(w) => Some(w@),
                None => None,
            },
            response: match self.response {
                Some(w) => Some(w@),
                None => None,
            },
            done: self.done,
            context: match self.context {
                Some(c) => Some(
                    match c {
                        Some(a) => Some(a@),
                        None => None,
                    },
                ),
                None => None,
            },
            total_duration: self.total_duration,
            load_duration: self.load_duration,
            prompt_eval_count: self.prompt_eval_count,
            prompt_eval_duration: self.prompt_eval_duration,
            eval_count: self.eval_count,
            eval_duration: self.eval_duration,
        }
    }
}

/// Parses an optional number member.
fn parse_opt_u64(v: &Vec<char>, i: usize) -> (r: Option<(Option<u64>, usize)>)
    requires
        i <= v@.len(),
    ensures
        match r {
            Some(p) => sp_opt_u64(v@, i as int) == Some((p.0, p.1 as int)) && i < p.1 <= v@.len(),
            None => sp_opt_u64(v@, i as int) is None,
        },
{
    if let Some(j) = parse_lit_null(v, i) {
        Some((None, j))
    } else {
        match parse_u64(v, i) {
            Some((n, j)) => Some((Some(n), j)),
            None => None,
        }
    }
}

/// Parses an optional string member.
fn parse_opt_string(v: &Vec<char>, i: usize) -> (r: Option<(Option<Vec<char>>, usize)>)
    requires
        i <= v@.len(),
    ensures
        match r {
            Some(p) => {
                &&& match p.0 {
                    Some(w) => sp_opt_string(v@, i as int) == Some(
                        (Some(w@), p.1 as int),
                    ),
                    None => sp_opt_string(v@, i as int) == Some(
                        (None::<Seq<char>>, p.1 as int),
                    ),
                }
                &&& i < p.1 <= v@.len()
            },
            None => sp_opt_string(v@, i as int) is None,
        },
{
    if let Some(j) = parse_lit_null(v, i) {
        Some((None, j))
    } else {
        match parse_string(v, i) {
            Some((w, j)) => Some((Some(w), j)),
            None => None,
        }
    }
}

/// Parses the value of one generation-chunk member.
#[verifier::rlimit(50)]
fn parse_gen_value(v: &Vec<char>, i: usize, key: &Vec<char>, p: GenPartial) -> (r: Option<
    (GenPartial, usize),
>)
    requires
        i <= v@.len(),
    ensures
        match r {
            Some(q) => {
                &&& sp_gen_value(v@, i as int, key@, p@) == Some((q.0@, q.1 as int))
                &&& i < q.1 <= v@.len()
            },
            None => sp_gen_value(v@, i as int, key@, p@) is None,
        },
{
    if chars_eq_str(key, "model") {
        if p.model.is_some() {
            return None;
        }
        match parse_string(v, i) {
            Some((w, j)) => Some((GenPartial { model: Some(w), ..p }, j)),
            None => None,
        }
    } else if chars_eq_str(key, "created_at") {
        if p.created_at.is_some() {
            return None;
        }
        match parse_string(v, i) {
            Some((w, j)) => Some((GenPartial { created_at: Some(w), ..p }, j)),
            None => None,
        }
    } else if chars_eq_str(key, "response") {
        if p.response.is_some() {
            return None;
        }
        match parse_string(v, i) {
            Some((w, j)) => Some((GenPartial { response: Some(w), ..p }, j)),
            None => None,
        }
    } else if chars_eq_str(key, "done") {
        if p.done.is_some() {
            return None;
        }
        if let Some(j) = parse_lit_true(v, i) {
            Some((GenPartial { done: Some(true), ..p }, j))
        } else if let Some(j) = parse_lit_false(v, i) {
            Some((GenPartial { done: Some(false), ..p }, j))
        } else {
            None
        }
    } else if chars_eq_str(key, "context") {
        if p.context.is_some() {
            return None;
        }
        if let Some(j) = parse_lit_null(v, i) {
            Some((GenPartial { context: Some(None), ..p }, j))
        } else {
            match parse_u64_array(v, i) {
                Some((a, j)) => Some((GenPartial { context: Some(Some(a)), ..p }, j)),
                None => None,
            }
        }
    } else if chars_eq_str(key, "total_duration") {
        if p.total_duration.is_some() {
            return None;
        }
        match parse_opt_u64(v, i) {
            Some((n, j)) => Some((GenPartial { total_duration: Some(n), ..p }, j)),
            None => None,
        }
    } else if chars_eq_str(key, "load_duration") {
        if p.load_duration.is_some() {
            return None;
        }
        match parse_opt_u64(v, i) {
            Some((n, j)) => Some((GenPartial { load_duration: Some(n), ..p }, j)),
            None => None,
        }
    } else if chars_eq_str(key, "prompt_eval_count") {
        if p.prompt_eval_count.is_some() {
            return None;
        }
        match parse_opt_u64(v, i) {
            Some((n, j)) => Some((GenPartial { prompt_eval_count: Some(n), ..p }, j)),
            None => None,
        }
    } else if chars_eq_str(key, "prompt_eval_duration") {
        if p.prompt_eval_duration.is_some() {
            return None;
        }
        match parse_opt_u64(v, i) {
            Some((n, j)) => Some((GenPartial { prompt_eval_duration: Some(n), ..p }, j)),
            None => None,
        }
    } else if chars_eq_str(key, "eval_count") {
        if p.eval_count.is_some() {
            return None;
        }
        match parse_opt_u64(v, i) {
            Some((n, j)) => Some((GenPartial { eval_count: Some(n), ..p }, j)),
            None => None,
        }
    } else if chars_eq_str(key, "eval_duration") {
        if p.eval_duration.is_some() {
            return None;
        }
        match parse_opt_u64(v, i) {
            Some((n, j)) => Some((GenPartial { eval_duration: Some(n), ..p }, j)),
            None => None,
        }
    } else {
        match parse_skip_value(v, i) {
            Some(j) => Some((p, j)),
            None => None,
        }
    }
}

/// Decodes one line as a generation chunk.
pub fn decode_generate_chunk(line: &str) -> (r: Option<BotResponse>)
    ensures
        match sp_gen_chunk(line@) {
            Some(g) => r matches Some(b) && b@ == g,
            None => r is None,
        },
{
    let v = str_chars(line);
    let i = skip_ws(&v, 0);
    if i >= v.len() || v[i] != '{' {
        return None;
    }
    let mut k = i + 1;
    let mut p = GenPartial {
        model: None,
        created_at: None,
        response: None,
        done: None,
        context: None,
        total_duration: None,
        load_duration: None,
        prompt_eval_count: None,
        prompt_eval_duration: None,
        eval_count: None,
        eval_duration: None,
    };
    assert(p@ =~= gen_partial_empty());
    let ghost target = sp_gen_members(v@, i + 1 as int, gen_partial_empty());
    loop
        invariant
            v@ == line@,
            i as int == sp_ws(v@, 0),
            i < v@.len(),
            v@[i as int] == '{',
            i + 1 <= k <= v@.len(),
            target == sp_gen_members(v@, k as int, p@),
            target == sp_gen_members(v@, i + 1 as int, gen_partial_empty()),
        decreases v@.len() - k,
    {
        let k1 = skip_ws(&v, k);
        match parse_string(&v, k1) {
            None => {
                return None;
            },
            Some((key, j)) => {
                let j1 = skip_ws(&v, j);
                if !(j1 < v.len() && v[j1] == ':') {
                    return None;
                }
                let j2 = skip_ws(&v, j1 + 1);
                match parse_gen_value(&v, j2, &key, p) {
                    None => {
                        return None;
                    },
                    Some((p2, m)) => {
                        let m1 = skip_ws(&v, m);
                        if m1 < v.len() && v[m1] == '}' {
                            let e = skip_ws(&v, m1 + 1);
                            if e != v.len() {
                                return None;
                            }
                            return gen_finish(p2);
                        } else if m1 < v.len() && v[m1] == ',' {
                            p = p2;
                            k = m1 + 1;
                        } else {
                            return None;
                        }
                    },
                }
            },
        }
    }
}

/// Builds the chunk from the finished record, if all required members are
/// there.
fn gen_finish(p: GenPartial) -> (r: Option<BotResponse>)
    ensures
        match sp_gen_finish(p@) {
            Some(g) => r matches Some(b) && b@ == g,
            None => r is None,
        },
{
    match (p.model, p.created_at, p.response, p.done) {
        (Some(model), Some(created_at), Some(response), Some(done)) => Some(
            BotResponse {
                model: chars_to_string(&model),
                created_at: chars_to_string(&created_at),
                response: chars_to_string(&response),
                done,
                context: match p.context {
                    Some(c) => c,
                    None => None,
                },
                total_duration: match p.total_duration {
                    Some(n) => n,
                    None => None,
                },
                load_duration: match p.load_duration {
                    Some(n) => n,
                    None => None,
                },
                prompt_eval_count: match p.prompt_eval_count {
                    Some(n) => n,
                    None => None,
                },
                prompt_eval_duration: match p.prompt_eval_duration {
                    Some(n) => n,
                    None => None,
                },
                eval_count: match p.eval_count {
                    Some(n) => n,
                    None => None,
                },
                eval_duration: match p.eval_duration {
                    Some(n) => n,
                    None => None,
                },
            },
        ),
        _ => None,
    }
}

/// Decodes one line as a non-streaming generate response.
pub fn decode_generate_response(line: &str) -> (r: Option<GenerateResponse>)
    ensures
        match sp_gen_chunk(line@) {
            Some(g) => r matches Some(b) && b@ == g,
            None => r is None,
        },
{
    match decode_generate_chunk(line) {
        Some(b) => Some(
            GenerateResponse {
                model: b.model,
                created_at: b.created_at,
                response: b.response,
                done: b.done,
                context: b.context,
                total_duration: b.total_duration,
                load_duration: b.load_duration,
                prompt_eval_count: b.prompt_eval_count,
                prompt_eval_duration: b.prompt_eval_duration,
                eval_count: b.eval_count,
                eval_duration: b.eval_duration,
            },
        ),
        None => None,
    }
}

/// Working record of the pull-chunk decoder.
struct PullPartial {
    status: Option<Vec<char>>,
    digest: Option<Option<Vec<char>>>,
    total: Option<Option<u64>>,
    completed: Option<Option<u64>>,
}

impl View for PullPartial {
    type V = PullPartialView;

    closed spec fn view(&self) -> PullPartialView {
        PullPartialView {
            status: match self.status {
                Some(w) => Some(w@),
                None => None,
            },
            digest: match self.digest {
                Some(d) => Some(
                    match d {
                        Some(w) => Some(w@),
                        None => None,
                    },
                ),
                None => None,
            },
            total: self.total,
            completed: self.completed,
        }
    }
}

/// Parses the value of one pull-chunk member.
#[verifier::rlimit(50)]
fn parse_pull_value(v: &Vec<char>, i: usize, key: &Vec<char>, p: PullPartial) -> (r: Option<
    (PullPartial, usize),
>)
    requires
        i <= v@.len(),
    ensures
        match r {
            Some(q) => {
                &&& sp_pull_value(v@, i as int, key@, p@) == Some((q.0@, q.1 as int))
                &&& i < q.1 <= v@.len()
            },
            None => sp_pull_value(v@, i as int, key@, p@) is None,
        },
{
    if chars_eq_str(key, "status") {
        if p.status.is_some() {
            return None;
        }
        match parse_string(v, i) {
            Some((w, j)) => Some((PullPartial { status: Some(w), ..p }, j)),
            None => None,
        }
    } else if chars_eq_str(key, "digest") {
        if p.digest.is_some() {
            return None;
        }
        match parse_opt_string(v, i) {
            Some((w, j)) => Some((PullPartial { digest: Some(w), ..p }, j)),
            None => None,
        }
    } else if chars_eq_str(key, "total") {
        if p.total.is_some() {
            return None;
        }
        match parse_opt_u64(v, i) {
            Some((n, j)) => Some((PullPartial { total: Some(n), ..p }, j)),
            None => None,
        }
    } else if chars_eq_str(key, "completed") {
        if p.completed.is_some() {
            return None;
        }
        match parse_opt_u64(v, i) {
            Some((n, j)) => Some((PullPartial { completed: Some(n), ..p }, j)),
            None => None,
        }
    } else {
        match parse_skip_value(v, i) {
            Some(j) => Some((p, j)),
            None => None,
        }
    }
}

/// Decodes one line as a pull chunk.
pub fn decode_pull_chunk(line: &str) -> (r: Option<PullModelResponse>)
    ensures
        match sp_pull_chunk(line@) {
            Some(g) => r matches Some(b) && b@ == g,
            None => r is None,
        },
{
    let v = str_chars(line);
    let i = skip_ws(&v, 0);
    if i >= v.len() || v[i] != '{' {
        return None;
    }
    let mut k = i + 1;
    let mut p = PullPartial { status: None, digest: None, total: None, completed: None };
    assert(p@ =~= pull_partial_empty());
    let ghost target = sp_pull_members(v@, i + 1 as int, pull_partial_empty());
    loop
        invariant
            v@ == line@,
            i as int == sp_ws(v@, 0),
            i < v@.len(),
            v@[i as int] == '{',
            i + 1 <= k <= v@.len(),
            target == sp_pull_members(v@, k as int, p@),
            target == sp_pull_members(v@, i + 1 as int, pull_partial_empty()),
        decreases v@.len() - k,
    {
        let k1 = skip_ws(&v, k);
        match parse_string(&v, k1) {
            None => {
                return None;
            },
            Some((key, j)) => {
                let j1 = skip_ws(&v, j);
                if !(j1 < v.len() && v[j1] == ':') {
                    return None;
                }
                let j2 = skip_ws(&v, j1 + 1);
                match parse_pull_value(&v, j2, &key, p) {
                    None => {
                        return None;
                    },
                    Some((p2, m)) => {
                        let m1 = skip_ws(&v, m);
                        if m1 < v.len() && v[m1] == '}' {
                            let e = skip_ws(&v, m1 + 1);
                            if e != v.len() {
                                return None;
                            }
                            return pull_finish(p2);
                        } else if m1 < v.len() && v[m1] == ',' {
                            p = p2;
                            k = m1 + 1;
                        } else {
                            return None;
                        }
                    },
                }
            },
        }
    }
}

/// Builds the pull chunk from the finished record.
fn pull_finish(p: PullPartial) -> (r: Option<PullModelResponse>)
    ensures
        match sp_pull_finish(p@) {
            Some(g) => r matches Some(b) && b@ == g,
            None => r is None,
        },
{
    match p.status {
        Some(status) => Some(
            PullModelResponse {
                status: chars_to_string(&status),
                digest: match p.digest {
                    Some(Some(w)) => Some(chars_to_string(&w)),
                    _ => None,
                },
                total: match p.total {
                    Some(n) => n,
                    None => None,
                },
                completed: match p.completed {
                    Some(n) => n,
                    None => None,
                },
            },
        ),
        _ => None,
    }
}

} // verus!
