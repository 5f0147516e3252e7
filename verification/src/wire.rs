//! Encoding of the JSON request bodies sent to the model server.
//!
//! The broker issues three kinds of HTTP calls; their bodies are
//! `{"model":...,"prompt":...,"images":[...],("context":[...],)?"stream":true}`
//! for generation and `{"name":...}` for pulling and removing a model.  The
//! spec functions here define those bodies character by character, and the
//! builders are proved to produce exactly them.

use vstd::prelude::*;

use crate::parse::{sp_u64, sp_u64_array, sp_u64_digits, sp_u64_items, sp_ws};
use crate::text::{chars_to_string, dec_digit, dec_val, hex_digit, is_dec_digit, push_str_chars};

verus! {

/// The JSON escape of one character: quote, backslash and control
/// characters are escaped the way serde's JSON encoder writes them, every
/// other character stands for itself.
pub open spec fn json_escape_char(c: char) -> Seq<char> {
    if c == '"' {
        seq!['\\', '"']
    } else if c == '\\' {
        seq!['\\', '\\']
    } else if c == '\u{8}' {
        seq!['\\', 'b']
    } else if c == '\u{c}' {
        seq!['\\', 'f']
    } else if c == '\n' {
        seq!['\\', 'n']
    } else if c == '\r' {
        seq!['\\', 'r']
    } else if c == '\t' {
        seq!['\\', 't']
    } else if (c as u32) < 0x20 {
        seq!['\\', 'u', '0', '0', hex_digit((c as u32) / 16), hex_digit((c as u32) % 16)]
    } else {
        seq![c]
    }
}

/// The JSON escape of a whole string.
pub open spec fn json_escape(s: Seq<char>) -> Seq<char>
    decreases s.len(),
{
    if s.len() == 0 {
        Seq::empty()
    } else {
        json_escape_char(s[0]) + json_escape(s.drop_first())
    }
}

/// Escaping distributes over concatenation.
pub proof fn lemma_json_escape_concat(a: Seq<char>, b: Seq<char>)
    ensures
        json_escape(a + b) == json_escape(a) + json_escape(b),
    decreases a.len(),
{
    if a.len() == 0 {
        assert(a + b =~= b);
        assert(json_escape(a) + json_escape(b) =~= json_escape(b));
    } else {
        assert((a + b).drop_first() =~= a.drop_first() + b);
        lemma_json_escape_concat(a.drop_first(), b);
        assert(json_escape(a + b) =~= json_escape(a) + json_escape(b));
    }
}

/// A string value in JSON: the escaped text between double quotes.
pub open spec fn json_quote(s: Seq<char>) -> Seq<char> {
    seq!['"'] + json_escape(s) + seq!['"']
}

/// The decimal notation of `n`.
pub open spec fn u64_dec(n: u64) -> Seq<char>
    decreases n,
{
    if n < 10 {
        seq![dec_digit(n)]
    } else {
        u64_dec(n / 10) + seq![dec_digit(n % 10)]
    }
}

/// The comma-separated decimal items of `a` from position `k` on.
pub open spec fn u64_items(a: Seq<u64>, k: int) -> Seq<char>
    decreases a.len() - k,
{
    if k < 0 || k >= a.len() {
        Seq::empty()
    } else if k == a.len() - 1 {
        u64_dec(a[k])
    } else {
        u64_dec(a[k]) + seq![','] + u64_items(a, k + 1)
    }
}

/// A JSON array of numbers.
pub open spec fn u64_array_json(a: Seq<u64>) -> Seq<char> {
    seq!['['] + u64_items(a, 0) + seq![']']
}

/// The comma-separated string items of `a` from position `k` on.
pub open spec fn str_items(a: Seq<Seq<char>>, k: int) -> Seq<char>
    decreases a.len() - k,
{
    if k < 0 || k >= a.len() {
        Seq::empty()
    } else if k == a.len() - 1 {
        json_quote(a[k])
    } else {
        json_quote(a[k]) + seq![','] + str_items(a, k + 1)
    }
}

/// A JSON array of strings.
pub open spec fn str_array_json(a: Seq<Seq<char>>) -> Seq<char> {
    seq!['['] + str_items(a, 0) + seq![']']
}

/// The body of a generate call: model, prompt and attached images always,
/// the context tokens only when the caller supplies some, and `stream:true`
/// closing the object.  The context array is spliced in verbatim.
pub open spec fn generate_body_view(
    model: Seq<char>,
    prompt: Seq<char>,
    images: Seq<Seq<char>>,
    context: Option<Seq<u64>>,
) -> Seq<char> {
    "{\"model\":"@ + json_quote(model) + ",\"prompt\":"@ + json_quote(prompt) + ",\"images\":"@
        + str_array_json(images) + (match context {
        Some(c) => ",\"context\":"@ + u64_array_json(c),
        None => Seq::empty(),
    }) + ",\"stream\":true}"@
}

/// The body of a pull or remove call: just the model's name.
pub open spec fn name_body_view(model: Seq<char>) -> Seq<char> {
    "{\"name\":"@ + json_quote(model) + "}"@
}

/// Appends the JSON escape of `s` onto `out`.
fn push_escaped(out: &mut Vec<char>, s: &str)
    ensures
        final(out)@ == old(out)@ + json_escape(s@),
{
    let n = s.unicode_len();
    let mut i: usize = 0;
    while i < n
        invariant
            n == s@.len(),
            i <= n,
            out@ == old(out)@ + json_escape(s@.subrange(0, i as int)),
        decreases n - i,
    {
        let c = s.get_char(i);
        let u = c as u32;
        proof {
            assert(s@.subrange(0, i + 1 as int) =~= s@.subrange(0, i as int) + seq![c]);
            lemma_json_escape_concat(s@.subrange(0, i as int), seq![c]);
            assert(json_escape(seq![c]) =~= json_escape_char(c)) by {
                reveal_with_fuel(json_escape, 2);
                assert(seq![c].drop_first() =~= Seq::<char>::empty());
            }
        }
        if c == '"' {
            out.push('\\');
            out.push('"');
        } else if c == '\\' {
            out.push('\\');
            out.push('\\');
        } else if u == 0x8 {
            out.push('\\');
            out.push('b');
        } else if u == 0xc {
            out.push('\\');
            out.push('f');
        } else if c == '\n' {
            out.push('\\');
            out.push('n');
        } else if c == '\r' {
            out.push('\\');
            out.push('r');
        } else if c == '\t' {
            out.push('\\');
            out.push('t');
        } else if u < 0x20 {
            out.push('\\');
            out.push('u');
            out.push('0');
            out.push('0');
            out.push(if u / 16 < 10 {
                ((48 + u / 16) as u8) as char
            } else {
                ((87 + u / 16) as u8) as char
            });
            out.push(if u % 16 < 10 {
                ((48 + u % 16) as u8) as char
            } else {
                ((87 + u % 16) as u8) as char
            });
        } else {
            out.push(c);
        }
        assert(out@ =~= old(out)@ + json_escape(s@.subrange(0, i + 1 as int)));
        i = i + 1;
    }
    assert(s@.subrange(0, n as int) =~= s@);
}

/// Appends `s` as a quoted, escaped JSON string value.
fn push_quoted(out: &mut Vec<char>, s: &str)
    ensures
        final(out)@ == old(out)@ + json_quote(s@),
{
    out.push('"');
    push_escaped(out, s);
    out.push('"');
    assert(out@ =~= old(out)@ + json_quote(s@));
}

/// Appends the decimal notation of `n`.
pub(crate) fn push_u64_dec(out: &mut Vec<char>, n: u64)
    ensures
        final(out)@ == old(out)@ + u64_dec(n),
    decreases n,
{
    if n >= 10 {
        push_u64_dec(out, n / 10);
    }
    let d = n % 10;
    out.push(((48 + d) as u8) as char);
    assert(out@ =~= old(out)@ + u64_dec(n));
}

/// Appends `a` as a JSON array of numbers.
fn push_u64_array(out: &mut Vec<char>, a: &Vec<u64>)
    ensures
        final(out)@ == old(out)@ + u64_array_json(a@),
{
    out.push('[');
    let n = a.len();
    let mut i: usize = 0;
    while i < n
        invariant
            n == a@.len(),
            i <= n,
            out@ + u64_items(a@, i as int) == old(out)@ + seq!['['] + u64_items(a@, 0),
        decreases n - i,
    {
        push_u64_dec(out, a[i]);
        if i + 1 < n {
            out.push(',');
        }
        assert(out@ + u64_items(a@, i + 1 as int) =~= old(out)@ + seq!['['] + u64_items(a@, 0));
        i = i + 1;
    }
    out.push(']');
    assert(out@ =~= old(out)@ + u64_array_json(a@));
}

/// Appends `a` as a JSON array of strings.
fn push_str_array(out: &mut Vec<char>, a: &Vec<String>)
    ensures
        final(out)@ == old(out)@ + str_array_json(a.deep_view()),
{
    out.push('[');
    let n = a.len();
    let mut i: usize = 0;
    while i < n
        invariant
            n == a@.len(),
            a.deep_view().len() == n,
            forall|j: int| 0 <= j < n ==> a.deep_view()[j] == a@[j]@,
            i <= n,
            out@ + str_items(a.deep_view(), i as int) == old(out)@ + seq!['['] + str_items(
                a.deep_view(),
                0,
            ),
        decreases n - i,
    {
        push_quoted(out, a[i].as_str());
        if i + 1 < n {
            out.push(',');
        }
        assert(out@ + str_items(a.deep_view(), i + 1 as int) =~= old(out)@ + seq!['['] + str_items(
            a.deep_view(),
            0,
        ));
        i = i + 1;
    }
    out.push(']');
    assert(out@ =~= old(out)@ + str_array_json(a.deep_view()));
}

/// The view of an optional context parameter.
pub open spec fn context_view(context: &Option<Vec<u64>>) -> Option<Seq<u64>> {
    match context {
        Some(c) => Some(c@),
        None => None,
    }
}

/// Builds the generate request body.  The context tokens, when present, are
/// written into the body exactly as given, with no reordering or change.
pub fn build_generate_body(
    model: &str,
    prompt: &str,
    images: &Vec<String>,
    context: &Option<Vec<u64>>,
) -> (r: String)
    ensures
        r@ == generate_body_view(model@, prompt@, images.deep_view(), context_view(context)),
{
    let mut out: Vec<char> = Vec::new();
    push_str_chars(&mut out, "{\"model\":");
    push_quoted(&mut out, model);
    push_str_chars(&mut out, ",\"prompt\":");
    push_quoted(&mut out, prompt);
    push_str_chars(&mut out, ",\"images\":");
    push_str_array(&mut out, images);
    match context {
        Some(c) => {
            push_str_chars(&mut out, ",\"context\":");
            push_u64_array(&mut out, c);
        },
        None => {},
    }
    push_str_chars(&mut out, ",\"stream\":true}");
    assert(out@ =~= generate_body_view(
        model@,
        prompt@,
        images.deep_view(),
        context_view(context),
    ));
    chars_to_string(&out)
}

/// Builds the pull / remove request body.
pub fn build_name_body(model: &str) -> (r: String)
    ensures
        r@ == name_body_view(model@),
{
    let mut out: Vec<char> = Vec::new();
    push_str_chars(&mut out, "{\"name\":");
    push_quoted(&mut out, model);
    push_str_chars(&mut out, "}");
    assert(out@ =~= name_body_view(model@));
    chars_to_string(&out)
}

/// The value a digit run folds to, starting from `acc`.
pub open spec fn digits_val(ds: Seq<char>, acc: int) -> int
    decreases ds.len(),
{
    if ds.len() == 0 {
        acc
    } else {
        digits_val(ds.drop_first(), acc * 10 + dec_val(ds[0]))
    }
}

/// Folding digits never shrinks a non-negative accumulator.
proof fn lemma_digits_val_ge(ds: Seq<char>, acc: int)
    requires
        acc >= 0,
        forall|t: int| 0 <= t < ds.len() ==> is_dec_digit(ds[t]),
    ensures
        digits_val(ds, acc) >= acc,
    decreases ds.len(),
{
    if ds.len() > 0 {
        assert(acc * 10 + dec_val(ds[0]) >= acc) by (nonlinear_arith)
            requires
                acc >= 0,
                dec_val(ds[0]) >= 0,
        ;
        lemma_digits_val_ge(ds.drop_first(), acc * 10 + dec_val(ds[0]));
    }
}

/// [`digits_val`] over a concatenation folds the first part first.
proof fn lemma_digits_val_concat(a: Seq<char>, b: Seq<char>, acc: int)
    ensures
        digits_val(a + b, acc) == digits_val(b, digits_val(a, acc)),
    decreases a.len(),
{
    if a.len() == 0 {
        assert(a + b =~= b);
    } else {
        assert((a + b).drop_first() =~= a.drop_first() + b);
        assert((a + b)[0] == a[0]);
        lemma_digits_val_concat(a.drop_first(), b, acc * 10 + dec_val(a[0]));
    }
}

/// Ten to the `k`.
pub open spec fn pow10(k: nat) -> int
    decreases k,
{
    if k == 0 {
        1
    } else {
        10 * pow10((k - 1) as nat)
    }
}

/// The decimal notation of `n` holds only digits, at least one, and its
/// first one is `0` only for `n == 0`.
proof fn lemma_u64_dec_shape(n: u64)
    ensures
        u64_dec(n).len() >= 1,
        forall|t: int| 0 <= t < u64_dec(n).len() ==> is_dec_digit(u64_dec(n)[t]),
        n > 0 ==> u64_dec(n)[0] != '0',
        n == 0 ==> u64_dec(n) == seq!['0'],
    decreases n,
{
    assert('0' as u32 == 48);
    if n < 10 {
        assert(is_dec_digit(dec_digit(n)));
        if n == 0 {
            assert(u64_dec(0) =~= seq!['0']);
        }
    } else {
        lemma_u64_dec_shape(n / 10);
        assert(is_dec_digit(dec_digit(n % 10)));
        assert(u64_dec(n) == u64_dec(n / 10) + seq![dec_digit(n % 10)]);
        assert(u64_dec(n)[0] == u64_dec(n / 10)[0]);
    }
}

/// Folding the decimal notation of `n` onto `acc` yields
/// `acc * pow10(len) + n`.
proof fn lemma_digits_val_of_dec(n: u64, acc: int)
    ensures
        digits_val(u64_dec(n), acc) == acc * pow10(u64_dec(n).len()) + n,
    decreases n,
{
    reveal_with_fuel(digits_val, 3);
    reveal_with_fuel(pow10, 3);
    if n < 10 {
        assert(u64_dec(n) == seq![dec_digit(n)]);
        assert(seq![dec_digit(n)].drop_first() =~= Seq::<char>::empty());
        assert(dec_val(dec_digit(n)) == n);
        assert(digits_val(u64_dec(n), acc) == acc * 10 + n);
        assert(pow10(1) == 10);
    } else {
        let a = u64_dec(n / 10);
        let d = dec_digit(n % 10);
        assert(u64_dec(n) == a + seq![d]);
        lemma_digits_val_concat(a, seq![d], acc);
        lemma_digits_val_of_dec(n / 10, acc);
        assert(dec_val(d) == n % 10);
        assert(seq![d].drop_first() =~= Seq::<char>::empty());
        let la = a.len();
        assert(digits_val(seq![d], digits_val(a, acc)) == digits_val(a, acc) * 10 + n % 10);
        assert((a + seq![d]).len() == la + 1);
        assert((acc * pow10(la) + n / 10) * 10 + n % 10 == acc * (10 * pow10(la)) + ((n / 10) * 10
            + n % 10)) by (nonlinear_arith);
        assert(pow10(la + 1) == 10 * pow10(la));
        assert((n / 10) * 10 + n % 10 == n);
    }
}

/// Where a maximal digit run of length `len` stands at `i` and its folded
/// value fits, the number parser consumes exactly the run.
proof fn lemma_sp_u64_digits_run(s: Seq<char>, i: int, len: int, acc: u64)
    requires
        0 <= i,
        len >= 0,
        i + len <= s.len(),
        forall|t: int| i <= t < i + len ==> is_dec_digit(s[t]),
        i + len == s.len() || !is_dec_digit(s[i + len]),
        digits_val(s.subrange(i, i + len), acc as int) <= u64::MAX,
    ensures
        sp_u64_digits(s, i, acc) == Some(
            (digits_val(s.subrange(i, i + len), acc as int) as u64, i + len),
        ),
    decreases len,
{
    let ds = s.subrange(i, i + len);
    if len == 0 {
        assert(ds =~= Seq::<char>::empty());
    } else {
        assert(ds[0] == s[i]);
        let d = dec_val(s[i]);
        let acc2 = acc as int * 10 + d;
        assert(ds.drop_first() =~= s.subrange(i + 1, i + len));
        assert(digits_val(ds, acc as int) == digits_val(ds.drop_first(), acc2));
        lemma_digits_val_ge(ds.drop_first(), acc2);
        assert(acc2 <= u64::MAX);
        lemma_sp_u64_digits_run(s, i + 1, len - 1, acc2 as u64);
    }
}

/// Where the decimal notation of `n` stands at `i`, followed by a
/// non-digit or the end, the number parser yields exactly `n`.
proof fn lemma_sp_u64_of_dec(s: Seq<char>, i: int, n: u64)
    requires
        0 <= i,
        i + u64_dec(n).len() <= s.len(),
        s.subrange(i, i + u64_dec(n).len() as int) == u64_dec(n),
        i + u64_dec(n).len() == s.len() || !is_dec_digit(s[i + u64_dec(n).len()]),
    ensures
        sp_u64(s, i) == Some((n, i + u64_dec(n).len())),
{
    lemma_u64_dec_shape(n);
    let len = u64_dec(n).len() as int;
    let ds = s.subrange(i, i + len);
    assert(forall|t: int| i <= t < i + len ==> s[t] == u64_dec(n)[t - i]);
    assert(forall|t: int| i <= t < i + len ==> is_dec_digit(s[t]));
    assert('0' as u32 == 48);
    if n == 0 {
        assert(s[i] == '0');
        assert(i + 1 == s.len() || !is_dec_digit(s[i + 1]));
    } else {
        assert(s[i] == u64_dec(n)[0]);
        assert(s[i] != '0');
        lemma_digits_val_of_dec(n, 0);
        assert(0 * pow10(u64_dec(n).len()) + n == n) by (nonlinear_arith);
        assert(digits_val(ds, 0) == n);
        lemma_sp_u64_digits_run(s, i, len, 0);
    }
}

/// Whitespace skipping does not move where no whitespace stands.
proof fn lemma_sp_ws_still(s: Seq<char>, i: int)
    requires
        !(0 <= i < s.len() && crate::parse::is_ws(s[i])),
    ensures
        sp_ws(s, i) == i,
{
}

/// Where the encoded items of `a` from `k` on stand at `i`, followed by
/// the closing bracket, the item parser returns the remaining items.
proof fn lemma_sp_u64_items_of_enc(s: Seq<char>, i: int, a: Seq<u64>, k: int, acc: Seq<u64>)
    requires
        0 <= i,
        0 <= k < a.len(),
        i + u64_items(a, k).len() + 1 <= s.len(),
        s.subrange(i, i + u64_items(a, k).len() as int) == u64_items(a, k),
        s[i + u64_items(a, k).len()] == ']',
    ensures
        sp_u64_items(s, i, acc) == Some((acc + a.skip(k), i + u64_items(a, k).len() + 1)),
    decreases a.len() - k,
{
    let d = u64_dec(a[k]);
    lemma_u64_dec_shape(a[k]);
    assert(',' as u32 == 44);
    assert(']' as u32 == 93);
    if k == a.len() - 1 {
        assert(u64_items(a, k) == d);
        assert(forall|t: int| i <= t < i + d.len() ==> s[t] == d[t - i]);
        assert(s.subrange(i, i + d.len() as int) =~= d);
        assert(!is_dec_digit(s[i + d.len()]));
        lemma_sp_ws_still(s, i);
        lemma_sp_u64_of_dec(s, i, a[k]);
        lemma_sp_ws_still(s, i + d.len());
        assert(acc.push(a[k]) =~= acc + a.skip(k));
    } else {
        let restitems = u64_items(a, k + 1);
        assert(u64_items(a, k) == d + seq![','] + restitems);
        assert(forall|t: int|
            i <= t < i + u64_items(a, k).len() ==> s[t] == u64_items(a, k)[t - i]);
        assert(s.subrange(i, i + d.len() as int) =~= d);
        assert(s[i + d.len()] == ',');
        assert(!is_dec_digit(s[i + d.len()]));
        lemma_sp_ws_still(s, i);
        lemma_sp_u64_of_dec(s, i, a[k]);
        lemma_sp_ws_still(s, i + d.len());
        let i2 = i + d.len() + 1;
        assert(s.subrange(i2, i2 + restitems.len() as int) =~= restitems);
        assert(s[i2 + restitems.len()] == ']');
        lemma_sp_u64_items_of_enc(s, i2, a, k + 1, acc.push(a[k]));
        assert(acc.push(a[k]) + a.skip(k + 1) =~= acc + a.skip(k));
    }
}

/// The encoded number array, wherever it stands and whatever follows it,
/// parses back to exactly the numbers that were encoded: nothing is
/// dropped, reordered or changed.
pub proof fn lemma_u64_array_round_trip(a: Seq<u64>, rest: Seq<char>)
    ensures
        sp_u64_array(u64_array_json(a) + rest, 0) == Some(
            (a, u64_array_json(a).len() as int),
        ),
{
    let s = u64_array_json(a) + rest;
    assert('[' as u32 == 91);
    assert(']' as u32 == 93);
    assert(s[0] == '[');
    if a.len() == 0 {
        assert(u64_items(a, 0) == Seq::<char>::empty());
        assert(s[1] == ']');
        lemma_sp_ws_still(s, 1);
        assert(sp_u64_array(s, 0) == Some((Seq::<u64>::empty(), 2int)));
        assert(a =~= Seq::<u64>::empty());
    } else {
        let items = u64_items(a, 0);
        lemma_u64_dec_shape(a[0]);
        assert(items[0] == u64_dec(a[0])[0]) by {
            if a.len() == 1 {
            } else {
                assert(items == u64_dec(a[0]) + seq![','] + u64_items(a, 1));
            }
        }
        assert(is_dec_digit(s[1])) by {
            assert(s[1] == items[0]);
        }
        lemma_sp_ws_still(s, 1);
        assert(!(0 <= 1 < s.len() && s[1] == ']'));
        assert(s.subrange(1, 1 + items.len() as int) =~= items);
        assert(s[1 + items.len() as int] == ']');
        lemma_sp_u64_items_of_enc(s, 1, a, 0, Seq::<u64>::empty());
        assert(Seq::<u64>::empty() + a.skip(0) =~= a);
    }
}

/// The generate body before the context segment.
pub open spec fn generate_body_prefix(
    model: Seq<char>,
    prompt: Seq<char>,
    images: Seq<Seq<char>>,
) -> Seq<char> {
    "{\"model\":"@ + json_quote(model) + ",\"prompt\":"@ + json_quote(prompt) + ",\"images\":"@
        + str_array_json(images)
}

/// Context pass-through: a generate body built with context tokens is the
/// prefix, the label, the encoded token array, and the closing text — and
/// that encoded segment, parsed right back out of the body, yields
/// exactly the tokens that were supplied.  The broker never transforms
/// them.
pub proof fn lemma_context_pass_through(
    model: Seq<char>,
    prompt: Seq<char>,
    images: Seq<Seq<char>>,
    context: Seq<u64>,
)
    ensures
        generate_body_view(model, prompt, images, Some(context)) == generate_body_prefix(
            model,
            prompt,
            images,
        ) + ",\"context\":"@ + (u64_array_json(context) + ",\"stream\":true}"@),
        sp_u64_array(u64_array_json(context) + ",\"stream\":true}"@, 0) == Some(
            (context, u64_array_json(context).len() as int),
        ),
{
    assert(generate_body_view(model, prompt, images, Some(context)) =~= generate_body_prefix(
        model,
        prompt,
        images,
    ) + ",\"context\":"@ + (u64_array_json(context) + ",\"stream\":true}"@));
    lemma_u64_array_round_trip(context, ",\"stream\":true}"@);
}

} // verus!
