use vstd::prelude::*;

use crate::text::{chars_of, extend_from_range, string_of};

verus! {

/// What `char::to_uppercase` gives for `c`: one character or several.
pub uninterp spec fn upper_of(c: char) -> Seq<char>;

/// Relies on `char::to_uppercase`: the upper-case mapping of `c`, collected into a string.
#[verifier::external_body]
fn uppercase(c: char) -> (r: String)
    ensures
        r@ == upper_of(c),
{
    c.to_uppercase().collect()
}

/// An ASCII decimal digit.
pub open spec fn is_digit(c: char) -> bool {
    '0' <= c <= '9'
}

/// Length of `w` without its trailing run of ASCII digits.
pub open spec fn letters_len(w: Seq<char>) -> nat
    decreases w.len(),
{
    if w.len() == 0 {
        0
    } else if is_digit(w.last()) {
        letters_len(w.drop_last())
    } else {
        w.len()
    }
}

/// A word put together from its capitalised head, the rest of its letters and its
/// trailing digits, the digits set apart by one space.
pub open spec fn word_text(head: Seq<char>, tail: Seq<char>, digits: Seq<char>) -> Seq<char> {
    if digits.len() == 0 {
        head + tail
    } else {
        head + tail + seq![' '] + digits
    }
}

/// The display form of one word: first letter upper-cased, trailing digits apart.
pub open spec fn pretty_word(w: Seq<char>) -> Seq<char> {
    let k = letters_len(w);
    let head = if k == 0 { Seq::<char>::empty() } else { upper_of(w[0]) };
    let tail = if k == 0 { Seq::<char>::empty() } else { w.subrange(1, k as int) };
    word_text(head, tail, w.subrange(k as int, w.len() as int))
}

/// Splitting `s` at underscores: the non-empty words already closed, and the word in progress.
pub open spec fn split_state(s: Seq<char>) -> (Seq<Seq<char>>, Seq<char>)
    decreases s.len(),
{
    if s.len() == 0 {
        (Seq::empty(), Seq::empty())
    } else {
        let (done, cur) = split_state(s.drop_last());
        if s.last() == '_' {
            if cur.len() > 0 {
                (done.push(cur), Seq::empty())
            } else {
                (done, Seq::empty())
            }
        } else {
            (done, cur.push(s.last()))
        }
    }
}

/// The non-empty runs of `s` between underscores, in order.
pub open spec fn words(s: Seq<char>) -> Seq<Seq<char>> {
    let (done, cur) = split_state(s);
    if cur.len() > 0 {
        done.push(cur)
    } else {
        done
    }
}

/// The pieces of `ws` joined by single spaces.
pub open spec fn join_spaced(ws: Seq<Seq<char>>) -> Seq<char>
    decreases ws.len(),
{
    if ws.len() == 0 {
        Seq::empty()
    } else if ws.len() == 1 {
        ws[0]
    } else {
        join_spaced(ws.drop_last()) + seq![' '] + ws.last()
    }
}

/// The display form of an identifier: its words, each made pretty, joined by spaces.
pub open spec fn pretty_name(s: Seq<char>) -> Seq<char> {
    join_spaced(words(s).map_values(|w: Seq<char>| pretty_word(w)))
}

/// No underscore in `w`.
pub open spec fn no_underscore(w: Seq<char>) -> bool {
    forall|j: int| 0 <= j < w.len() ==> w[j] != '_'
}

/// While splitting, closed words are non-empty and no word holds an underscore.
proof fn lemma_split_state_runs(s: Seq<char>)
    ensures
        forall|k: int|
            0 <= k < split_state(s).0.len() ==> (#[trigger] split_state(s).0[k]).len() > 0
                && no_underscore(split_state(s).0[k]),
        no_underscore(split_state(s).1),
    decreases s.len(),
{
    if s.len() > 0 {
        lemma_split_state_runs(s.drop_last());
        let (done, cur) = split_state(s.drop_last());
        if s.last() != '_' {
            assert forall|j: int| 0 <= j < cur.push(s.last()).len() implies cur.push(
                s.last(),
            )[j] != '_' by {
                if j < cur.len() {
                    assert(cur.push(s.last())[j] == cur[j]);
                }
            }
        } else if cur.len() > 0 {
            assert forall|k: int| 0 <= k < done.push(cur).len() implies (#[trigger] done.push(
                cur,
            )[k]).len() > 0 && no_underscore(done.push(cur)[k]) by {
                if k < done.len() {
                    assert(done.push(cur)[k] == done[k]);
                }
            }
        }
    }
}

/// Every word of an identifier is a non-empty run of characters other than `_`.
pub proof fn lemma_words_are_runs(s: Seq<char>)
    ensures
        forall|k: int|
            0 <= k < words(s).len() ==> (#[trigger] words(s)[k]).len() > 0 && no_underscore(
                words(s)[k],
            ),
{
    lemma_split_state_runs(s);
    let (done, cur) = split_state(s);
    if cur.len() > 0 {
        assert forall|k: int| 0 <= k < done.push(cur).len() implies (#[trigger] done.push(
            cur,
        )[k]).len() > 0 && no_underscore(done.push(cur)[k]) by {
            if k < done.len() {
                assert(done.push(cur)[k] == done[k]);
            }
        }
    }
}

/// Joining one more piece adds a space and the piece, unless there was none before.
proof fn lemma_join_push(ws: Seq<Seq<char>>, w: Seq<char>)
    ensures
        join_spaced(ws.push(w)) == if ws.len() == 0 {
            w
        } else {
            join_spaced(ws) + seq![' '] + w
        },
{
    assert(ws.push(w).drop_last() =~= ws);
    if ws.len() == 0 {
        assert(ws.push(w)[0] == w);
    }
}

/// Making pretty commutes with adding a word at the end.
proof fn lemma_map_push(ws: Seq<Seq<char>>, w: Seq<char>)
    ensures
        ws.push(w).map_values(|x: Seq<char>| pretty_word(x)) == ws.map_values(
            |x: Seq<char>| pretty_word(x),
        ).push(pretty_word(w)),
{
    assert(ws.push(w).map_values(|x: Seq<char>| pretty_word(x)) =~= ws.map_values(
        |x: Seq<char>| pretty_word(x),
    ).push(pretty_word(w)));
}

/// The number of leading characters of `w` that stay when its trailing digits are set apart.
pub fn letters_end(w: &Vec<char>) -> (k: usize)
    ensures
        k == letters_len(w@),
        k <= w.len(),
{
    let mut k: usize = w.len();
    assert(w@.take(k as int) =~= w@);
    while k > 0 && '0' <= w[k - 1] && w[k - 1] <= '9'
        invariant
            k <= w.len(),
            letters_len(w@) == letters_len(w@.take(k as int)),
        decreases k,
    {
        assert(w@.take(k as int).drop_last() =~= w@.take(k - 1));
        k -= 1;
    }
    assert(w@.take(k as int).len() == k);
    k
}

/// Puts a word together from its capitalised head, the rest of its letters and its
/// trailing digits.
pub fn format_word(head: &Vec<char>, tail: &Vec<char>, digits: &Vec<char>) -> (r: Vec<char>)
    ensures
        r@ == word_text(head@, tail@, digits@),
{
    let mut r: Vec<char> = Vec::new();
    extend_from_range(&mut r, head, 0, head.len());
    extend_from_range(&mut r, tail, 0, tail.len());
    if digits.len() > 0 {
        r.push(' ');
        extend_from_range(&mut r, digits, 0, digits.len());
    }
    assert(head@.subrange(0, head@.len() as int) =~= head@);
    assert(tail@.subrange(0, tail@.len() as int) =~= tail@);
    assert(digits@.subrange(0, digits@.len() as int) =~= digits@);
    r
}

/// The display form of one word (see `pretty_word`).
pub fn prettify_word(w: &Vec<char>) -> (r: Vec<char>)
    ensures
        r@ == pretty_word(w@),
{
    let k = letters_end(w);
    let mut head: Vec<char> = Vec::new();
    let mut tail: Vec<char> = Vec::new();
    if k > 0 {
        let up = uppercase(w[0]);
        head = chars_of(up.as_str());
        extend_from_range(&mut tail, w, 1, k);
    }
    let mut digits: Vec<char> = Vec::new();
    extend_from_range(&mut digits, w, k, w.len());
    assert(head@ == (if k == 0 { Seq::<char>::empty() } else { upper_of(w@[0]) }));
    assert(tail@ =~= (if k == 0 { Seq::<char>::empty() } else { w@.subrange(1, k as int) }));
    assert(digits@ =~= w@.subrange(k as int, w@.len() as int));
    format_word(&head, &tail, &digits)
}

/// Turns an identifier such as `max_speed2` into a label such as `Max Speed 2`:
/// the text is cut at underscores, empty pieces are dropped, each piece gets an
/// upper-case first letter and its trailing digits set apart by a space, and the
/// pieces are joined by spaces.
pub fn prettify_name(s: &str) -> (r: String)
    ensures
        r@ == pretty_name(s@),
{
    let cs = chars_of(s);
    let mut out: Vec<char> = Vec::new();
    let mut cur: Vec<char> = Vec::new();
    let ghost mut done: Seq<Seq<char>> = Seq::empty();
    let mut any = false;
    let mut i: usize = 0;
    while i < cs.len()
        invariant
            cs@ == s@,
            i <= cs.len(),
            split_state(cs@.take(i as int)) == (done, cur@),
            any == (done.len() > 0),
            out@ == join_spaced(done.map_values(|x: Seq<char>| pretty_word(x))),
        decreases cs.len() - i,
    {
        let c = cs[i];
        assert(cs@.take(i + 1).drop_last() =~= cs@.take(i as int));
        if c == '_' {
            if cur.len() > 0 {
                let p = prettify_word(&cur);
                proof {
                    lemma_map_push(done, cur@);
                    lemma_join_push(done.map_values(|x: Seq<char>| pretty_word(x)), p@);
                }
                if any {
                    out.push(' ');
                }
                any = true;
                extend_from_range(&mut out, &p, 0, p.len());
                assert(p@.subrange(0, p@.len() as int) =~= p@);
                proof {
                    done = done.push(cur@);
                }
                cur = Vec::new();
            }
        } else {
            cur.push(c);
        }
        i += 1;
    }
    assert(cs@.take(i as int) =~= cs@);
    if cur.len() > 0 {
        let p = prettify_word(&cur);
        proof {
            lemma_map_push(done, cur@);
            lemma_join_push(done.map_values(|x: Seq<char>| pretty_word(x)), p@);
        }
        if any {
            out.push(' ');
        }
        extend_from_range(&mut out, &p, 0, p.len());
        assert(p@.subrange(0, p@.len() as int) =~= p@);
    }
    string_of(&out)
}

/// The decimal digits of `n`, most significant first.
pub open spec fn decimal(n: nat) -> Seq<char>
    decreases n,
{
    if n < 10 {
        seq![digit_char(n)]
    } else {
        decimal(n / 10).push(digit_char(n % 10))
    }
}

/// The ASCII character of the digit `d`.
pub open spec fn digit_char(d: nat) -> char {
    ((d + 48) as u8) as char
}

/// The decimal text of `n`.
pub fn decimal_text(n: usize) -> (r: Vec<char>)
    ensures
        r@ == decimal(n as nat),
{
    let mut m: usize = n;
    let mut rev: Vec<char> = Vec::new();
    loop
        invariant_except_break
            decimal(n as nat) == decimal(m as nat) + rev@.reverse(),
        ensures
            decimal(n as nat) == rev@.reverse(),
        decreases m,
    {
        let d: usize = m % 10;
        let c = ((d + 48) as u8) as char;
        rev.push(c);
        assert(rev@.reverse() =~= seq![c] + rev@.drop_last().reverse());
        if m < 10 {
            assert(decimal(m as nat) =~= seq![c]);
            assert(decimal(n as nat) =~= rev@.reverse());
            break;
        }
        assert(decimal(m as nat) == decimal((m / 10) as nat).push(c));
        assert(decimal(n as nat) =~= decimal((m / 10) as nat) + rev@.reverse());
        m = m / 10;
    }
    let mut r: Vec<char> = Vec::new();
    let mut j: usize = rev.len();
    while j > 0
        invariant
            j <= rev.len(),
            r@ == rev@.reverse().take(rev.len() - j),
            decimal(n as nat) =~= rev@.reverse(),
        decreases j,
    {
        j -= 1;
        r.push(rev[j]);
        assert(r@ =~= rev@.reverse().take(rev.len() - j));
    }
    assert(r@ =~= rev@.reverse());
    r
}

/// The label of an unnamed field at position `i`: `Field ` and the position.
pub open spec fn unnamed_field_label(i: nat) -> Seq<char> {
    "Field "@ + decimal(i)
}

/// The name bound to the unnamed field at position `i` of an enum variant.
pub open spec fn binding_name(i: nat) -> Seq<char> {
    "field"@ + decimal(i)
}

/// `prefix` followed by the decimal text of `i`.
fn prefixed_number(prefix: &str, i: usize) -> (r: String)
    ensures
        r@ == prefix@ + decimal(i as nat),
{
    let mut v = chars_of(prefix);
    let d = decimal_text(i);
    extend_from_range(&mut v, &d, 0, d.len());
    assert(d@.subrange(0, d@.len() as int) =~= d@);
    string_of(&v)
}

/// The fallback name of the unnamed field at position `i`, before it is made pretty.
pub fn unnamed_field_name(i: usize) -> (r: String)
    ensures
        r@ == unnamed_field_label(i as nat),
{
    prefixed_number("Field ", i)
}

/// The name given to the unnamed field at position `i` when an enum variant is matched.
pub fn field_binding_name(i: usize) -> (r: String)
    ensures
        r@ == binding_name(i as nat),
{
    prefixed_number("field", i)
}

/// The header of a list editor: the label followed by the length in brackets.
pub fn list_header(label: &str, len: usize) -> (r: String)
    ensures
        r@ == label@ + "["@ + decimal(len as nat) + "]"@,
{
    let mut v = chars_of(label);
    v.push('[');
    let d = decimal_text(len);
    extend_from_range(&mut v, &d, 0, d.len());
    v.push(']');
    assert(d@.subrange(0, d@.len() as int) =~= d@);
    proof {
        reveal_strlit("[");
        reveal_strlit("]");
    }
    assert(v@ =~= label@ + "["@ + decimal(len as nat) + "]"@);
    string_of(&v)
}

/// The label of the list item at position `i`: `Item ` and the position.
pub fn item_label(i: usize) -> (r: String)
    ensures
        r@ == "Item "@ + decimal(i as nat),
{
    prefixed_number("Item ", i)
}

/// The label of a field: the name given in its attributes, else its identifier made
/// pretty, else the fallback name made pretty.
pub open spec fn field_label_spec(
    name: Option<Seq<char>>,
    ident: Option<Seq<char>>,
    fallback: Seq<char>,
) -> Seq<char> {
    match name {
        Some(n) => n,
        None => match ident {
            Some(id) => pretty_name(id),
            None => pretty_name(fallback),
        },
    }
}

/// The text held, if any.
pub open spec fn opt_view(o: Option<String>) -> Option<Seq<char>> {
    match o {
        Some(s) => Some(s@),
        None => None,
    }
}

/// The label shown for a field.
pub fn field_label(name: &Option<String>, ident: &Option<String>, fallback: &str) -> (r: String)
    ensures
        r@ == field_label_spec(opt_view(*name), opt_view(*ident), fallback@),
{
    match name {
        Some(n) => n.clone(),
        None => match ident {
            Some(id) => prettify_name(id.as_str()),
            None => prettify_name(fallback),
        },
    }
}

/// The label of a field as written: the name given in its attributes, else its
/// identifier, else the fallback name, none of them made pretty.
pub fn plain_field_label(name: &Option<String>, ident: &Option<String>, fallback: &str) -> (r: String)
    ensures
        r@ == match opt_view(*name) {
            Some(n) => n,
            None => match opt_view(*ident) {
                Some(id) => id,
                None => fallback@,
            },
        },
{
    match name {
        Some(n) => n.clone(),
        None => match ident {
            Some(id) => id.clone(),
            None => fallback.to_owned(),
        },
    }
}

/// The label shown for an enum variant: the name given in its attributes, else its
/// identifier as written.
pub fn variant_label(name: &Option<String>, ident: &str) -> (r: String)
    ensures
        r@ == match opt_view(*name) {
            Some(n) => n,
            None => ident@,
        },
{
    match name {
        Some(n) => n.clone(),
        None => ident.to_owned(),
    }
}

/// The label of a button that runs a function: the label given, else the function's
/// name made pretty.
pub fn button_label(label: &Option<String>, fn_name: &str) -> (r: String)
    ensures
        r@ == match opt_view(*label) {
            Some(l) => l,
            None => pretty_name(fn_name@),
        },
{
    match label {
        Some(l) => l.clone(),
        None => prettify_name(fn_name),
    }
}

} // verus!
