//! The query builder: turns an endpoint's present filter parameters into a
//! canonical query string, `name=value` entries joined by `&` in declared
//! order, every value percent-encoded, and no `?` at all when no parameter
//! has a present value.

use vstd::prelude::*;
use vstd::utf8::encode_utf8;

verus! {

/// Relies on `String::push`: appends exactly one character.
#[verifier::external_body]
pub fn push_char(s: &mut String, c: char)
    ensures
        final(s)@ == old(s)@ + seq![c],
{
    s.push(c);
}

// ---------------- percent-encoding ----------------

/// The sixteen digits used by a percent escape, upper case.
pub open spec fn hex_digit(n: u8) -> char {
    if n < 10 {
        ((n + 0x30) as char)
    } else {
        ((n + 0x37) as char)
    }
}

pub fn hex_digit_exec(n: u8) -> (c: char)
    requires
        n < 16,
    ensures
        c == hex_digit(n),
{
    if n < 10 {
        (n + 0x30) as char
    } else {
        (n + 0x37) as char
    }
}

/// The bytes a query value carries through unescaped: the unreserved set,
/// ASCII letters, digits, `-`, `.`, `_` and `~`.
pub open spec fn is_unreserved(b: u8) -> bool {
    (0x41 <= b <= 0x5A) || (0x61 <= b <= 0x7A) || (0x30 <= b <= 0x39) || b == 0x2D || b == 0x2E
        || b == 0x5F || b == 0x7E
}

fn is_unreserved_exec(b: u8) -> (r: bool)
    ensures
        r == is_unreserved(b),
{
    (0x41 <= b && b <= 0x5A) || (0x61 <= b && b <= 0x7A) || (0x30 <= b && b <= 0x39) || b == 0x2D
        || b == 0x2E || b == 0x5F || b == 0x7E
}

/// One byte of a value, percent-encoded.
pub open spec fn pe_byte(b: u8) -> Seq<char> {
    if is_unreserved(b) {
        seq![b as char]
    } else {
        seq!['%', hex_digit(b / 16), hex_digit(b % 16)]
    }
}

/// A byte sequence, percent-encoded.
pub open spec fn percent_encoded(bs: Seq<u8>) -> Seq<char>
    decreases bs.len(),
{
    if bs.len() == 0 {
        Seq::empty()
    } else {
        pe_byte(bs[0]) + percent_encoded(bs.subrange(1, bs.len() as int))
    }
}

/// A query value, percent-encoded: its UTF-8 bytes, escaped.
pub open spec fn enc(s: Seq<char>) -> Seq<char> {
    percent_encoded(encode_utf8(s))
}

pub proof fn lemma_pe_concat(a: Seq<u8>, b: Seq<u8>)
    ensures
        percent_encoded(a + b) == percent_encoded(a) + percent_encoded(b),
    decreases a.len(),
{
    if a.len() == 0 {
        assert(a + b =~= b);
        assert(percent_encoded(a) + percent_encoded(b) =~= percent_encoded(b));
    } else {
        lemma_pe_concat(a.subrange(1, a.len() as int), b);
        assert((a + b).subrange(1, (a + b).len() as int) =~= a.subrange(1, a.len() as int) + b);
        assert((a + b)[0] == a[0]);
        assert(pe_byte(a[0]) + (percent_encoded(a.subrange(1, a.len() as int))
            + percent_encoded(b)) =~= (pe_byte(a[0]) + percent_encoded(
            a.subrange(1, a.len() as int),
        )) + percent_encoded(b));
    }
}

pub proof fn lemma_pe_singleton(x: u8)
    ensures
        percent_encoded(seq![x]) == pe_byte(x),
{
    assert(seq![x].len() == 1);
    assert(seq![x][0] == x);
    assert(seq![x].subrange(1, 1) =~= Seq::<u8>::empty());
    assert(percent_encoded(seq![x]) == pe_byte(x) + percent_encoded(seq![x].subrange(1, 1)));
    assert(pe_byte(x) + percent_encoded(Seq::<u8>::empty()) =~= pe_byte(x));
}

/// Appends the percent-encoding of `value` to `out`.
pub fn percent_encode_into(out: &mut String, value: &str)
    ensures
        final(out)@ == old(out)@ + enc(value@),
{
    let bytes = value.as_bytes();
    proof {
        assert(bytes@.subrange(0, 0) =~= Seq::<u8>::empty());
    }
    let mut idx: usize = 0;
    while idx < bytes.len()
        invariant
            idx <= bytes@.len(),
            bytes@ == encode_utf8(value@),
            out@ == old(out)@ + percent_encoded(bytes@.subrange(0, idx as int)),
        decreases bytes@.len() - idx,
    {
        let b = bytes[idx];
        if is_unreserved_exec(b) {
            push_char(out, b as char);
        } else {
            push_char(out, '%');
            push_char(out, hex_digit_exec(b / 16));
            push_char(out, hex_digit_exec(b % 16));
        }
        proof {
            lemma_pe_concat(bytes@.subrange(0, idx as int), seq![bytes@[idx as int]]);
            assert(bytes@.subrange(0, idx as int + 1) =~= bytes@.subrange(0, idx as int) + seq![
                bytes@[idx as int],
            ]);
            lemma_pe_singleton(bytes@[idx as int]);
            assert(out@ =~= old(out)@ + percent_encoded(bytes@.subrange(0, idx as int + 1)));
        }
        idx += 1;
    }
    proof {
        assert(bytes@.subrange(0, bytes@.len() as int) =~= bytes@);
    }
}

// ---------------- decimal rendering of a page size ----------------

/// The decimal digit character of `n % 10`.
pub open spec fn digit(n: u8) -> char {
    (((n % 10) + 0x30) as char)
}

/// The decimal rendering of a page size.
pub open spec fn dec_u8(n: u8) -> Seq<char> {
    if n < 10 {
        seq![digit(n)]
    } else if n < 100 {
        seq![digit(n / 10), digit(n)]
    } else {
        seq![digit(n / 100), digit(n / 10), digit(n)]
    }
}

/// Appends the decimal rendering of `n` to `out`.
pub fn push_u8_digits(out: &mut String, n: u8)
    ensures
        final(out)@ == old(out)@ + dec_u8(n),
{
    if n >= 100 {
        push_char(out, ((n / 100) % 10 + 0x30) as char);
    }
    if n >= 10 {
        push_char(out, ((n / 10) % 10 + 0x30) as char);
    }
    push_char(out, (n % 10 + 0x30) as char);
    proof {
        assert(out@ =~= old(out)@ + dec_u8(n));
    }
}

// ---------------- the query string ----------------

/// One emitted entry: its fixed name, `=`, and its already-encoded value.
pub open spec fn render_entry(e: (Seq<char>, Seq<char>)) -> Seq<char> {
    e.0 + seq!['='] + e.1
}

/// The query string emitted for the present entries, in declared order,
/// joined by `&`.
pub open spec fn qs_of(es: Seq<(Seq<char>, Seq<char>)>) -> Seq<char>
    decreases es.len(),
{
    if es.len() == 0 {
        Seq::empty()
    } else if es.len() == 1 {
        render_entry(es[0])
    } else {
        qs_of(es.drop_last()) + seq!['&'] + render_entry(es.last())
    }
}

/// What the builder appends to a URL: nothing at all when no entry is
/// present, otherwise `?` and the query string.
pub open spec fn url_suffix(es: Seq<(Seq<char>, Seq<char>)>) -> Seq<char> {
    if es.len() == 0 {
        Seq::empty()
    } else {
        seq!['?'] + qs_of(es)
    }
}

/// The entry a present optional parameter contributes, and the empty
/// contribution of an absent one.
pub open spec fn opt_e(name: Seq<char>, value: Option<Seq<char>>) -> Seq<(Seq<char>, Seq<char>)> {
    match value {
        Some(v) => seq![(name, v)],
        None => Seq::empty(),
    }
}

pub proof fn lemma_qs_push(es: Seq<(Seq<char>, Seq<char>)>, e: (Seq<char>, Seq<char>))
    ensures
        qs_of(es.push(e)) == if es.len() == 0 {
            render_entry(e)
        } else {
            qs_of(es) + seq!['&'] + render_entry(e)
        },
{
    assert(es.push(e).drop_last() =~= es);
    assert(es.push(e).last() == e);
    if es.len() == 0 {
        assert(es.push(e)[0] == e);
    }
}

/// A present entry always renders at least its `=`, so the query string is
/// empty exactly when no entry is present.
pub proof fn lemma_qs_empty(es: Seq<(Seq<char>, Seq<char>)>)
    ensures
        qs_of(es).len() == 0 <==> es.len() == 0,
    decreases es.len(),
{
    if es.len() > 1 {
        lemma_qs_empty(es.drop_last());
    } else if es.len() == 1 {
        assert(render_entry(es[0]).len() >= 1);
    }
}

/// Where the `i`-th entry starts inside the query string: after the
/// rendered earlier entries and their separators.
pub open spec fn entry_start(es: Seq<(Seq<char>, Seq<char>)>, i: int) -> int
    decreases i,
{
    if i <= 0 {
        0
    } else {
        entry_start(es, i - 1) + render_entry(es[i - 1]).len() + 1
    }
}

proof fn lemma_entry_start_drop_last(es: Seq<(Seq<char>, Seq<char>)>, i: int)
    requires
        0 <= i < es.len(),
    ensures
        entry_start(es, i) == entry_start(es.drop_last(), i),
    decreases i,
{
    if i > 0 {
        lemma_entry_start_drop_last(es, i - 1);
        assert(es.drop_last()[i - 1] == es[i - 1]);
    }
}

proof fn lemma_entry_start_nonneg(es: Seq<(Seq<char>, Seq<char>)>, i: int)
    ensures
        entry_start(es, i) >= 0,
    decreases i,
{
    if i > 0 {
        lemma_entry_start_nonneg(es, i - 1);
    }
}

proof fn lemma_entry_start_mono(es: Seq<(Seq<char>, Seq<char>)>, i: int, j: int)
    requires
        0 <= i < j,
    ensures
        entry_start(es, i) + render_entry(es[i]).len() + 1 <= entry_start(es, j),
    decreases j,
{
    if j > i + 1 {
        lemma_entry_start_mono(es, i, j - 1);
    }
}

/// The length of the query string: the last entry's start plus its length.
pub proof fn lemma_qs_len(es: Seq<(Seq<char>, Seq<char>)>)
    ensures
        es.len() > 0 ==> qs_of(es).len() == entry_start(es, es.len() - 1) + render_entry(
            es[es.len() - 1],
        ).len(),
    decreases es.len(),
{
    if es.len() > 1 {
        let dl = es.drop_last();
        lemma_qs_len(dl);
        lemma_entry_start_drop_last(es, es.len() - 1);
        assert(dl[es.len() - 2] == es[es.len() - 2]);
    }
}

/// The `i`-th present entry stands, rendered, at its computed start, and a
/// single `&` separates it from the entry before it.
pub proof fn lemma_entry_at(es: Seq<(Seq<char>, Seq<char>)>, i: int)
    requires
        0 <= i < es.len(),
    ensures
        entry_start(es, i) >= 0,
        entry_start(es, i) + render_entry(es[i]).len() <= qs_of(es).len(),
        qs_of(es).subrange(
            entry_start(es, i),
            entry_start(es, i) + render_entry(es[i]).len() as int,
        ) == render_entry(es[i]),
        i >= 1 ==> qs_of(es)[entry_start(es, i) - 1] == '&',
    decreases es.len(),
{
    lemma_entry_start_nonneg(es, i);
    lemma_qs_len(es);
    if i < es.len() - 1 {
        lemma_entry_start_mono(es, i, es.len() - 1);
    }
    if es.len() == 1 {
        assert(qs_of(es).subrange(0, render_entry(es[0]).len() as int) =~= render_entry(es[0]));
    } else {
        let dl = es.drop_last();
        lemma_qs_len(dl);
        lemma_entry_start_drop_last(es, i);
        if i == es.len() - 1 {
            if i >= 1 {
                lemma_entry_start_drop_last(es, i - 1);
            }
            assert(entry_start(es, i) == qs_of(dl).len() + 1);
            assert(qs_of(es) == qs_of(dl) + seq!['&'] + render_entry(es[i]));
            assert(qs_of(es).subrange(
                entry_start(es, i),
                entry_start(es, i) + render_entry(es[i]).len() as int,
            ) =~= render_entry(es[i]));
            assert(qs_of(es)[entry_start(es, i) - 1] == '&');
        } else {
            lemma_entry_at(dl, i);
            if i < dl.len() - 1 {
                lemma_entry_start_mono(dl, i, dl.len() - 1);
            }
            assert(dl[i] == es[i]);
            assert(qs_of(es) == qs_of(dl) + seq!['&'] + render_entry(es[es.len() - 1]));
            assert(qs_of(es).subrange(
                entry_start(es, i),
                entry_start(es, i) + render_entry(es[i]).len() as int,
            ) =~= qs_of(dl).subrange(
                entry_start(dl, i),
                entry_start(dl, i) + render_entry(dl[i]).len() as int,
            ));
            if i >= 1 {
                let k = entry_start(dl, i) - 1;
                lemma_entry_start_nonneg(dl, i - 1);
                assert(entry_start(dl, i) == entry_start(dl, i - 1) + render_entry(
                    dl[i - 1],
                ).len() + 1);
                assert(render_entry(dl[i]) == dl[i].0 + seq!['='] + dl[i].1);
                assert(render_entry(dl[i]).len() >= 1);
                assert(0 <= k < qs_of(dl).len());
                assert(qs_of(es) == (qs_of(dl) + seq!['&']) + render_entry(es[es.len() - 1]));
                assert(((qs_of(dl) + seq!['&']) + render_entry(es[es.len() - 1]))[k] == (qs_of(dl)
                    + seq!['&'])[k]);
                assert((qs_of(dl) + seq!['&'])[k] == qs_of(dl)[k]);
            }
        }
    }
}

/// The emitted query string contains exactly the present entries, in
/// declared order: each entry's rendering stands at its computed start,
/// entries are separated by single `&` characters, and nothing else is
/// emitted (the total length is accounted for by the entries and their
/// separators).
pub proof fn lemma_query_exact_entries(es: Seq<(Seq<char>, Seq<char>)>)
    ensures
        es.len() == 0 ==> qs_of(es).len() == 0,
        es.len() > 0 ==> qs_of(es).len() == entry_start(es, es.len() - 1) + render_entry(
            es[es.len() - 1],
        ).len(),
        forall|i: int|
            0 <= i < es.len() ==> qs_of(es).subrange(
                entry_start(es, i),
                entry_start(es, i) + render_entry(es[i]).len() as int,
            ) == render_entry(#[trigger] es[i]),
        forall|i: int| 1 <= i < es.len() ==> qs_of(es)[entry_start(es, i) - 1] == '&',
{
    lemma_qs_len(es);
    assert forall|i: int| 0 <= i < es.len() implies qs_of(es).subrange(
        entry_start(es, i),
        entry_start(es, i) + render_entry(es[i]).len() as int,
    ) == render_entry(#[trigger] es[i]) by {
        lemma_entry_at(es, i);
    }
    assert forall|i: int| 1 <= i < es.len() implies qs_of(es)[entry_start(es, i) - 1] == '&' by {
        lemma_entry_at(es, i);
    }
}

/// With zero present values the builder appends nothing: the URL keeps no
/// query string and no trailing `?`.
pub proof fn lemma_no_present_values_no_query(es: Seq<(Seq<char>, Seq<char>)>)
    requires
        es.len() == 0,
    ensures
        url_suffix(es) == Seq::<char>::empty(),
{
}

// ---------------- appending entries, exec side ----------------

/// Appends one present entry to the query under construction, separated
/// from an earlier entry by `&`.
pub fn push_param(query: &mut String, name: &str, value: &str)
    ensures
        final(query)@ == if old(query)@.len() == 0 {
            render_entry((name@, enc(value@)))
        } else {
            old(query)@ + seq!['&'] + render_entry((name@, enc(value@)))
        },
{
    if !query.as_str().is_empty() {
        push_char(query, '&');
    }
    query.append(name);
    push_char(query, '=');
    percent_encode_into(query, value);
    proof {
        if old(query)@.len() == 0 {
            assert(query@ =~= render_entry((name@, enc(value@))));
        } else {
            assert(query@ =~= old(query)@ + seq!['&'] + render_entry((name@, enc(value@))));
        }
    }
}

/// Appends one present numeric entry (a page size) to the query under
/// construction. Decimal digits are unreserved, so the rendering is its
/// own percent-encoding.
pub fn push_param_u8(query: &mut String, name: &str, value: u8)
    ensures
        final(query)@ == if old(query)@.len() == 0 {
            render_entry((name@, dec_u8(value)))
        } else {
            old(query)@ + seq!['&'] + render_entry((name@, dec_u8(value)))
        },
{
    if !query.as_str().is_empty() {
        push_char(query, '&');
    }
    query.append(name);
    push_char(query, '=');
    push_u8_digits(query, value);
    proof {
        if old(query)@.len() == 0 {
            assert(query@ =~= render_entry((name@, dec_u8(value))));
        } else {
            assert(query@ =~= old(query)@ + seq!['&'] + render_entry((name@, dec_u8(value))));
        }
    }
}

/// Appends `?` and the built query to the URL when any entry was present,
/// and nothing otherwise.
pub(crate) fn append_query(url: &mut String, query: String, Ghost(es): Ghost<Seq<(Seq<char>, Seq<char>)>>)
    requires
        query@ == qs_of(es),
    ensures
        final(url)@ == old(url)@ + url_suffix(es),
{
    proof {
        lemma_qs_empty(es);
    }
    if !query.as_str().is_empty() {
        push_char(url, '?');
        url.append(query.as_str());
        proof {
            assert(url@ =~= old(url)@ + url_suffix(es));
        }
    } else {
        proof {
            assert(url@ =~= old(url)@ + url_suffix(es));
        }
    }
}

} // verus!
