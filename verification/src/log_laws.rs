//! What holds of the removal of secrets as a whole.

use vstd::prelude::*;

use crate::log;

verus! {

proof fn lemma_marker()
    ensures
        "=REDACTED"@.len() == 9,
        "=REDACTED"@[0] == '=',
        forall|i: int| 1 <= i < 9 ==> log::token_char(#[trigger] "=REDACTED"@[i]),
        "&"@ =~= seq!['&'],
        "?"@ =~= seq!['?'],
        "="@ =~= seq!['='],
{
    reveal_strlit("=REDACTED");
    reveal_strlit("&");
    reveal_strlit("?");
    reveal_strlit("=");
}

// ---------------------------------------------------------------------------
// URLs
// ---------------------------------------------------------------------------

/// Sanitizing a pair again changes nothing, and brings in no separator.
proof fn lemma_pair(pair: Seq<char>)
    ensures
        log::sanitized_pair(log::sanitized_pair(pair)) == log::sanitized_pair(pair),
        (forall|i: int| 0 <= i < pair.len() ==> pair[i] != '&') ==> (forall|i: int|
            0 <= i < log::sanitized_pair(pair).len() ==> log::sanitized_pair(pair)[i] != '&'),
{
    lemma_marker();
    log::lemma_find_char(pair, '=', 0);
    let e = log::find_char(pair, '=', 0);
    let clean = log::sanitized_pair(pair);
    if e < pair.len() && log::sensitive_name(pair.take(e)) {
        assert(clean[e] == '=');
        assert forall|j: int| 0 <= j < e implies clean[j] != '=' by {
            assert(clean[j] == pair[j]);
        }
        log::lemma_find_char_is(clean, '=', 0, e);
        assert(clean.take(e) =~= pair.take(e));
    }
}

proof fn lemma_query_again(query: Seq<char>, from: int, before: Seq<char>)
    requires
        0 <= from <= query.len(),
    ensures
        log::sanitized_query(before + log::sanitized_query(query, from), before.len() as int)
            == log::sanitized_query(query, from),
    decreases query.len() - from,
{
    lemma_marker();
    log::lemma_find_char(query, '&', from);
    let a = log::find_char(query, '&', from);
    let whole = before + log::sanitized_query(query, from);
    let n = before.len() as int;
    if a >= query.len() {
        let pair = query.skip(from);
        let clean = log::sanitized_pair(pair);
        lemma_pair(pair);
        assert forall|j: int| n <= j < whole.len() implies whole[j] != '&' by {
            assert(whole[j] == clean[j - n]);
        }
        log::lemma_find_char_is(whole, '&', n, whole.len() as int);
        assert(whole.skip(n) =~= clean);
    } else {
        let pair = query.subrange(from, a);
        let clean = log::sanitized_pair(pair);
        let rest = log::sanitized_query(query, a + 1);
        lemma_pair(pair);
        let at = n + clean.len();
        assert(whole =~= before + clean + "&"@ + rest);
        assert forall|j: int| n <= j < at implies whole[j] != '&' by {
            assert(whole[j] == clean[j - n]);
        }
        assert(whole[at] == '&');
        log::lemma_find_char_is(whole, '&', n, at);
        assert(whole.subrange(n, at) =~= clean);
        let longer = before + clean + "&"@;
        lemma_query_again(query, a + 1, longer);
        assert(longer + rest =~= whole);
    }
}

/// Sanitizing a URL that was sanitized changes nothing.
pub proof fn law_sanitizing_twice_is_sanitizing_once(url: Seq<char>)
    ensures
        log::sanitized(log::sanitized(url)) == log::sanitized(url),
{
    log::lemma_find_char(url, '?', 0);
    let q = log::find_char(url, '?', 0);
    if q < url.len() {
        let base = url.take(q + 1);
        let clean = log::sanitized(url);
        assert forall|j: int| 0 <= j < q implies clean[j] != '?' by {
            assert(clean[j] == url[j]);
        }
        assert(clean[q] == '?');
        log::lemma_find_char_is(clean, '?', 0, q);
        assert(clean.take(q + 1) =~= base);
        lemma_query_again(url, q + 1, base);
    }
}

/// A query is sanitized pair by pair: what stands before a separator and what
/// stands behind it do not influence each other.
proof fn lemma_query_splits(head: Seq<char>, tail: Seq<char>, from: int)
    requires
        0 <= from <= head.len(),
        head.len() > 0,
        head.last() == '&',
    ensures
        log::sanitized_query(head + tail, from) == log::sanitized_query(head, from)
            + log::sanitized_query(head + tail, head.len() as int),
    decreases head.len() - from,
{
    lemma_marker();
    let whole = head + tail;
    let n = head.len() as int;
    if from == n {
        log::lemma_find_char(head, '&', n);
        assert(head.skip(n) =~= Seq::<char>::empty());
        assert(log::sanitized_pair(head.skip(n)) =~= Seq::<char>::empty());
        assert(log::sanitized_query(head, n) =~= Seq::<char>::empty());
        assert(log::sanitized_query(head, from) + log::sanitized_query(whole, n)
            =~= log::sanitized_query(whole, n));
    } else {
        log::lemma_find_char(head, '&', from);
        let a = log::find_char(head, '&', from);
        assert(a < n) by {
            if a >= n {
                assert(head[n - 1] != '&');
            }
        }
        assert forall|j: int| from <= j < a implies whole[j] != '&' by {
            assert(whole[j] == head[j]);
        }
        assert(whole[a] == '&');
        log::lemma_find_char_is(whole, '&', from, a);
        assert(whole.subrange(from, a) =~= head.subrange(from, a));
        lemma_query_splits(head, tail, a + 1);
        let pair = log::sanitized_pair(head.subrange(from, a));
        assert(pair + "&"@ + (log::sanitized_query(head, a + 1) + log::sanitized_query(whole, n))
            =~= (pair + "&"@ + log::sanitized_query(head, a + 1)) + log::sanitized_query(whole, n));
    }
}

/// From a position on, only what stands there matters.
proof fn lemma_query_shift(head: Seq<char>, tail: Seq<char>, from: int)
    requires
        0 <= from <= tail.len(),
    ensures
        log::sanitized_query(head + tail, head.len() + from) == log::sanitized_query(tail, from),
    decreases tail.len() - from,
{
    let whole = head + tail;
    let n = head.len() as int;
    log::lemma_find_char(tail, '&', from);
    let a = log::find_char(tail, '&', from);
    assert forall|j: int| n + from <= j < n + a implies whole[j] != '&' by {
        assert(whole[j] == tail[j - n]);
    }
    if a < tail.len() {
        assert(whole[n + a] == tail[a]);
    }
    log::lemma_find_char_is(whole, '&', n + from, n + a);
    if a >= tail.len() {
        assert(whole.skip(n + from) =~= tail.skip(from));
    } else {
        assert(whole.subrange(n + from, n + a) =~= tail.subrange(from, a));
        lemma_query_shift(head, tail, a + 1);
    }
}

/// The value of a parameter with a sensitive name does not show in a sanitized
/// URL: two URLs that differ only in it become the same. `before` is what comes
/// before the parameter, up to a separator; `after` is what follows the value.
pub proof fn law_sanitized_urls_do_not_show_secrets(
    before: Seq<char>,
    name: Seq<char>,
    secret: Seq<char>,
    other: Seq<char>,
    after: Seq<char>,
)
    requires
        before.len() > 0,
        before.contains('?'),
        before.last() == '&' || (before.last() == '?' && log::find_char(before, '?', 0)
            == before.len() - 1),
        log::sensitive_name(name),
        !name.contains('=') && !name.contains('&'),
        !secret.contains('&'),
        !other.contains('&'),
        after.len() == 0 || after[0] == '&',
    ensures
        log::sanitized(before + name + "="@ + secret + after) == log::sanitized(
            before + name + "="@ + other + after,
        ),
{
    lemma_marker();
    lemma_url_without(before, name, secret, after);
    lemma_url_without(before, name, other, after);
}

/// What a URL becomes, without its secret value.
spec fn url_without(before: Seq<char>, name: Seq<char>, after: Seq<char>) -> Seq<char> {
    let q = log::find_char(before, '?', 0);
    before.take(q + 1) + ((if before.last() == '&' {
        log::sanitized_query(before, q + 1)
    } else {
        Seq::empty()
    }) + (name + "=REDACTED"@ + (if after.len() == 0 {
        Seq::empty()
    } else {
        "&"@ + log::sanitized_query(after, 1)
    })))
}

proof fn lemma_url_without(
    before: Seq<char>,
    name: Seq<char>,
    secret: Seq<char>,
    after: Seq<char>,
)
    requires
        before.len() > 0,
        before.contains('?'),
        before.last() == '&' || (before.last() == '?' && log::find_char(before, '?', 0)
            == before.len() - 1),
        log::sensitive_name(name),
        !name.contains('=') && !name.contains('&'),
        !secret.contains('&'),
        after.len() == 0 || after[0] == '&',
    ensures
        log::sanitized(before + name + "="@ + secret + after) == url_without(before, name, after),
{
    lemma_marker();
    let pair = name + "="@ + secret;
    let tail = pair + after;
    let url = before + name + "="@ + secret + after;
    assert(url =~= before + tail);
    let n = before.len() as int;
    log::lemma_find_char(before, '?', 0);
    let q = log::find_char(before, '?', 0);
    assert(q < n) by {
        let k = choose|k: int| 0 <= k < before.len() && before[k] == '?';
        if q >= n {
            assert(before[k] != '?');
        }
    }
    assert forall|j: int| 0 <= j < q implies url[j] != '?' by {
        assert(url[j] == before[j]);
    }
    assert(url[q] == before[q]);
    log::lemma_find_char_is(url, '?', 0, q);
    assert(url.take(q + 1) =~= before.take(q + 1));
    // the pair itself
    let e = name.len() as int;
    assert forall|j: int| 0 <= j < e implies pair[j] != '=' by {
        assert(name.contains(name[j]));
        assert(pair[j] == name[j]);
    }
    assert(pair[e] == '=');
    log::lemma_find_char_is(pair, '=', 0, e);
    assert(pair.take(e) =~= name);
    assert(log::sanitized_pair(pair) == name + "=REDACTED"@);
    // where the pair ends
    let m = pair.len() as int;
    assert forall|j: int| 0 <= j < m implies tail[j] != '&' by {
        assert(tail[j] == pair[j]);
        if j < e {
            assert(name.contains(name[j]));
        } else if j > e {
            assert(pair[j] == secret[j - e - 1]);
            assert(secret.contains(secret[j - e - 1]));
        }
    }
    if after.len() > 0 {
        assert(tail[m] == '&');
    }
    log::lemma_find_char_is(tail, '&', 0, m);
    if after.len() == 0 {
        assert(tail.skip(0) =~= pair);
        assert(log::sanitized_query(tail, 0) =~= name + "=REDACTED"@ + Seq::<char>::empty());
    } else {
        assert(tail.subrange(0, m) =~= pair);
        lemma_query_shift(pair, after, 1);
        assert(log::sanitized_query(tail, 0) =~= name + "=REDACTED"@ + ("&"@
            + log::sanitized_query(after, 1)));
    }
    lemma_query_shift(before, tail, 0);
    if before.last() == '&' {
        lemma_query_splits(before, tail, q + 1);
    } else {
        assert(q + 1 == n);
        assert(Seq::<char>::empty() + log::sanitized_query(tail, 0) =~= log::sanitized_query(
            tail,
            0,
        ));
    }
}

// ---------------------------------------------------------------------------
// Free text
// ---------------------------------------------------------------------------

proof fn lemma_token_end_is(s: Seq<char>, from: int, at: int)
    requires
        0 <= from <= at <= s.len(),
        forall|j: int| from <= j < at ==> log::token_char(#[trigger] s[j]),
        at < s.len() ==> !log::token_char(s[at]),
    ensures
        log::token_end(s, from) == at,
    decreases at - from,
{
    if from < at {
        assert(log::token_char(s[from]));
        lemma_token_end_is(s, from + 1, at);
    }
}

proof fn lemma_value_end_is(s: Seq<char>, from: int, at: int)
    requires
        0 <= from <= at <= s.len(),
        forall|j: int| from <= j < at ==> !log::value_delim(#[trigger] s[j]),
        at < s.len() ==> log::value_delim(s[at]),
    ensures
        log::value_end(s, from) == at,
    decreases at - from,
{
    if from < at {
        assert(!log::value_delim(s[from]));
        lemma_value_end_is(s, from + 1, at);
    }
}

/// What ends a value starts what is redacted behind it.
proof fn lemma_redacted_after_value(s: Seq<char>, from: int)
    requires
        0 <= from <= s.len(),
        from < s.len() ==> log::value_delim(s[from]),
    ensures
        from == s.len() ==> log::redacted(s, from) == Seq::<char>::empty(),
        from < s.len() ==> log::redacted(s, from).len() > 0 && log::redacted(s, from)[0] == s[from],
{
    lemma_token_end_is(s, from, from);
    assert(s.subrange(from, from) =~= Seq::<char>::empty());
}

proof fn lemma_redacted_again(s: Seq<char>, from: int, before: Seq<char>)
    requires
        0 <= from <= s.len(),
    ensures
        log::redacted(before + log::redacted(s, from), before.len() as int) == log::redacted(
            s,
            from,
        ),
    decreases s.len() - from,
{
    lemma_marker();
    log::lemma_token_end(s, from);
    let e = log::token_end(s, from);
    let token = s.subrange(from, e);
    let whole = before + log::redacted(s, from);
    let n = before.len() as int;
    let at = n + token.len();
    if e >= s.len() {
        assert forall|j: int| n <= j < at implies log::token_char(#[trigger] whole[j]) by {
            assert(whole[j] == s[from + j - n]);
        }
        lemma_token_end_is(whole, n, at);
        assert(whole.subrange(n, at) =~= token);
    } else if s[e] == '=' && log::sensitive_name(token) {
        log::lemma_value_end(s, e + 1);
        let v = log::value_end(s, e + 1);
        let rest = log::redacted(s, v);
        let longer = before + token + "=REDACTED"@;
        assert(whole =~= longer + rest);
        assert forall|j: int| n <= j < at implies log::token_char(#[trigger] whole[j]) by {
            assert(whole[j] == s[from + j - n]);
        }
        assert(whole[at] == '=');
        lemma_token_end_is(whole, n, at);
        assert(whole.subrange(n, at) =~= token);
        lemma_redacted_after_value(s, v);
        assert forall|j: int| at + 1 <= j < longer.len() implies !log::value_delim(
            #[trigger] whole[j],
        ) by {
            assert(whole[j] == "=REDACTED"@[j - at]);
            assert(log::token_char("=REDACTED"@[j - at]));
        }
        if longer.len() < whole.len() {
            assert(whole[longer.len() as int] == rest[0]);
        }
        lemma_value_end_is(whole, at + 1, longer.len() as int);
        lemma_redacted_again(s, v, longer);
    } else {
        let rest = log::redacted(s, e + 1);
        let longer = before + token + seq![s[e]];
        assert(whole =~= longer + rest);
        assert forall|j: int| n <= j < at implies log::token_char(#[trigger] whole[j]) by {
            assert(whole[j] == s[from + j - n]);
        }
        assert(whole[at] == s[e]);
        lemma_token_end_is(whole, n, at);
        assert(whole.subrange(n, at) =~= token);
        lemma_redacted_again(s, e + 1, longer);
    }
}

/// Redacting text that was redacted changes nothing.
pub proof fn law_redacting_twice_is_redacting_once(text: Seq<char>)
    ensures
        log::redacted(log::redacted(text, 0), 0) == log::redacted(text, 0),
{
    lemma_redacted_again(text, 0, Seq::empty());
    assert(Seq::<char>::empty() + log::redacted(text, 0) =~= log::redacted(text, 0));
}

/// From a position on, only what stands there matters.
proof fn lemma_redacted_shift(head: Seq<char>, tail: Seq<char>, from: int)
    requires
        0 <= from <= tail.len(),
    ensures
        log::redacted(head + tail, head.len() + from) == log::redacted(tail, from),
    decreases tail.len() - from,
{
    let whole = head + tail;
    let n = head.len() as int;
    log::lemma_token_end(tail, from);
    let e = log::token_end(tail, from);
    assert forall|j: int| n + from <= j < n + e implies log::token_char(#[trigger] whole[j]) by {
        assert(whole[j] == tail[j - n]);
    }
    if e < tail.len() {
        assert(whole[n + e] == tail[e]);
    }
    lemma_token_end_is(whole, n + from, n + e);
    assert(whole.subrange(n + from, n + e) =~= tail.subrange(from, e));
    if e < tail.len() {
        if tail[e] == '=' && log::sensitive_name(tail.subrange(from, e)) {
            log::lemma_value_end(tail, e + 1);
            let v = log::value_end(tail, e + 1);
            assert forall|j: int| n + e + 1 <= j < n + v implies !log::value_delim(
                #[trigger] whole[j],
            ) by {
                assert(whole[j] == tail[j - n]);
            }
            if v < tail.len() {
                assert(whole[n + v] == tail[v]);
            }
            lemma_value_end_is(whole, n + e + 1, n + v);
            lemma_redacted_shift(head, tail, v);
        } else {
            lemma_redacted_shift(head, tail, e + 1);
        }
    }
}

/// A value that is read from before a secret ends where the secret does.
proof fn lemma_value_runs_on(
    before: Seq<char>,
    name: Seq<char>,
    secret: Seq<char>,
    after: Seq<char>,
    from: int,
)
    requires
        0 <= from <= before.len(),
        forall|j: int| from <= j < before.len() ==> !log::value_delim(#[trigger] before[j]),
        forall|i: int| 0 <= i < name.len() ==> log::token_char(#[trigger] name[i]),
        forall|i: int| 0 <= i < secret.len() ==> !log::value_delim(#[trigger] secret[i]),
        after.len() == 0 || log::value_delim(after[0]),
    ensures
        log::value_end(before + (name + "="@ + secret) + after, from) == before.len() + name.len()
            + 1 + secret.len(),
{
    lemma_marker();
    let pair = name + "="@ + secret;
    let whole = before + pair + after;
    let n = before.len() as int;
    let end = n + pair.len();
    assert forall|j: int| from <= j < end implies !log::value_delim(#[trigger] whole[j]) by {
        if j < n {
            assert(whole[j] == before[j]);
        } else if j < n + name.len() {
            assert(whole[j] == name[j - n]);
        } else if j > n + name.len() {
            assert(whole[j] == secret[j - n - name.len() - 1]);
        } else {
            assert(whole[j] == '=');
        }
    }
    if end < whole.len() {
        assert(whole[end] == after[0]);
    }
    lemma_value_end_is(whole, from, end);
}

/// From any position before a secret on, redacting does not depend on it.
proof fn lemma_same_redaction(
    before: Seq<char>,
    name: Seq<char>,
    secret: Seq<char>,
    other: Seq<char>,
    after: Seq<char>,
    from: int,
)
    requires
        0 <= from <= before.len(),
        before.len() == 0 || !log::token_char(before.last()),
        log::sensitive_name(name),
        forall|i: int| 0 <= i < name.len() ==> log::token_char(#[trigger] name[i]),
        forall|i: int| 0 <= i < secret.len() ==> !log::value_delim(#[trigger] secret[i]),
        forall|i: int| 0 <= i < other.len() ==> !log::value_delim(#[trigger] other[i]),
        after.len() == 0 || log::value_delim(after[0]),
    ensures
        log::redacted(before + (name + "="@ + secret) + after, from) == log::redacted(
            before + (name + "="@ + other) + after,
            from,
        ),
    decreases before.len() - from,
{
    lemma_marker();
    let a = before + (name + "="@ + secret) + after;
    let b = before + (name + "="@ + other) + after;
    let n = before.len() as int;
    lemma_redacted_shift(before + (name + "="@ + secret), after, 0);
    lemma_redacted_shift(before + (name + "="@ + other), after, 0);
    let e = if from == n {
        n + name.len()
    } else {
        log::lemma_token_end(before, from);
        log::token_end(before, from)
    };
    if from < n {
        assert(e < n) by {
            if e >= n {
                assert(log::token_char(before[n - 1]));
            }
        }
    }
    assert forall|j: int| from <= j < e implies log::token_char(#[trigger] a[j])
        && log::token_char(#[trigger] b[j]) by {
        if from == n {
            assert(a[j] == name[j - n] && b[j] == name[j - n]);
        } else {
            assert(a[j] == before[j] && b[j] == before[j]);
        }
    }
    if from == n {
        assert(a[e] == '=' && b[e] == '=');
    } else {
        assert(a[e] == before[e] && b[e] == before[e]);
    }
    lemma_token_end_is(a, from, e);
    lemma_token_end_is(b, from, e);
    assert(a.subrange(from, e) =~= b.subrange(from, e));
    if from == n {
        assert(a.subrange(from, e) =~= name);
        lemma_value_from_name(before, name, secret, after);
        lemma_value_from_name(before, name, other, after);
    } else if before[e] == '=' && log::sensitive_name(a.subrange(from, e)) {
        log::lemma_value_end(before, e + 1);
        let v = log::value_end(before, e + 1);
        if v < n {
            assert forall|j: int| e + 1 <= j < v implies !log::value_delim(#[trigger] a[j])
                && !log::value_delim(#[trigger] b[j]) by {
                assert(a[j] == before[j] && b[j] == before[j]);
            }
            assert(a[v] == before[v] && b[v] == before[v]);
            lemma_value_end_is(a, e + 1, v);
            lemma_value_end_is(b, e + 1, v);
            lemma_same_redaction(before, name, secret, other, after, v);
        } else {
            lemma_value_runs_on(before, name, secret, after, e + 1);
            lemma_value_runs_on(before, name, other, after, e + 1);
        }
    } else {
        lemma_same_redaction(before, name, secret, other, after, e + 1);
    }
}

/// The value of a secret ends where the secret does.
proof fn lemma_value_from_name(
    before: Seq<char>,
    name: Seq<char>,
    secret: Seq<char>,
    after: Seq<char>,
)
    requires
        forall|i: int| 0 <= i < secret.len() ==> !log::value_delim(#[trigger] secret[i]),
        after.len() == 0 || log::value_delim(after[0]),
    ensures
        log::value_end(
            before + (name + "="@ + secret) + after,
            before.len() as int + name.len() + 1,
        ) == before.len() + name.len() + 1 + secret.len(),
{
    lemma_marker();
    let whole = before + (name + "="@ + secret) + after;
    let from = before.len() as int + name.len() + 1;
    let end = from + secret.len();
    assert forall|j: int| from <= j < end implies !log::value_delim(#[trigger] whole[j]) by {
        assert(whole[j] == secret[j - from]);
    }
    if end < whole.len() {
        assert(whole[end] == after[0]);
    }
    lemma_value_end_is(whole, from, end);
}

/// The value behind a sensitive name does not show in redacted text, wherever
/// the name begins: two texts that differ only in it become the same.
pub proof fn law_redacted_text_does_not_show_secrets(
    before: Seq<char>,
    name: Seq<char>,
    secret: Seq<char>,
    other: Seq<char>,
    after: Seq<char>,
)
    requires
        before.len() == 0 || !log::token_char(before.last()),
        log::sensitive_name(name),
        forall|i: int| 0 <= i < name.len() ==> log::token_char(#[trigger] name[i]),
        forall|i: int| 0 <= i < secret.len() ==> !log::value_delim(#[trigger] secret[i]),
        forall|i: int| 0 <= i < other.len() ==> !log::value_delim(#[trigger] other[i]),
        after.len() == 0 || log::value_delim(after[0]),
    ensures
        log::redacted(before + name + "="@ + secret + after, 0) == log::redacted(
            before + name + "="@ + other + after,
            0,
        ),
{
    lemma_same_redaction(before, name, secret, other, after, 0);
    assert(before + name + "="@ + secret + after =~= before + (name + "="@ + secret) + after);
    assert(before + name + "="@ + other + after =~= before + (name + "="@ + other) + after);
}

// ---------------------------------------------------------------------------
// Which names, and what stays
// ---------------------------------------------------------------------------

/// A name that holds one of the marker words is sensitive, whatever stands
/// around the word.
pub proof fn law_marked_names_are_sensitive(a: Seq<char>, b: Seq<char>)
    ensures
        log::sensitive_name(a + "sig"@ + b),
        log::sensitive_name(a + "credential"@ + b),
        log::sensitive_name(a + "token"@ + b),
        log::sensitive_name(a + "secret"@ + b),
        log::sensitive_name(a + "password"@ + b),
        log::sensitive_name(a + "accesskey"@ + b),
{
    reveal_strlit("sig");
    reveal_strlit("credential");
    reveal_strlit("token");
    reveal_strlit("secret");
    reveal_strlit("password");
    reveal_strlit("accesskey");
    lemma_marked(a, "sig"@, b);
    lemma_marked(a, "credential"@, b);
    lemma_marked(a, "token"@, b);
    lemma_marked(a, "secret"@, b);
    lemma_marked(a, "password"@, b);
    lemma_marked(a, "accesskey"@, b);
}

/// A word in lower case stands where it stands in the lower-case form too.
proof fn lemma_marked(a: Seq<char>, word: Seq<char>, b: Seq<char>)
    requires
        forall|i: int| 0 <= i < word.len() ==> log::ascii_lower(#[trigger] word[i]) == word[i],
    ensures
        log::contains_text(log::lower_text(a + word + b), word),
{
    let k = log::lower_text(a + word + b);
    let n = a.len() as int;
    assert forall|i: int| 0 <= i < word.len() implies k[n + i] == word[i] by {
        assert((a + word + b)[n + i] == word[i]);
    }
    assert(k.subrange(n, n + word.len()) =~= word);
    assert(log::stands_at(k, word, n));
}

/// Case does not matter: a name is as sensitive as its lower-case form, in
/// which exactly the ASCII capitals are replaced.
pub proof fn law_case_hides_no_secret(name: Seq<char>, i: int)
    ensures
        log::sensitive_name(name) <==> log::sensitive_name(log::lower_text(name)),
        log::lower_text(name).len() == name.len(),
        0 <= i < name.len() && 'A' <= name[i] <= 'Z' ==> log::lower_text(name)[i] as u32
            == name[i] as u32 + 32,
        0 <= i < name.len() && !('A' <= name[i] <= 'Z') ==> log::lower_text(name)[i] == name[i],
{
    assert(log::lower_text(log::lower_text(name)) =~= log::lower_text(name));
}

/// A name in which none of the marker words stands, in whatever case, is not
/// sensitive.
pub proof fn law_other_names_are_not_sensitive(name: Seq<char>)
    requires
        forall|i: int, j: int|
            #![trigger log::lower_text(name).subrange(i, j)]
            0 <= i <= j <= name.len() ==> ({
                let word = log::lower_text(name).subrange(i, j);
                &&& word != "sig"@
                &&& word != "credential"@
                &&& word != "token"@
                &&& word != "secret"@
                &&& word != "password"@
                &&& word != "accesskey"@
            }),
    ensures
        !log::sensitive_name(name),
{
}

/// A parameter with a sensitive name loses its value and keeps its name; any
/// other, and one without a value, stays as it is.
pub proof fn law_parameters_keep_or_lose_their_value(name: Seq<char>, value: Seq<char>)
    requires
        !name.contains('='),
    ensures
        log::sensitive_name(name) ==> log::sanitized_pair(name + "="@ + value) == name
            + "=REDACTED"@,
        !log::sensitive_name(name) ==> log::sanitized_pair(name + "="@ + value) == name + "="@
            + value,
        log::sanitized_pair(name) == name,
{
    lemma_marker();
    let pair = name + "="@ + value;
    let n = name.len() as int;
    assert forall|j: int| 0 <= j < n implies name[j] != '=' by {
        assert(name.contains(name[j]));
    }
    assert forall|j: int| 0 <= j < n implies pair[j] != '=' by {
        assert(pair[j] == name[j]);
    }
    assert(pair[n] == '=');
    log::lemma_find_char_is(pair, '=', 0, n);
    log::lemma_find_char_is(name, '=', 0, n);
    assert(pair.take(n) =~= name);
}

/// A URL is sanitized parameter by parameter, and nothing but parameters is
/// touched: what stands before the query, the separators and the order stay.
pub proof fn law_urls_are_sanitized_by_parameter(
    base: Seq<char>,
    pair: Seq<char>,
    rest: Seq<char>,
)
    requires
        !base.contains('?'),
        !pair.contains('&'),
    ensures
        log::sanitized(base) == base,
        log::sanitized(base + "?"@ + pair) == base + "?"@ + log::sanitized_pair(pair),
        log::sanitized(base + "?"@ + pair + "&"@ + rest) == base + "?"@ + log::sanitized_pair(pair)
            + "&"@ + log::sanitized_query(rest, 0),
{
    lemma_marker();
    let n = base.len() as int;
    assert forall|j: int| 0 <= j < n implies base[j] != '?' by {
        assert(base.contains(base[j]));
    }
    assert forall|j: int| 0 <= j < pair.len() implies pair[j] != '&' by {
        assert(pair.contains(pair[j]));
    }
    log::lemma_find_char_is(base, '?', 0, n);
    let short = base + "?"@ + pair;
    assert forall|j: int| 0 <= j < n implies short[j] != '?' by {
        assert(short[j] == base[j]);
    }
    log::lemma_find_char_is(short, '?', 0, n);
    assert forall|j: int| n + 1 <= j < short.len() implies short[j] != '&' by {
        assert(short[j] == pair[j - n - 1]);
    }
    log::lemma_find_char_is(short, '&', n + 1, short.len() as int);
    assert(short.take(n + 1) =~= base + "?"@);
    assert(short.skip(n + 1) =~= pair);
    let long = base + "?"@ + pair + "&"@ + rest;
    let a = n + 1 + pair.len() as int;
    assert forall|j: int| 0 <= j < n implies long[j] != '?' by {
        assert(long[j] == base[j]);
    }
    log::lemma_find_char_is(long, '?', 0, n);
    assert forall|j: int| n + 1 <= j < a implies long[j] != '&' by {
        assert(long[j] == pair[j - n - 1]);
    }
    log::lemma_find_char_is(long, '&', n + 1, a);
    assert(long.take(n + 1) =~= base + "?"@);
    assert(long.subrange(n + 1, a) =~= pair);
    let head = base + "?"@ + pair + "&"@;
    lemma_query_shift(head, rest, 0);
    assert(long =~= head + rest);
    assert(log::sanitized(long) =~= base + "?"@ + log::sanitized_pair(pair) + "&"@
        + log::sanitized_query(rest, 0));
}

/// Text without an equals sign has no secret and stays as it is.
pub proof fn law_plain_text_is_kept(text: Seq<char>)
    requires
        !text.contains('='),
    ensures
        log::redacted(text, 0) == text,
{
    lemma_plain(text, 0);
    assert(text.skip(0) =~= text);
}

proof fn lemma_plain(text: Seq<char>, from: int)
    requires
        !text.contains('='),
        0 <= from <= text.len(),
    ensures
        log::redacted(text, from) == text.skip(from),
    decreases text.len() - from,
{
    log::lemma_token_end(text, from);
    let e = log::token_end(text, from);
    if e < text.len() {
        assert(text.contains(text[e]));
        lemma_plain(text, e + 1);
        assert(text.skip(from) =~= text.subrange(from, e) + seq![text[e]] + text.skip(e + 1));
    } else {
        assert(text.subrange(from, e) =~= text.skip(from));
    }
}

/// In free text the value behind a sensitive name is replaced, up to the next
/// delimiter, and the name stays; behind any other name the value stays. What
/// follows is treated on its own.
pub proof fn law_secrets_are_cut_out(name: Seq<char>, value: Seq<char>, rest: Seq<char>)
    requires
        forall|i: int| 0 <= i < name.len() ==> log::token_char(#[trigger] name[i]),
        forall|i: int| 0 <= i < value.len() ==> !log::value_delim(#[trigger] value[i]),
        rest.len() == 0 || log::value_delim(rest[0]),
    ensures
        log::sensitive_name(name) ==> log::redacted(name + "="@ + value + rest, 0) == name
            + "=REDACTED"@ + log::redacted(rest, 0),
        !log::sensitive_name(name) ==> log::redacted(name + "="@ + value + rest, 0) == name + "="@
            + log::redacted(value + rest, 0),
{
    lemma_marker();
    let whole = name + "="@ + value + rest;
    let n = name.len() as int;
    assert forall|j: int| 0 <= j < n implies log::token_char(#[trigger] whole[j]) by {
        assert(whole[j] == name[j]);
    }
    assert(whole[n] == '=');
    lemma_token_end_is(whole, 0, n);
    assert(whole.subrange(0, n) =~= name);
    if log::sensitive_name(name) {
        let v = n + 1 + value.len() as int;
        assert forall|j: int| n + 1 <= j < v implies !log::value_delim(#[trigger] whole[j]) by {
            assert(whole[j] == value[j - n - 1]);
        }
        if v < whole.len() {
            assert(whole[v] == rest[0]);
        }
        lemma_value_end_is(whole, n + 1, v);
        let head = name + "="@ + value;
        lemma_redacted_shift(head, rest, 0);
        assert(whole =~= head + rest);
    } else {
        let head = name + "="@;
        lemma_redacted_shift(head, value + rest, 0);
        assert(whole =~= head + (value + rest));
        assert(seq!['='] =~= "="@);
    }
}

/// The characters that a name in free text is made of, and those that end a
/// value: blanks, and what sentences, lists and markup set around one.
pub proof fn law_names_and_values_end(c: char)
    ensures
        log::token_char(c) <==> ('0' <= c && c <= '9') || ('A' <= c && c <= 'Z') || ('a' <= c && c
            <= 'z') || c == '_' || c == '-',
        c == ' ' || c == '\t' || c == '\n' || c == '\r' ==> log::white_space(c),
        log::value_delim(c) <==> log::white_space(c) || c == '&' || c == '"' || c == '\'' || c == ','
            || c == ';' || c == ')' || c == '}' || c == ']' || c == '<' || c == '>' || c == '|',
        log::white_space(c) && (c as u32) < 128 ==> c == ' ' || (9 <= c as u32 && c as u32 <= 13),
        !(log::token_char(c) && log::value_delim(c)),
{
}

} // verus!
