//! The pairing cookie: how it is written, and how it is found in a request.

use crate::text::from_chars;
use crate::text::matches_at;
use crate::text::occurs_at;
use crate::text::to_chars;
use vstd::prelude::*;
use vstd::string::StringExecFns;

verus! {

/// The name of the cookie that a paired browser holds.
pub open spec fn cookie_name() -> Seq<char> {
    "micyou_pair"@
}

/// The position of the first `mark` in `text`, or the length of `text`.
pub open spec fn find(text: Seq<char>, mark: char) -> nat
    decreases text.len(),
{
    if text.len() == 0 || text[0] == mark {
        0
    } else {
        1 + find(text.drop_first(), mark)
    }
}

/// The pieces of `text` between the marks.
pub open spec fn pieces(text: Seq<char>, mark: char) -> Seq<Seq<char>>
    decreases text.len(),
{
    let at = find(text, mark) as int;
    if at >= text.len() {
        seq![text]
    } else {
        seq![text.take(at)] + pieces(text.skip(at + 1), mark)
    }
}

/// Whether `c` is a space or a tab, the only white space of a readable header.
pub open spec fn blank(c: char) -> bool {
    c == ' ' || c == '\t'
}

/// `text` without its leading blanks.
pub open spec fn trim_start(text: Seq<char>) -> Seq<char>
    decreases text.len(),
{
    if text.len() > 0 && blank(text[0]) {
        trim_start(text.drop_first())
    } else {
        text
    }
}

/// `text` without its trailing blanks.
pub open spec fn trim_end(text: Seq<char>) -> Seq<char>
    decreases text.len(),
{
    if text.len() > 0 && blank(text.last()) {
        trim_end(text.drop_last())
    } else {
        text
    }
}

/// `text` without leading and trailing blanks.
pub open spec fn trim(text: Seq<char>) -> Seq<char> {
    trim_end(trim_start(text))
}

/// What stands before the first `=` of a cookie.
pub open spec fn key(cookie: Seq<char>) -> Seq<char> {
    cookie.take(find(cookie, '=') as int)
}

/// What stands after the first `=` of a cookie, if it has one.
pub open spec fn value(cookie: Seq<char>) -> Option<Seq<char>> {
    let at = find(cookie, '=') as int;
    if at < cookie.len() {
        Some(cookie.skip(at + 1))
    } else {
        None
    }
}

/// The value of the first pairing cookie in a list of cookies.
pub open spec fn first_pairing_value(cookies: Seq<Seq<char>>) -> Option<Seq<char>>
    decreases cookies.len(),
{
    if cookies.len() == 0 {
        None
    } else if key(trim(cookies[0])) == cookie_name() {
        value(trim(cookies[0]))
    } else {
        first_pairing_value(cookies.drop_first())
    }
}

/// The value of the pairing cookie in the text of a `Cookie` header.
pub open spec fn pairing_value(header: Seq<char>) -> Option<Seq<char>> {
    first_pairing_value(pieces(header, ';'))
}

/// The `Set-Cookie` text that hands `token` to a browser.
pub open spec fn set_cookie_text(token: Seq<char>) -> Seq<char> {
    "micyou_pair="@ + token + "; Max-Age=2592000; Path=/; HttpOnly; Secure; SameSite=Strict"@
}

/// Whether a token survives in a cookie: it has no `;` and neither begins nor
/// ends with a blank.
pub open spec fn cookie_safe(token: Seq<char>) -> bool {
    &&& !token.contains(';')
    &&& token.len() > 0 ==> !blank(token[0]) && !blank(token.last())
}

proof fn lemma_find_bounds(text: Seq<char>, mark: char)
    ensures
        find(text, mark) <= text.len(),
        find(text, mark) < text.len() ==> text[find(text, mark) as int] == mark,
        forall|i: int| 0 <= i < find(text, mark) ==> text[i] != mark,
    decreases text.len(),
{
    if text.len() > 0 && text[0] != mark {
        lemma_find_bounds(text.drop_first(), mark);
        let rest = find(text.drop_first(), mark);
        assert forall|i: int| 0 <= i < find(text, mark) implies text[i] != mark by {
            if i > 0 {
                assert(text.drop_first()[i - 1] == text[i]);
            }
        }
    }
}

/// `find` gives `at` where the first `mark` stands at `at`, or nowhere.
proof fn lemma_find_is(text: Seq<char>, mark: char, at: int)
    requires
        0 <= at <= text.len(),
        at < text.len() ==> text[at] == mark,
        forall|i: int| 0 <= i < at ==> text[i] != mark,
    ensures
        find(text, mark) == at,
{
    lemma_find_bounds(text, mark);
    let found = find(text, mark) as int;
    if found < at {
        assert(text[found] != mark);
    }
}

/// The first `mark` at or after `from` and before `to`; `to` if there is none.
fn find_between(chars: &Vec<char>, from: usize, to: usize, mark: char) -> (at: usize)
    requires
        from <= to <= chars@.len(),
    ensures
        from <= at <= to,
        at - from == find(chars@.subrange(from as int, to as int), mark),
{
    let ghost range = chars@.subrange(from as int, to as int);
    let mut at: usize = from;
    while at < to && chars[at] != mark
        invariant
            from <= at <= to <= chars@.len(),
            range == chars@.subrange(from as int, to as int),
            forall|i: int| 0 <= i < at - from ==> range[i] != mark,
        decreases to - at,
    {
        assert(range[at - from] == chars@[at as int]);
        at = at + 1;
    }
    proof {
        lemma_find_is(range, mark, at - from);
    }
    at
}

/// The bounds of a range without its leading and trailing blanks.
fn trim_between(chars: &Vec<char>, from: usize, to: usize) -> (bounds: (usize, usize))
    requires
        from <= to <= chars@.len(),
    ensures
        from <= bounds.0 <= bounds.1 <= to,
        chars@.subrange(bounds.0 as int, bounds.1 as int) == trim(
            chars@.subrange(from as int, to as int),
        ),
{
    let ghost range = chars@.subrange(from as int, to as int);
    let mut start: usize = from;
    while start < to && (chars[start] == ' ' || chars[start] == '\t')
        invariant
            from <= start <= to <= chars@.len(),
            trim_start(range) == trim_start(chars@.subrange(start as int, to as int)),
        decreases to - start,
    {
        assert(chars@.subrange(start as int, to as int).drop_first() == chars@.subrange(
            start + 1,
            to as int,
        ));
        start = start + 1;
    }
    let ghost rest = chars@.subrange(start as int, to as int);
    assert(trim_start(range) == rest);
    let mut end: usize = to;
    while start < end && (chars[end - 1] == ' ' || chars[end - 1] == '\t')
        invariant
            from <= start <= end <= to <= chars@.len(),
            trim_end(rest) == trim_end(chars@.subrange(start as int, end as int)),
        decreases end - start,
    {
        assert(chars@.subrange(start as int, end as int).drop_last() == chars@.subrange(
            start as int,
            end - 1,
        ));
        end = end - 1;
    }
    (start, end)
}

/// The value of the pairing cookie in the text of a `Cookie` header.
///
/// The first cookie of that name decides; without an `=` it has no value.
pub fn find_pairing_value(header: &str) -> (found: Option<String>)
    ensures
        match found {
            Some(s) => pairing_value(header@) == Some(s@),
            None => pairing_value(header@) is None,
        },
{
    let chars = to_chars(header);
    let name = to_chars("micyou_pair");
    let length: usize = chars.len();
    let mut start: usize = 0;
    assert(chars@.subrange(0, length as int) == chars@);
    loop
        invariant
            chars@ == header@,
            name@ == cookie_name(),
            length == chars@.len(),
            start <= length,
            pairing_value(header@) == pairing_value(chars@.subrange(start as int, length as int)),
        decreases length - start,
    {
        let ghost rest = chars@.subrange(start as int, length as int);
        let end: usize = find_between(&chars, start, length, ';');
        let ghost at = (end - start) as int;
        let ghost part = chars@.subrange(start as int, end as int);
        proof {
            assert(rest.take(at) == part);
            if end < length {
                assert(rest.skip(at + 1) == chars@.subrange(end + 1, length as int));
                let tail = pieces(chars@.subrange(end + 1, length as int), ';');
                assert(pieces(rest, ';') == seq![part] + tail);
                assert((seq![part] + tail).drop_first() =~= tail);
            } else {
                assert(part == rest);
                assert(pieces(rest, ';') == seq![part]);
                assert(seq![part].drop_first() =~= Seq::<Seq<char>>::empty());
            }
        }
        let (from, to) = trim_between(&chars, start, end);
        let ghost cookie = chars@.subrange(from as int, to as int);
        let eq: usize = find_between(&chars, from, to, '=');
        let ghost mark = (eq - from) as int;
        assert(cookie.take(mark) == chars@.subrange(from as int, eq as int));
        let named = eq - from == name.len() && matches_at(&chars, &name, from);
        assert(named == (key(cookie) == cookie_name())) by {
            if eq - from == name@.len() {
                assert(chars@.subrange(from as int, from + name@.len()) == key(cookie));
            }
        }
        if named {
            if eq < to {
                assert(cookie.skip(mark + 1) == chars@.subrange(eq + 1, to as int));
                return Some(from_chars(&chars, eq + 1, to));
            }
            return None;
        }
        if end == length {
            assert(first_pairing_value(Seq::<Seq<char>>::empty()) is None);
            return None;
        }
        start = end + 1;
    }
}

/// The `Set-Cookie` text that hands `token` to a browser: valid for thirty
/// days, for every path, and only over HTTPS and for requests of the page
/// itself.
pub fn pairing_cookie(token: &str) -> (cookie: String)
    ensures
        cookie@ == set_cookie_text(token@),
{
    let mut cookie = String::new();
    cookie.append("micyou_pair=");
    cookie.append(token);
    cookie.append("; Max-Age=2592000; Path=/; HttpOnly; Secure; SameSite=Strict");
    assert(cookie@ =~= set_cookie_text(token@));
    cookie
}

/// Cookies without a `;` stand apart: the pieces of two header texts joined by
/// a `;` are those of the first and then those of the second.
proof fn lemma_pieces_joined(first: Seq<char>, second: Seq<char>)
    ensures
        pieces(first + seq![';'] + second, ';') == pieces(first, ';') + pieces(second, ';'),
    decreases first.len(),
{
    let joined = first + seq![';'] + second;
    let at = find(first, ';') as int;
    lemma_find_bounds(first, ';');
    lemma_find_is(joined, ';', at);
    if at == first.len() {
        assert(joined.take(at) =~= first);
        assert(joined.skip(at + 1) =~= second);
    } else {
        let rest = first.skip(at + 1);
        assert(joined.take(at) =~= first.take(at));
        assert(joined.skip(at + 1) =~= rest + seq![';'] + second);
        lemma_pieces_joined(rest, second);
        assert(pieces(joined, ';') =~= pieces(first, ';') + pieces(second, ';'));
    }
}

/// Cookies of other names before the pairing cookie are passed over.
proof fn lemma_skip_foreign(foreign: Seq<Seq<char>>, cookies: Seq<Seq<char>>)
    requires
        forall|i: int| 0 <= i < foreign.len() ==> key(trim(#[trigger] foreign[i])) != cookie_name(),
    ensures
        first_pairing_value(foreign + cookies) == first_pairing_value(cookies),
    decreases foreign.len(),
{
    if foreign.len() == 0 {
        assert(foreign + cookies =~= cookies);
    } else {
        assert((foreign + cookies).drop_first() =~= foreign.drop_first() + cookies);
        assert forall|i: int| 0 <= i < foreign.drop_first().len() implies key(
            trim(#[trigger] foreign.drop_first()[i]),
        ) != cookie_name() by {
            assert(foreign.drop_first()[i] == foreign[i + 1]);
        }
        lemma_skip_foreign(foreign.drop_first(), cookies);
    }
}

/// One pairing cookie alone in a header, however it is padded with blanks in
/// front, gives its token.
proof fn lemma_own_cookie(token: Seq<char>)
    requires
        cookie_safe(token),
    ensures
        !("micyou_pair="@ + token).contains(';'),
        trim("micyou_pair="@ + token) == "micyou_pair="@ + token,
        trim(seq![' '] + ("micyou_pair="@ + token)) == "micyou_pair="@ + token,
        key("micyou_pair="@ + token) == cookie_name(),
        value("micyou_pair="@ + token) == Some(token),
{
    reveal_strlit("micyou_pair");
    reveal_strlit("micyou_pair=");
    let cookie = "micyou_pair="@ + token;
    assert forall|i: int| 0 <= i < cookie.len() implies cookie[i] != ';' by {
        if i >= 12 {
            assert(cookie[i] == token[i - 12]);
            assert(token.contains(token[i - 12]));
        }
    }
    assert(cookie[0] == 'm');
    assert(!blank(cookie.last())) by {
        if token.len() > 0 {
            assert(cookie.last() == token.last());
        } else {
            assert(cookie.last() == '=');
        }
    }
    let padded = seq![' '] + cookie;
    assert(padded.drop_first() =~= cookie);
    reveal_with_fuel(trim_start, 2);
    assert(trim_start(padded) == trim_start(cookie));
    lemma_find_is(cookie, '=', 11);
    assert(cookie.take(11) =~= cookie_name());
    assert(cookie.skip(12) =~= token);
}

/// The cookie that a successful visit receives is one that pairs: sent back
/// among any other cookies, the header yields the token again.
///
/// `before` is the text of the cookies that the browser sends first, none of
/// them under the pairing cookie's name, and `after` is whatever follows.
pub proof fn pairing_cookie_round_trip(token: Seq<char>, before: Seq<char>, after: Seq<char>)
    requires
        cookie_safe(token),
        forall|i: int|
            0 <= i < pieces(before, ';').len() ==> key(trim(#[trigger] pieces(before, ';')[i]))
                != cookie_name(),
    ensures
        ({
            let cookie = pieces(set_cookie_text(token), ';')[0];
            &&& pairing_value(cookie) == Some(token)
            &&& pairing_value(cookie + seq![';'] + after) == Some(token)
            &&& pairing_value(before + "; "@ + cookie) == Some(token)
            &&& pairing_value(before + "; "@ + cookie + seq![';'] + after) == Some(token)
        }),
{
    reveal_strlit("; ");
    reveal_strlit("; Max-Age=2592000; Path=/; HttpOnly; Secure; SameSite=Strict");
    let own = "micyou_pair="@ + token;
    let attributes = "; Max-Age=2592000; Path=/; HttpOnly; Secure; SameSite=Strict"@;
    lemma_own_cookie(token);
    lemma_unmarked(own);
    assert(set_cookie_text(token) =~= own + seq![';'] + attributes.skip(1));
    lemma_pieces_joined(own, attributes.skip(1));
    let cookie = pieces(set_cookie_text(token), ';')[0];
    assert(cookie == own);
    assert(pairing_value(own) == Some(token));
    lemma_pieces_joined(own, after);
    assert((seq![own] + pieces(after, ';'))[0] == own);
    let padded = seq![' '] + own;
    assert(!padded.contains(';')) by {
        if padded.contains(';') {
            let i = choose|i: int| 0 <= i < padded.len() && padded[i] == ';';
            assert(own[i - 1] == ';');
        }
    }
    lemma_unmarked(padded);
    assert(before + "; "@ + own =~= before + seq![';'] + padded);
    lemma_pieces_joined(before, padded);
    lemma_skip_foreign(pieces(before, ';'), pieces(padded, ';'));
    let tail = padded + seq![';'] + after;
    assert(before + "; "@ + own + seq![';'] + after =~= before + seq![';'] + tail);
    lemma_pieces_joined(padded, after);
    lemma_pieces_joined(before, tail);
    lemma_skip_foreign(pieces(before, ';'), pieces(tail, ';'));
    assert((seq![padded] + pieces(after, ';'))[0] == padded);
}

/// A text without a `;` is one piece.
proof fn lemma_unmarked(text: Seq<char>)
    requires
        !text.contains(';'),
    ensures
        pieces(text, ';') == seq![text],
{
    assert forall|i: int| 0 <= i < text.len() implies text[i] != ';' by {
        if text[i] == ';' {
            assert(text.contains(';'));
        }
    }
    lemma_find_is(text, ';', text.len() as int);
}

/// The cookie is restricted as a credential has to be: scripts cannot read it,
/// it travels over HTTPS only, and no other site can make a browser send it.
pub proof fn pairing_cookie_is_restricted(token: Seq<char>)
    ensures
        crate::text::has_part(set_cookie_text(token), "; HttpOnly"@),
        crate::text::has_part(set_cookie_text(token), "; Secure"@),
        crate::text::has_part(set_cookie_text(token), "; SameSite=Strict"@),
{
    reveal_strlit("micyou_pair=");
    reveal_strlit("; Max-Age=2592000; Path=/; HttpOnly; Secure; SameSite=Strict");
    reveal_strlit("; HttpOnly");
    reveal_strlit("; Secure");
    reveal_strlit("; SameSite=Strict");
    let text = set_cookie_text(token);
    let base = 12 + token.len() as int;
    assert(text.subrange(base + 25, base + 35) =~= "; HttpOnly"@);
    assert(occurs_at(text, "; HttpOnly"@, base + 25));
    assert(text.subrange(base + 35, base + 43) =~= "; Secure"@);
    assert(occurs_at(text, "; Secure"@, base + 35));
    assert(text.subrange(base + 43, base + 60) =~= "; SameSite=Strict"@);
    assert(occurs_at(text, "; SameSite=Strict"@, base + 43));
}

/// Texts put together with a mark between each and the next.
pub open spec fn glued(parts: Seq<Seq<char>>, mark: char) -> Seq<char>
    decreases parts.len(),
{
    if parts.len() == 0 {
        Seq::empty()
    } else if parts.len() == 1 {
        parts[0]
    } else {
        parts[0] + seq![mark] + glued(parts.drop_first(), mark)
    }
}

/// The pieces of a text hold no mark, and put together they are the text again.
pub proof fn pieces_make_the_text(text: Seq<char>, mark: char)
    ensures
        pieces(text, mark).len() > 0,
        glued(pieces(text, mark), mark) == text,
        forall|i: int, j: int|
            0 <= i < pieces(text, mark).len() && 0 <= j < pieces(text, mark)[i].len()
                ==> #[trigger] pieces(text, mark)[i][j] != mark,
    decreases text.len(),
{
    lemma_find_bounds(text, mark);
    let at = find(text, mark) as int;
    if at < text.len() {
        let rest = text.skip(at + 1);
        let tail = pieces(rest, mark);
        let parts = pieces(text, mark);
        pieces_make_the_text(rest, mark);
        assert(parts == seq![text.take(at)] + tail);
        assert(parts.drop_first() =~= tail);
        assert(glued(parts, mark) == parts[0] + seq![mark] + glued(tail, mark));
        assert(text =~= text.take(at) + seq![mark] + rest);
        assert forall|i: int, j: int|
            0 <= i < parts.len() && 0 <= j < parts[i].len() implies #[trigger] parts[i][j]
            != mark by {
            if i > 0 {
                assert(parts[i] == tail[i - 1]);
                assert(tail[i - 1][j] != mark);
            }
        }
    }
}

/// Trimming takes blanks off both ends, all of them and nothing else.
pub proof fn trimming_takes_blanks_off(text: Seq<char>)
    ensures
        exists|before: Seq<char>, after: Seq<char>|
            {
                &&& text == #[trigger] (before + trim(text) + after)
                &&& forall|i: int| 0 <= i < before.len() ==> before[i] == ' ' || before[i] == '\t'
                &&& forall|i: int| 0 <= i < after.len() ==> after[i] == ' ' || after[i] == '\t'
            },
        trim(text).len() > 0 ==> trim(text)[0] != ' ' && trim(text)[0] != '\t'
            && trim(text).last() != ' ' && trim(text).last() != '\t',
{
    let before = lemma_trim_start(text);
    let after = lemma_trim_end(trim_start(text));
    assert(text =~= before + trim(text) + after);
    if trim(text).len() > 0 {
        assert(trim(text)[0] == trim_start(text)[0]);
    }
}

/// Gives the blanks that trimming takes off the front.
proof fn lemma_trim_start(text: Seq<char>) -> (before: Seq<char>)
    ensures
        text == before + trim_start(text),
        forall|i: int| 0 <= i < before.len() ==> before[i] == ' ' || before[i] == '\t',
        trim_start(text).len() > 0 ==> !blank(trim_start(text)[0]),
    decreases text.len(),
{
    if text.len() > 0 && blank(text[0]) {
        let rest = lemma_trim_start(text.drop_first());
        let before = seq![text[0]] + rest;
        assert(trim_start(text) == trim_start(text.drop_first()));
        assert(text =~= seq![text[0]] + text.drop_first());
        assert(text =~= before + trim_start(text));
        before
    } else {
        assert(text =~= Seq::<char>::empty() + text);
        Seq::empty()
    }
}

/// Gives the blanks that trimming takes off the end.
proof fn lemma_trim_end(text: Seq<char>) -> (after: Seq<char>)
    ensures
        text == trim_end(text) + after,
        forall|i: int| 0 <= i < after.len() ==> after[i] == ' ' || after[i] == '\t',
        trim_end(text).len() > 0 ==> !blank(trim_end(text).last()),
    decreases text.len(),
{
    if text.len() > 0 && blank(text.last()) {
        let rest = lemma_trim_end(text.drop_last());
        let after = rest.push(text.last());
        assert(trim_end(text) == trim_end(text.drop_last()));
        assert(text =~= text.drop_last().push(text.last()));
        assert(text =~= trim_end(text) + after);
        after
    } else {
        assert(text =~= text + Seq::<char>::empty());
        Seq::empty()
    }
}

/// A cookie is its name, the first `=` and its value; without an `=` it is a name
/// alone.
pub proof fn cookie_is_name_and_value(cookie: Seq<char>)
    ensures
        forall|i: int| 0 <= i < key(cookie).len() ==> #[trigger] key(cookie)[i] != '=',
        match value(cookie) {
            Some(held) => cookie == key(cookie) + seq!['='] + held,
            None => cookie == key(cookie),
        },
{
    lemma_find_bounds(cookie, '=');
    let at = find(cookie, '=') as int;
    if at < cookie.len() {
        assert(cookie =~= cookie.take(at) + seq!['='] + cookie.skip(at + 1));
    } else {
        assert(cookie =~= cookie.take(at));
    }
}

/// The value found is that of the first cookie under the pairing cookie's name;
/// where none has the name there is none.
pub proof fn first_pairing_cookie_decides(cookies: Seq<Seq<char>>, at: int)
    requires
        0 <= at <= cookies.len(),
        forall|i: int| 0 <= i < at ==> key(trim(#[trigger] cookies[i])) != "micyou_pair"@,
        at < cookies.len() ==> key(trim(cookies[at])) == "micyou_pair"@,
    ensures
        at < cookies.len() ==> first_pairing_value(cookies) == value(trim(cookies[at])),
        at == cookies.len() ==> first_pairing_value(cookies) is None,
    decreases cookies.len(),
{
    if at > 0 {
        let rest = cookies.drop_first();
        assert(key(trim(cookies[0])) != "micyou_pair"@);
        assert forall|i: int| 0 <= i < at - 1 implies key(trim(#[trigger] rest[i]))
            != "micyou_pair"@ by {
            assert(rest[i] == cookies[i + 1]);
        }
        if at < cookies.len() {
            assert(rest[at - 1] == cookies[at]);
        }
        first_pairing_cookie_decides(rest, at - 1);
    }
}

/// A value that is found stands in the header, behind the pairing cookie's name and
/// an `=`.
pub proof fn found_value_stands_in_header(header: Seq<char>, token: Seq<char>)
    requires
        pairing_value(header) == Some(token),
    ensures
        exists|before: Seq<char>, after: Seq<char>|
            header == #[trigger] (before + ("micyou_pair="@ + token) + after),
{
    let parts = pieces(header, ';');
    pieces_make_the_text(header, ';');
    let at = lemma_first_found(parts, token);
    let cookie = trim(parts[at]);
    cookie_is_name_and_value(cookie);
    trimming_takes_blanks_off(parts[at]);
    reveal_strlit("micyou_pair=");
    reveal_strlit("micyou_pair");
    assert(cookie =~= "micyou_pair="@ + token);
    let (inner, outer) = choose|inner: Seq<char>, outer: Seq<char>|
        parts[at] == #[trigger] (inner + cookie + outer);
    let (front, back) = lemma_glued_around(parts, ';', at);
    let before = front + inner;
    let after = outer + back;
    assert(header =~= before + ("micyou_pair="@ + token) + after);
}

/// Gives the place of the cookie that a value was found in.
proof fn lemma_first_found(cookies: Seq<Seq<char>>, token: Seq<char>) -> (at: int)
    requires
        first_pairing_value(cookies) == Some(token),
    ensures
        0 <= at < cookies.len(),
        key(trim(cookies[at])) == "micyou_pair"@,
        value(trim(cookies[at])) == Some(token),
    decreases cookies.len(),
{
    if key(trim(cookies[0])) == cookie_name() {
        0
    } else {
        let rest = cookies.drop_first();
        let at = lemma_first_found(rest, token);
        assert(rest[at] == cookies[at + 1]);
        at + 1
    }
}

/// Gives what stands around one of the texts that are put together.
proof fn lemma_glued_around(parts: Seq<Seq<char>>, mark: char, at: int) -> (around: (
    Seq<char>,
    Seq<char>,
))
    requires
        0 <= at < parts.len(),
    ensures
        glued(parts, mark) == around.0 + parts[at] + around.1,
    decreases parts.len(),
{
    let whole = glued(parts, mark);
    if parts.len() == 1 {
        assert(whole =~= Seq::<char>::empty() + parts[at] + Seq::<char>::empty());
        (Seq::empty(), Seq::empty())
    } else if at == 0 {
        let back = seq![mark] + glued(parts.drop_first(), mark);
        assert(whole =~= Seq::<char>::empty() + parts[at] + back);
        (Seq::empty(), back)
    } else {
        let (front, back) = lemma_glued_around(parts.drop_first(), mark, at - 1);
        let before = parts[0] + seq![mark] + front;
        assert(parts.drop_first()[at - 1] == parts[at]);
        assert(whole =~= before + parts[at] + back);
        (before, back)
    }
}

/// The cookie that is handed out is the token under the pairing cookie's name, kept
/// for thirty days and sent with every path.
pub proof fn handed_out_cookie_carries_token(token: Seq<char>)
    ensures
        exists|rest: Seq<char>|
            set_cookie_text(token) == #[trigger] ("micyou_pair="@ + token + "; "@ + rest),
        exists|before: Seq<char>, after: Seq<char>|
            set_cookie_text(token) == #[trigger] (before + "; Max-Age=2592000; "@ + after),
        exists|before: Seq<char>, after: Seq<char>|
            set_cookie_text(token) == #[trigger] (before + "; Path=/; "@ + after),
{
    reveal_strlit("micyou_pair=");
    reveal_strlit("; ");
    reveal_strlit("; Max-Age=2592000; ");
    reveal_strlit("; Path=/; ");
    reveal_strlit("; Max-Age=2592000; Path=/; HttpOnly; Secure; SameSite=Strict");
    let text = set_cookie_text(token);
    let own = "micyou_pair="@ + token;
    let attributes = "; Max-Age=2592000; Path=/; HttpOnly; Secure; SameSite=Strict"@;
    assert(text =~= own + "; "@ + attributes.skip(2));
    assert(text =~= own + "; Max-Age=2592000; "@ + attributes.skip(19));
    assert(text =~= (own + attributes.take(17)) + "; Path=/; "@ + attributes.skip(27));
}

} // verus!
