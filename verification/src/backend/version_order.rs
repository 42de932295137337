//! The order of versions: which of two version strings is the newer.

use crate::text::{is_digit, slice, to_chars, views};
use vstd::prelude::*;

verus! {

/// Whether `c` separates the tokens of a version.
pub open spec fn is_separator(c: char) -> bool {
    c == '.' || c == '-' || c == '_'
}

/// The number of characters at the start of `s` that are no separators.
pub open spec fn token_end(s: Seq<char>) -> int
    decreases s.len(),
{
    if s.len() == 0 || is_separator(s[0]) {
        0
    } else {
        1 + token_end(s.skip(1))
    }
}

/// The tokens of the version `s`: the pieces between its separators. Two
/// separators in a row hold an empty token between them; a version without
/// a separator is one token.
pub open spec fn tokens_of(s: Seq<char>) -> Seq<Seq<char>>
    decreases s.len(),
{
    let k = token_end(s);
    if 0 <= k < s.len() {
        seq![s.take(k)] + tokens_of(s.skip(k + 1))
    } else {
        seq![s]
    }
}

/// The value of the digit `c`; 0 for any other character.
pub open spec fn digit_value(c: char) -> nat {
    if is_digit(c) {
        (c as nat - '0' as nat) as nat
    } else {
        0
    }
}

/// The number that the digits `s` write in decimal.
pub open spec fn number_of(s: Seq<char>) -> nat
    decreases s.len(),
{
    if s.len() == 0 {
        0
    } else {
        number_of(s.drop_last()) * 10 + digit_value(s.last())
    }
}

/// Whether `s` is one digit or more, and nothing else.
pub open spec fn all_digits(s: Seq<char>) -> bool {
    s.len() > 0 && forall|i: int| 0 <= i < s.len() ==> is_digit(#[trigger] s[i])
}

/// The token `s` without the plus sign that may stand in front of a number.
pub open spec fn unsigned(s: Seq<char>) -> Seq<char> {
    if s.len() > 0 && s[0] == '+' {
        s.skip(1)
    } else {
        s
    }
}

/// The unsigned integer that the token `s` writes, if it writes one that
/// fits in 64 bits: digits only, after an optional plus sign.
pub open spec fn parsed(s: Seq<char>) -> Option<nat> {
    if all_digits(unsigned(s)) && number_of(unsigned(s)) <= u64::MAX {
        Some(number_of(unsigned(s)))
    } else {
        None
    }
}

/// Whether `a` stands before `b` in lexicographic order, character by
/// character.
pub open spec fn lex_less(a: Seq<char>, b: Seq<char>) -> bool
    decreases a.len(),
{
    if b.len() == 0 {
        false
    } else if a.len() == 0 {
        true
    } else if a[0] != b[0] {
        a[0] < b[0]
    } else {
        lex_less(a.skip(1), b.skip(1))
    }
}

/// Whether the token `a` is lower than the token `b`: by their numbers
/// where both write one, else lexicographically.
pub open spec fn token_less(a: Seq<char>, b: Seq<char>) -> bool {
    match (parsed(a), parsed(b)) {
        (Some(x), Some(y)) => x < y,
        _ => lex_less(a, b),
    }
}

/// The token of `tokens` at `i`; `"0"` where `tokens` has ended.
pub open spec fn token_at(tokens: Seq<Seq<char>>, i: int) -> Seq<char> {
    if 0 <= i < tokens.len() {
        tokens[i]
    } else {
        "0"@
    }
}

/// Whether `remote` is newer than `local`, going by their tokens from
/// index `i` on: the first index at which the tokens differ decides, and
/// where none does, the longer sequence is the newer.
pub open spec fn newer_from(remote: Seq<Seq<char>>, local: Seq<Seq<char>>, i: int) -> bool
    decreases
        (if remote.len() >= local.len() {
            remote.len()
        } else {
            local.len()
        }) - i,
{
    if i < 0 || (i >= remote.len() && i >= local.len()) {
        remote.len() > local.len()
    } else if token_less(token_at(local, i), token_at(remote, i)) {
        true
    } else if token_less(token_at(remote, i), token_at(local, i)) {
        false
    } else {
        newer_from(remote, local, i + 1)
    }
}

/// Whether the version `remote` is newer than the version `local`.
pub open spec fn newer(remote: Seq<char>, local: Seq<char>) -> bool {
    newer_from(tokens_of(remote), tokens_of(local), 0)
}

proof fn lemma_token_end_is(s: Seq<char>, k: int)
    requires
        0 <= k <= s.len(),
        forall|j: int| 0 <= j < k ==> !is_separator(s[j]),
        k < s.len() ==> is_separator(s[k]),
    ensures
        token_end(s) == k,
    decreases k,
{
    if k > 0 {
        let t = s.skip(1);
        assert forall|j: int| 0 <= j < k - 1 implies !is_separator(t[j]) by {
            assert(t[j] == s[j + 1]);
        }
        lemma_token_end_is(t, k - 1);
    }
}

/// The number of a sequence of digits is at least that of any of its prefixes.
proof fn lemma_number_grows(s: Seq<char>, k: int)
    requires
        0 <= k <= s.len(),
    ensures
        number_of(s.take(k)) <= number_of(s),
    decreases s.len() - k,
{
    if k < s.len() {
        lemma_number_grows(s, k + 1);
        assert(s.take(k + 1).drop_last() =~= s.take(k));
    } else {
        assert(s.take(k) =~= s);
    }
}

proof fn lemma_lex_irreflexive(a: Seq<char>)
    ensures
        !lex_less(a, a),
    decreases a.len(),
{
    if a.len() > 0 {
        lemma_lex_irreflexive(a.skip(1));
    }
}

proof fn lemma_same_tokens_not_newer(tokens: Seq<Seq<char>>, i: int)
    ensures
        !newer_from(tokens, tokens, i),
    decreases tokens.len() - i,
{
    if 0 <= i < tokens.len() {
        lemma_lex_irreflexive(token_at(tokens, i));
        lemma_same_tokens_not_newer(tokens, i + 1);
    }
}

proof fn lemma_lex_one_sided(a: Seq<char>, b: Seq<char>)
    ensures
        !(lex_less(a, b) && lex_less(b, a)),
    decreases a.len(),
{
    if a.len() > 0 && b.len() > 0 && a[0] == b[0] {
        lemma_lex_one_sided(a.skip(1), b.skip(1));
    }
}

proof fn lemma_newer_from_one_sided(remote: Seq<Seq<char>>, local: Seq<Seq<char>>, i: int)
    ensures
        !(newer_from(remote, local, i) && newer_from(local, remote, i)),
    decreases
        (if remote.len() >= local.len() {
            remote.len()
        } else {
            local.len()
        }) - i,
{
    if !(i < 0 || (i >= remote.len() && i >= local.len())) {
        lemma_lex_one_sided(token_at(remote, i), token_at(local, i));
        lemma_newer_from_one_sided(remote, local, i + 1);
    }
}

/// Of two versions at most one is newer than the other.
pub proof fn lemma_newer_is_one_sided(a: Seq<char>, b: Seq<char>)
    ensures
        !(newer(a, b) && newer(b, a)),
{
    lemma_newer_from_one_sided(tokens_of(a), tokens_of(b), 0);
}

/// No version is newer than itself.
pub proof fn lemma_not_newer_than_itself(version: Seq<char>)
    ensures
        !newer(version, version),
{
    lemma_same_tokens_not_newer(tokens_of(version), 0);
}

/// The tokens of the version `v`.
fn split_tokens(v: &Vec<char>) -> (r: Vec<Vec<char>>)
    ensures
        views(r@) == tokens_of(v@),
{
    let n: usize = v.len();
    let mut out: Vec<Vec<char>> = Vec::new();
    let mut start: usize = 0;
    let mut i: usize = 0;
    proof {
        assert(v@.skip(0) =~= v@);
        assert(views(out@) + tokens_of(v@) =~= tokens_of(v@));
    }
    while i < n
        invariant
            start <= i <= n == v.len(),
            forall|j: int| start <= j < i ==> !is_separator(v@[j]),
            tokens_of(v@) == views(out@) + tokens_of(v@.skip(start as int)),
        decreases n - i,
    {
        let c: char = v[i];
        if c == '.' || c == '-' || c == '_' {
            let token: Vec<char> = slice(v, start, i);
            proof {
                let rest = v@.skip(start as int);
                assert forall|j: int| 0 <= j < i - start implies !is_separator(rest[j]) by {
                    assert(rest[j] == v@[start + j]);
                }
                lemma_token_end_is(rest, i - start);
                assert(rest.take(i - start) =~= token@);
                assert(rest.skip(i - start + 1) =~= v@.skip(i + 1));
                assert(views(out@.push(token)) =~= views(out@).push(token@));
                assert(views(out@).push(token@) + tokens_of(v@.skip(i + 1)) =~= views(out@) + (
                seq![token@] + tokens_of(v@.skip(i + 1))));
            }
            out.push(token);
            start = i + 1;
        }
        i += 1;
    }
    let token: Vec<char> = slice(v, start, n);
    proof {
        let rest = v@.skip(start as int);
        assert(rest =~= token@);
        assert forall|j: int| 0 <= j < rest.len() implies !is_separator(rest[j]) by {
            assert(rest[j] == v@[start + j]);
        }
        lemma_token_end_is(rest, rest.len() as int);
        assert(views(out@.push(token)) =~= views(out@).push(token@));
        assert(views(out@).push(token@) =~= views(out@) + seq![token@]);
    }
    out.push(token);
    out
}

/// The unsigned integer that the token `v` writes, if it writes one.
fn parse_number(v: &Vec<char>) -> (r: Option<u64>)
    ensures
        match r {
            Some(n) => parsed(v@) == Some(n as nat),
            None => parsed(v@) is None,
        },
{
    let start: usize = if v.len() > 0 && v[0] == '+' {
        1
    } else {
        0
    };
    if start == v.len() {
        return None;
    }
    let ghost digits = unsigned(v@);
    proof {
        assert(digits =~= v@.skip(start as int));
        assert(digits.take(0) =~= Seq::<char>::empty());
    }
    let mut value: u64 = 0;
    let mut i: usize = start;
    while i < v.len()
        invariant
            start <= i <= v.len(),
            start < v.len(),
            digits == v@.skip(start as int),
            digits == unsigned(v@),
            value == number_of(digits.take(i - start)),
            forall|j: int| 0 <= j < i - start ==> is_digit(#[trigger] digits[j]),
        decreases v.len() - i,
    {
        let c: char = v[i];
        proof {
            assert(digits[i - start] == c);
            assert(digits.take(i - start + 1).drop_last() =~= digits.take(i - start));
            assert(digits.take(i - start + 1).last() == c);
        }
        if !('0' <= c && c <= '9') {
            return None;
        }
        let d: u64 = ((c as u8) - ('0' as u8)) as u64;
        if value > (u64::MAX - d) / 10 {
            proof {
                lemma_number_grows(digits, i - start + 1);
            }
            return None;
        }
        value = value * 10 + d;
        i += 1;
    }
    proof {
        assert(digits.take(i - start) =~= digits);
    }
    Some(value)
}

/// Whether `a` stands before `b` in lexicographic order.
fn lexicographically_less(a: &Vec<char>, b: &Vec<char>) -> (r: bool)
    ensures
        r == lex_less(a@, b@),
{
    let mut i: usize = 0;
    proof {
        assert(a@.skip(0) =~= a@);
        assert(b@.skip(0) =~= b@);
    }
    loop
        invariant
            i <= a.len(),
            i <= b.len(),
            lex_less(a@, b@) == lex_less(a@.skip(i as int), b@.skip(i as int)),
        decreases a.len() - i,
    {
        if i >= b.len() {
            return false;
        }
        if i >= a.len() {
            return true;
        }
        proof {
            assert(a@.skip(i as int)[0] == a@[i as int]);
            assert(b@.skip(i as int)[0] == b@[i as int]);
            assert(a@.skip(i as int).skip(1) =~= a@.skip(i + 1));
            assert(b@.skip(i as int).skip(1) =~= b@.skip(i + 1));
        }
        if a[i] != b[i] {
            return a[i] < b[i];
        }
        i += 1;
    }
}

/// Whether the token `a` is lower than the token `b`.
fn lower_token(a: &Vec<char>, b: &Vec<char>) -> (r: bool)
    ensures
        r == token_less(a@, b@),
{
    match (parse_number(a), parse_number(b)) {
        (Some(x), Some(y)) => x < y,
        _ => lexicographically_less(a, b),
    }
}

/// Whether the version `remote` is newer than the version `local`.
///
/// Both are split into tokens at `.`, `-` and `_` and compared token by
/// token, a version that has ended counting as `0`. Two tokens that both
/// write an unsigned integer are compared as numbers, any others
/// lexicographically. The first pair that differs decides; where none
/// does, the version with more tokens is the newer.
pub fn is_newer(remote: &str, local: &str) -> (r: bool)
    ensures
        r == newer(remote@, local@),
{
    let left: Vec<Vec<char>> = split_tokens(&to_chars(remote));
    let right: Vec<Vec<char>> = split_tokens(&to_chars(local));
    let zero: Vec<char> = to_chars("0");
    let mut i: usize = 0;
    while i < left.len() || i < right.len()
        invariant
            views(left@) == tokens_of(remote@),
            views(right@) == tokens_of(local@),
            zero@ == "0"@,
            newer(remote@, local@) == newer_from(views(left@), views(right@), i as int),
        decreases
            (if left.len() >= right.len() {
                left.len()
            } else {
                right.len()
            }) - i,
    {
        let a: &Vec<char> = if i < left.len() {
            &left[i]
        } else {
            &zero
        };
        let b: &Vec<char> = if i < right.len() {
            &right[i]
        } else {
            &zero
        };
        proof {
            assert(a@ == token_at(views(left@), i as int));
            assert(b@ == token_at(views(right@), i as int));
        }
        if lower_token(b, a) {
            return true;
        }
        if lower_token(a, b) {
            return false;
        }
        i += 1;
    }
    left.len() > right.len()
}

} // verus!
