//! The OAuth2 scope parameter: its alphabet, its tokens, and the two
//! pseudo-scopes that the broker keeps for itself.

use vstd::prelude::*;
use vstd::string::StringExecFns;
use itertools::Itertools;
use crate::endpoints::authorize_error::error;
use crate::endpoints::authorize_error::spec_error;
use crate::endpoints::authorize_error::AuthorizeErrorCode;
use crate::endpoints::authorize_error::AuthorizeErrorCodeView;
use crate::handler_error::HandlerError;
use crate::text::str_eq;
use crate::text::strings_view;

verus! {

/// Whether `ch` lies outside the scope alphabet: `!`, `#` to `[`, `]` to `~`,
/// and the space that separates tokens.
pub open spec fn spec_invalid_scope_char(ch: char) -> bool {
    !(ch == ' ' || ch == '!' || ('#' <= ch && ch <= '[') || (']' <= ch && ch <= '~'))
}

/// Tells whether a character may not occur in a scope parameter.
pub fn invalid_scope_char(ch: char) -> (invalid: bool)
    ensures
        invalid == spec_invalid_scope_char(ch),
{
    !(ch == ' ' || ch == '!' || ('#' <= ch && ch <= '[') || (']' <= ch && ch <= '~'))
}

/// Whether every character of `s` is of the scope alphabet.
pub open spec fn is_scope_text(s: Seq<char>) -> bool {
    forall|i: int| 0 <= i < s.len() ==> !spec_invalid_scope_char(#[trigger] s[i])
}

/// The characters of `s` that are not of the scope alphabet, in order.
pub open spec fn invalid_chars(s: Seq<char>) -> Seq<char> {
    s.filter(|c: char| spec_invalid_scope_char(c))
}

/// The tokens of `s`: its maximal runs of characters other than the space,
/// from left to right.
pub open spec fn scope_tokens(s: Seq<char>) -> Seq<Seq<char>>
    decreases s.len(),
{
    if s.len() == 0 {
        Seq::empty()
    } else {
        let before = scope_tokens(s.drop_last());
        if s.last() == ' ' {
            before
        } else if s.len() >= 2 && s[s.len() - 2] != ' ' {
            before.drop_last().push(before.last().push(s.last()))
        } else {
            before.push(seq![s.last()])
        }
    }
}

/// Every token is a run of characters other than the space, and none is
/// empty. A scope that ends in another character than the space has a token.
pub proof fn lemma_tokens_are_words(s: Seq<char>)
    ensures
        forall|i: int|
            0 <= i < scope_tokens(s).len() ==> (#[trigger] scope_tokens(s)[i]).len() > 0
                && !scope_tokens(s)[i].contains(' '),
        s.len() > 0 && s.last() != ' ' ==> scope_tokens(s).len() > 0,
    decreases s.len(),
{
    if s.len() > 0 {
        let before = scope_tokens(s.drop_last());
        lemma_tokens_are_words(s.drop_last());
        if s.last() != ' ' {
            if s.len() >= 2 && s[s.len() - 2] != ' ' {
                assert(s.drop_last().last() == s[s.len() - 2]);
                let grown = before.last().push(s.last());
                let tokens = before.drop_last().push(grown);
                assert(scope_tokens(s) == tokens);
                assert forall|i: int| 0 <= i < tokens.len() implies (#[trigger] tokens[i]).len() > 0
                    && !tokens[i].contains(' ') by {
                    if i < tokens.len() - 1 {
                        assert(tokens[i] == before[i]);
                    } else {
                        assert(tokens[i] == grown);
                        assert(before[before.len() - 1] == before.last());
                        if grown.contains(' ') {
                            let k = choose|k: int| 0 <= k < grown.len() && grown[k] == ' ';
                            if k < grown.len() - 1 {
                                assert(before.last()[k] == ' ');
                                assert(before.last().contains(' '));
                            }
                        }
                    }
                }
            } else {
                let tokens = before.push(seq![s.last()]);
                assert(scope_tokens(s) == tokens);
                assert forall|i: int| 0 <= i < tokens.len() implies (#[trigger] tokens[i]).len() > 0
                    && !tokens[i].contains(' ') by {
                    if i < tokens.len() - 1 {
                        assert(tokens[i] == before[i]);
                    } else {
                        assert(tokens[i] == seq![s.last()]);
                        if tokens[i].contains(' ') {
                            let k = choose|k: int| 0 <= k < tokens[i].len() && tokens[i][k] == ' ';
                            assert(tokens[i][k] == s.last());
                        }
                    }
                }
            }
        }
    }
}

/// The characters each written out, with `sep` between one and the next.
pub open spec fn spec_join_chars(chars: Seq<char>, sep: Seq<char>) -> Seq<char>
    decreases chars.len(),
{
    if chars.len() == 0 {
        Seq::empty()
    } else if chars.len() == 1 {
        seq![chars[0]]
    } else {
        spec_join_chars(chars.drop_last(), sep) + sep + seq![chars.last()]
    }
}

/// Calls `itertools::Itertools::join` on the characters: each is written by
/// its `Display`, which for a `char` is the character, with `sep` between.
#[verifier::external_body]
fn join_chars(chars: &Vec<char>, sep: &str) -> (joined: String)
    ensures
        joined@ == spec_join_chars(chars@, sep@),
{
    chars.iter().join(sep)
}

/// The description of the error for a scope parameter that holds characters
/// outside the alphabet: it quotes each of them.
pub open spec fn invalid_scope_message(s: Seq<char>) -> Seq<char> {
    "Encountered invalid character(s) in scope: \""@ + spec_join_chars(
        invalid_chars(s),
        "\", \""@,
    ) + "\""@
}

/// The characters of `scopes` outside the scope alphabet.
fn collect_invalid(scopes: &str) -> (invalid: Vec<char>)
    ensures
        invalid@ == invalid_chars(scopes@),
        (invalid@.len() == 0) == is_scope_text(scopes@),
{
    let mut invalid: Vec<char> = Vec::new();
    let ghost s = scopes@;
    proof {
        reveal(Seq::filter);
        assert(s.take(0) =~= Seq::<char>::empty());
    }
    for c in it: scopes.chars()
        invariant
            it.seq() == s,
            s == scopes@,
            invalid@ == invalid_chars(s.take(it.index() as int)),
            (invalid@.len() == 0) == is_scope_text(s.take(it.index() as int)),
    {
        let ghost i = it.index() as int;
        proof {
            reveal(Seq::filter);
            assert(s.take(i + 1).drop_last() =~= s.take(i));
            assert(s.take(i + 1).last() == s[i]);
            assert(c == s[i]);
            if is_scope_text(s.take(i + 1)) {
                assert forall|k: int| 0 <= k < i implies !spec_invalid_scope_char(
                    #[trigger] s.take(i)[k],
                ) by {
                    assert(s.take(i + 1)[k] == s.take(i)[k]);
                }
                assert(s.take(i + 1)[i] == s[i]);
            }
            if is_scope_text(s.take(i)) && !spec_invalid_scope_char(s[i]) {
                assert forall|k: int| 0 <= k < i + 1 implies !spec_invalid_scope_char(
                    #[trigger] s.take(i + 1)[k],
                ) by {
                    if k < i {
                        assert(s.take(i + 1)[k] == s.take(i)[k]);
                    }
                }
            }
        }
        if invalid_scope_char(c) {
            invalid.push(c);
        }
    }
    proof {
        assert(s.take(s.len() as int) =~= s);
    }
    invalid
}

/// Splits a scope parameter, whose characters are all of the alphabet, at
/// its spaces.
fn split_tokens(scopes: &str) -> (tokens: Vec<String>)
    ensures
        strings_view(tokens@) == scope_tokens(scopes@),
{
    let mut tokens: Vec<String> = Vec::new();
    let ghost s = scopes@;
    let n = scopes.unicode_len();
    let mut start: usize = 0;
    let mut i: usize = 0;
    proof {
        assert(s.take(0) =~= Seq::<char>::empty());
        assert(strings_view(tokens@) =~= Seq::<Seq<char>>::empty());
    }
    while i < n
        invariant
            s == scopes@,
            n == s.len(),
            start <= i <= n,
            forall|k: int| start <= k < i ==> s[k] != ' ',
            start == i ==> (i == 0 || s[i - 1] == ' '),
            scope_tokens(s.take(i as int)) == if start < i {
                strings_view(tokens@).push(s.subrange(start as int, i as int))
            } else {
                strings_view(tokens@)
            },
        decreases n - i,
    {
        let c = scopes.get_char(i);
        let ghost before = strings_view(tokens@);
        proof {
            assert(s.take(i + 1).drop_last() =~= s.take(i as int));
            assert(s.take(i + 1).last() == s[i as int]);
            if i >= 1 {
                assert(s.take(i + 1)[i - 1] == s[i - 1]);
            }
        }
        if c == ' ' {
            if start < i {
                let token = scopes.substring_char(start, i);
                tokens.push(String::from_str(token));
                proof {
                    assert(strings_view(tokens@) =~= before.push(
                        s.subrange(start as int, i as int),
                    ));
                }
            }
            start = i + 1;
        } else {
            proof {
                if start < i {
                    let run = s.subrange(start as int, i as int);
                    assert(before.push(run).drop_last() =~= before);
                    assert(before.push(run).last() == run);
                    assert(run.push(s[i as int]) =~= s.subrange(start as int, i + 1));
                } else {
                    assert(seq![s[i as int]] =~= s.subrange(start as int, i + 1));
                }
            }
        }
        i += 1;
    }
    proof {
        assert(s.take(n as int) =~= s);
    }
    if start < n {
        let ghost before = strings_view(tokens@);
        let token = scopes.substring_char(start, n);
        tokens.push(String::from_str(token));
        proof {
            assert(strings_view(tokens@) =~= before.push(s.subrange(start as int, n as int)));
        }
    }
    tokens
}

/// Splits a scope parameter into its tokens. A parameter that holds a
/// character outside the scope alphabet is refused as `invalid_scope`, with
/// a description that quotes the offending characters.
pub fn parse_scopes(scopes: &str) -> (parsed: Result<Vec<String>, HandlerError>)
    ensures
        parsed is Ok == is_scope_text(scopes@),
        parsed is Ok ==> strings_view(parsed->Ok_0@) == scope_tokens(scopes@),
        parsed is Err ==> parsed->Err_0@ == spec_error(
            AuthorizeErrorCodeView::InvalidScope,
            invalid_scope_message(scopes@),
        ),
{
    let invalid = collect_invalid(scopes);
    if invalid.len() > 0 {
        let mut description = String::from_str("Encountered invalid character(s) in scope: \"");
        let quoted = join_chars(&invalid, "\", \"");
        description.append(quoted.as_str());
        description.append("\"");
        return error(AuthorizeErrorCode::InvalidScope, description);
    }
    Ok(split_tokens(scopes))
}

/// What a scope parameter asks for: the two pseudo-scopes that the broker
/// keeps for itself, and the scopes that are left to forward upstream.
#[derive(Debug, Clone, PartialEq, Eq)]
pub struct RequestedScopes {
    /// Whether `openid` was among the tokens.
    pub openid: bool,
    /// Whether `groups` was among the tokens.
    pub groups: bool,
    /// The other tokens, in order.
    pub forwarded: Vec<String>,
}

/// `RequestedScopes` over sequences.
pub struct RequestedScopesView {
    pub openid: bool,
    pub groups: bool,
    pub forwarded: Seq<Seq<char>>,
}

impl View for RequestedScopes {
    type V = RequestedScopesView;

    open spec fn view(&self) -> RequestedScopesView {
        RequestedScopesView {
            openid: self.openid,
            groups: self.groups,
            forwarded: strings_view(self.forwarded@),
        }
    }
}

/// Whether a token is one of the pseudo-scopes `openid` and `groups`.
pub open spec fn is_pseudo_scope(token: Seq<char>) -> bool {
    token == "openid"@ || token == "groups"@
}

/// The tokens of a scope parameter that are forwarded upstream: all but the
/// pseudo-scopes.
pub open spec fn forwarded_scopes(tokens: Seq<Seq<char>>) -> Seq<Seq<char>> {
    tokens.filter(|token: Seq<char>| !is_pseudo_scope(token))
}

/// What the tokens of a scope parameter ask for.
pub open spec fn spec_requested_scopes(tokens: Seq<Seq<char>>) -> RequestedScopesView {
    RequestedScopesView {
        openid: tokens.contains("openid"@),
        groups: tokens.contains("groups"@),
        forwarded: forwarded_scopes(tokens),
    }
}

/// Takes the pseudo-scopes `openid` and `groups` out of the tokens of a
/// scope parameter and notes which of them were there.
pub fn requested_scopes(tokens: Vec<String>) -> (requested: RequestedScopes)
    ensures
        requested@ == spec_requested_scopes(strings_view(tokens@)),
{
    let mut openid = false;
    let mut groups = false;
    let mut forwarded: Vec<String> = Vec::new();
    let ghost all = strings_view(tokens@);
    let mut i: usize = 0;
    proof {
        reveal(Seq::filter);
        assert(all.take(0) =~= Seq::<Seq<char>>::empty());
        assert(strings_view(forwarded@) =~= Seq::<Seq<char>>::empty());
    }
    while i < tokens.len()
        invariant
            i <= tokens.len(),
            all == strings_view(tokens@),
            openid == all.take(i as int).contains("openid"@),
            groups == all.take(i as int).contains("groups"@),
            strings_view(forwarded@) == forwarded_scopes(all.take(i as int)),
        decreases tokens.len() - i,
    {
        let ghost seen = all.take(i as int);
        let ghost next = all.take(i + 1);
        let ghost kept = strings_view(forwarded@);
        let ghost token = tokens@[i as int]@;
        proof {
            reveal(Seq::filter);
            assert(next.drop_last() =~= seen);
            assert(next.last() == token);
            assert(next =~= seen.push(token));
            assert forall|t: Seq<char>| next.contains(t) == (seen.contains(t) || t == token) by {
                if seen.contains(t) {
                    let k = choose|k: int| 0 <= k < seen.len() && seen[k] == t;
                    assert(next[k] == t);
                }
                if t == token {
                    assert(next[i as int] == t);
                }
                if next.contains(t) {
                    let k = choose|k: int| 0 <= k < next.len() && next[k] == t;
                    if k < i {
                        assert(seen[k] == t);
                    }
                }
            }
        }
        if str_eq(tokens[i].as_str(), "groups") {
            groups = true;
            proof {
                reveal_strlit("groups");
                reveal_strlit("openid");
                assert("groups"@[0] != "openid"@[0]);
            }
        } else if str_eq(tokens[i].as_str(), "openid") {
            openid = true;
        } else {
            forwarded.push(tokens[i].clone());
            proof {
                assert(strings_view(forwarded@) =~= kept.push(token));
            }
        }
        i += 1;
    }
    proof {
        assert(all.take(tokens.len() as int) =~= all);
    }
    RequestedScopes { openid, groups, forwarded }
}

} // verus!
