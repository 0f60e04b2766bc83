//! A lexer that recognises, at each step, the longest token at the start of
//! the remaining text; among patterns that match equally far, the one listed
//! last wins.

use vstd::prelude::*;
use vstd::string::StringSliceAdditionalSpecFns;
use vstd::utf8::{decode_utf8, encode_utf8, is_char_boundary};
use crate::syntax::patterns::{pattern_text, token_pattern};
use crate::syntax::regex_support::{compile, find_end, regex_match_end, regex_pattern};
use crate::syntax::tok::{Tok, TOKEN_KINDS};

verus! {

/// A token: its kind and the text it was read from.
#[derive(Clone, Debug, PartialEq, Eq, PartialOrd, Ord)]
pub struct Token<'input>(pub Tok, pub &'input str);

impl<'input> Token<'input> {
    /// The text of the token.
    pub fn to_string(&self) -> (text: String)
        ensures
            text@ == self.1@,
    {
        self.1.to_owned()
    }
}

/// Why the lexer could not go on.
#[derive(Clone, Copy, Debug, PartialEq, Eq)]
pub enum ParseError {
    /// No token pattern matches the text at byte offset `location`.
    InvalidToken { location: usize },
}

/// A token pattern that the expression compiler turned down.
#[derive(Clone, Copy, Debug, PartialEq, Eq)]
pub struct PatternError {
    /// The index of the pattern in the table.
    pub index: usize,
}

/// Whether `c` has the Unicode property White_Space.
pub open spec fn is_whitespace(c: char) -> bool {
    let u = c as u32;
    ||| 0x09 <= u <= 0x0D
    ||| u == 0x20
    ||| u == 0x85
    ||| u == 0xA0
    ||| u == 0x1680
    ||| 0x2000 <= u <= 0x200A
    ||| u == 0x2028
    ||| u == 0x2029
    ||| u == 0x202F
    ||| u == 0x205F
    ||| u == 0x3000
}

/// The number of whitespace characters that `s` starts with.
pub open spec fn leading_whitespace(s: Seq<char>) -> nat
    decreases s.len(),
{
    if s.len() > 0 && is_whitespace(s[0]) {
        1 + leading_whitespace(s.drop_first())
    } else {
        0
    }
}

/// The length in bytes of the UTF-8 encoding of `s`.
pub open spec fn utf8_len(s: Seq<char>) -> nat {
    encode_utf8(s).len()
}

/// `str::trim_start`: the text without the whitespace characters it starts
/// with.
#[verifier::external_body]
fn trim_start<'a>(s: &'a str) -> (rest: &'a str)
    ensures
        rest@ == s@.skip(leading_whitespace(s@) as int),
{
    s.trim_start()
}

/// Whether the match at `index`, which ends at `len`, is the one to take:
/// no match ends later, and none listed after it ends as late.
pub open spec fn is_longest(ends: Seq<Option<usize>>, index: int, len: usize) -> bool {
    &&& 0 <= index < ends.len()
    &&& ends[index] == Some(len)
    &&& forall|j: int| 0 <= j < index ==> (#[trigger] ends[j] matches Some(l) ==> l <= len)
    &&& forall|j: int| index < j < ends.len() ==> (#[trigger] ends[j] matches Some(l) ==> l < len)
}

/// The match to take among `ends`, as its index and end; `None` where
/// nothing matched.
pub open spec fn longest(ends: Seq<Option<usize>>) -> Option<(usize, usize)> {
    if exists|p: (usize, usize)| is_longest(ends, p.0 as int, p.1) {
        Some(choose|p: (usize, usize)| is_longest(ends, p.0 as int, p.1))
    } else {
        None
    }
}

/// At most one match is the one to take.
pub proof fn lemma_longest_unique(ends: Seq<Option<usize>>, a: int, l: usize, b: int, m: usize)
    requires
        is_longest(ends, a, l),
        is_longest(ends, b, m),
    ensures
        a == b,
        l == m,
{
    if a < b {
        assert(ends[b] matches Some(x) ==> x < l);
        assert(ends[a] matches Some(x) ==> x <= m);
    } else if b < a {
        assert(ends[a] matches Some(x) ==> x < m);
        assert(ends[b] matches Some(x) ==> x <= l);
    }
}

/// Picks the match that ends last; of several that end there, the one with
/// the greatest index.
pub fn longest_match(ends: &Vec<Option<usize>>) -> (best: Option<(usize, usize)>)
    ensures
        best == longest(ends@),
        best is None <==> forall|j: int| 0 <= j < ends.len() ==> ends[j] is None,
        best matches Some(p) ==> is_longest(ends@, p.0 as int, p.1),
{
    let mut best: Option<(usize, usize)> = None;
    let mut i: usize = 0;
    while i < ends.len()
        invariant
            i <= ends.len(),
            best is None <==> forall|j: int| 0 <= j < i ==> ends[j] is None,
            best matches Some(p) ==> is_longest(ends@.take(i as int), p.0 as int, p.1),
        decreases ends.len() - i,
    {
        let ghost before = ends@.take(i as int);
        let ghost after = ends@.take(i + 1);
        assert(forall|j: int| 0 <= j < i ==> before[j] == after[j]);
        match ends[i] {
            Some(len) => {
                let take = match best {
                    None => true,
                    Some((_, longest_so_far)) => len >= longest_so_far,
                };
                if take {
                    best = Some((i, len));
                }
            },
            None => {},
        }
        i += 1;
    }
    proof {
        assert(ends@.take(i as int) =~= ends@);
        match best {
            Some(p) => {
                assert forall|q: (usize, usize)| is_longest(ends@, q.0 as int, q.1) implies q
                    == p by {
                    lemma_longest_unique(ends@, q.0 as int, q.1, p.0 as int, p.1);
                }
            },
            None => {
                assert forall|q: (usize, usize)| !is_longest(ends@, q.0 as int, q.1) by {
                    if is_longest(ends@, q.0 as int, q.1) {
                        assert(ends[q.0 as int] is None);
                    }
                }
            },
        }
    }
    best
}

/// The token patterns in table order.
pub open spec fn token_patterns() -> Seq<Seq<char>> {
    Seq::new(TOKEN_KINDS as nat, |i: int| token_pattern(i))
}

/// Where each token pattern stops matching in `text`, in table order.
pub open spec fn match_ends(text: Seq<char>) -> Seq<Option<usize>> {
    Seq::new(TOKEN_KINDS as nat, |i: int| regex_match_end(token_pattern(i), text))
}

/// Whether `table` holds the compiled token patterns, in table order.
spec fn is_token_table(table: Seq<regex::Regex>) -> bool {
    &&& table.len() == TOKEN_KINDS
    &&& forall|i: int| 0 <= i < table.len() ==> regex_pattern(#[trigger] table[i]) == token_pattern(i)
}

/// The encoding of a text is the encoding of its head followed by that of
/// its tail.
proof fn lemma_encode_concat(a: Seq<char>, b: Seq<char>)
    ensures
        encode_utf8(a + b) == encode_utf8(a) + encode_utf8(b),
    decreases a.len(),
{
    if a.len() == 0 {
        assert(a + b =~= b);
        assert(encode_utf8(a) + encode_utf8(b) =~= encode_utf8(b));
    } else {
        lemma_encode_concat(a.drop_first(), b);
        assert((a + b).drop_first() =~= a.drop_first() + b);
        assert((a + b)[0] == a[0]);
        assert(encode_utf8(a + b) =~= encode_utf8(a) + encode_utf8(b));
    }
}

/// Tries every token pattern on `text`.
fn find_ends(table: &Vec<regex::Regex>, text: &str) -> (ends: Vec<Option<usize>>)
    requires
        is_token_table(table@),
    ensures
        ends@ == match_ends(text@),
        forall|i: int|
            0 <= i < ends.len() ==> (#[trigger] ends[i] matches Some(e) ==> is_char_boundary(
                text.spec_bytes(),
                e as int,
            )),
{
    let mut ends: Vec<Option<usize>> = Vec::new();
    let mut i: usize = 0;
    while i < table.len()
        invariant
            is_token_table(table@),
            i <= table.len(),
            ends.len() == i,
            forall|j: int| 0 <= j < i ==> #[trigger] ends[j] == regex_match_end(token_pattern(j), text@),
            forall|j: int|
                0 <= j < i ==> (#[trigger] ends[j] matches Some(e) ==> is_char_boundary(
                    text.spec_bytes(),
                    e as int,
                )),
        decreases table.len() - i,
    {
        let end = find_end(&table[i], text);
        ends.push(end);
        i += 1;
    }
    assert(ends@ =~= match_ends(text@));
    ends
}

/// Holds the compiled token patterns, from which lexers are made.
pub struct LexerBuilder {
    regex_vec: Vec<regex::Regex>,
}

impl LexerBuilder {
    #[verifier::type_invariant]
    spec fn holds_token_table(self) -> bool {
        is_token_table(self.regex_vec@)
    }

    /// The patterns of the compiled expressions, in the order they are held.
    pub closed spec fn patterns(&self) -> Seq<Seq<char>> {
        Seq::new(self.regex_vec@.len(), |i: int| regex_pattern(self.regex_vec@[i]))
    }

    /// Compiles the token patterns. Fails with the index of the first
    /// pattern that the expression compiler turns down.
    pub fn new() -> (res: Result<LexerBuilder, PatternError>)
        ensures
            res matches Ok(builder) ==> builder.patterns() == token_patterns(),
            res matches Err(e) ==> e.index < TOKEN_KINDS,
    {
        let mut regex_vec: Vec<regex::Regex> = Vec::new();
        let mut i: usize = 0;
        while i < TOKEN_KINDS
            invariant
                i <= TOKEN_KINDS,
                regex_vec.len() == i,
                forall|j: int| 0 <= j < i ==> regex_pattern(#[trigger] regex_vec[j]) == token_pattern(j),
            decreases TOKEN_KINDS - i,
        {
            match compile(pattern_text(i)) {
                Ok(re) => {
                    regex_vec.push(re);
                },
                Err(_) => {
                    return Err(PatternError { index: i });
                },
            }
            i += 1;
        }
        let builder = LexerBuilder { regex_vec };
        assert(builder.patterns() =~= token_patterns());
        Ok(builder)
    }

    /// A lexer at the start of `s`. Its current token is an empty `EOF`
    /// until the first call of `advance`.
    pub fn lexer<'input, 'builder>(&'builder self, s: &'input str) -> (lexer: Lexer<'input, 'builder>)
        ensures
            lexer.remaining() == s@,
            lexer.consumed() == 0,
            lexer.previous_end() == 0,
            lexer.current().0 == 0,
            lexer.current().1.0 == Tok::EOF,
            lexer.current().1.1@ == Seq::<char>::empty(),
            lexer.current().2 == 0,
    {
        proof {
            use_type_invariant(self);
            reveal_strlit("");
        }
        // The length of a text fits the machine, so every offset into it does.
        let _length: usize = s.as_bytes().len();
        Lexer {
            text: s,
            consumed: 0,
            previous_end: 0,
            regex_vec: &self.regex_vec,
            token: (0, Token(Tok::EOF, ""), 0),
        }
    }
}

/// A lexer over one text. Its current token is the token read last, held
/// between the byte offsets where it starts and ends.
pub struct Lexer<'input, 'builder> {
    text: &'input str,
    consumed: usize,
    previous_end: usize,
    regex_vec: &'builder Vec<regex::Regex>,
    token: (usize, Token<'input>, usize),
}

impl<'input, 'builder> Lexer<'input, 'builder> {
    /// The lexer holds the token table, and the end of its text is an offset
    /// that fits the machine.
    #[verifier::type_invariant]
    spec fn well_formed(self) -> bool {
        &&& is_token_table(self.regex_vec@)
        &&& self.consumed + utf8_len(self.text@) <= usize::MAX
    }

    /// The current token: where it starts, the token, and where it ends.
    pub closed spec fn current(&self) -> (usize, Token<'input>, usize) {
        self.token
    }

    /// The text that is still to be read.
    pub closed spec fn remaining(&self) -> Seq<char> {
        self.text@
    }

    /// The byte offset at which the remaining text starts.
    pub closed spec fn consumed(&self) -> nat {
        self.consumed as nat
    }

    /// The byte offset at which the token before the current one ended.
    pub closed spec fn previous_end(&self) -> nat {
        self.previous_end as nat
    }

    /// The remaining text after the whitespace it starts with.
    pub open spec fn trimmed(&self) -> Seq<char> {
        self.remaining().skip(leading_whitespace(self.remaining()) as int)
    }

    /// The byte offset at which `trimmed` starts.
    pub open spec fn next_start(&self) -> nat {
        self.consumed() + utf8_len(
            self.remaining().take(leading_whitespace(self.remaining()) as int),
        )
    }

    /// The current token, between its start and its end.
    pub fn token(&self) -> (token: &(usize, Token<'input>, usize))
        ensures
            *token == self.current(),
    {
        &self.token
    }

    /// The kind of the current token.
    pub fn peek(&self) -> (tok: Tok)
        ensures
            tok == self.current().1.0,
    {
        (self.token.1).0
    }

    /// The text of the current token.
    pub fn content(&self) -> (text: &str)
        ensures
            text@ == self.current().1.1@,
    {
        (self.token.1).1
    }

    /// The byte offset at which the current token starts.
    pub fn start_loc(&self) -> (loc: usize)
        ensures
            loc == self.current().0,
    {
        self.token.0
    }

    /// The byte offset at which the token before the current one ended.
    pub fn previous_end_loc(&self) -> (loc: usize)
        ensures
            loc == self.previous_end(),
    {
        self.previous_end
    }

    /// Reads the next token: skips whitespace, then takes the longest match
    /// among the token patterns. At the end of the text the token is an
    /// empty `EOF`. Where no pattern matches, the lexer stays where it was
    /// and reports the offset of the offending text.
    pub fn advance(&mut self) -> (res: Result<(), ParseError>)
        ensures
            final(self).previous_end() == old(self).current().2,
            old(self).trimmed().len() == 0 ==> ({
                &&& res is Ok
                &&& final(self).remaining() == old(self).trimmed()
                &&& final(self).consumed() == old(self).next_start()
                &&& final(self).current().0 == old(self).next_start()
                &&& final(self).current().1.0 == Tok::EOF
                &&& final(self).current().1.1@ == Seq::<char>::empty()
                &&& final(self).current().2 == old(self).next_start()
            }),
            (old(self).trimmed().len() > 0 && longest(match_ends(old(self).trimmed())) is None)
                ==> ({
                &&& res == Err::<(), ParseError>(
                    ParseError::InvalidToken { location: old(self).next_start() as usize },
                )
                &&& final(self).remaining() == old(self).remaining()
                &&& final(self).consumed() == old(self).consumed()
                &&& final(self).current() == old(self).current()
            }),
            (old(self).trimmed().len() > 0 && longest(match_ends(old(self).trimmed())) is Some)
                ==> ({
                let (index, len) = longest(match_ends(old(self).trimmed()))->0;
                &&& res is Ok
                &&& final(self).current().0 == old(self).next_start()
                &&& final(self).current().1.0.index() == index
                &&& final(self).current().1.1@ + final(self).remaining() == old(self).trimmed()
                &&& utf8_len(final(self).current().1.1@) == len
                &&& final(self).current().2 == old(self).next_start() + len
                &&& final(self).consumed() == old(self).next_start() + len
            }),
    {
        broadcast use vstd::utf8::group_utf8_lib;

        proof {
            use_type_invariant(&*self);
        }
        self.previous_end = self.token.2;
        let text = trim_start(self.text);
        let ghost before = self.text@;
        let ghost spaces = leading_whitespace(before) as int;
        proof {
            lemma_leading_whitespace_bound(before);
            lemma_encode_concat(before.take(spaces), before.skip(spaces));
            assert(before.take(spaces) + before.skip(spaces) =~= before);
        }
        let whitespace = self.text.as_bytes().len() - text.as_bytes().len();
        let start_offset = self.consumed + whitespace;
        if text.is_empty() {
            self.text = text;
            self.consumed = start_offset;
            proof {
                reveal_strlit("");
            }
            self.token = (start_offset, Token(Tok::EOF, ""), start_offset);
            Ok(())
        } else {
            let ends = find_ends(self.regex_vec, text);
            match longest_match(&ends) {
                None => Err(ParseError::InvalidToken { location: start_offset }),
                Some((index, longest_match)) => {
                    let ghost bytes = text.spec_bytes();
                    assert(is_char_boundary(bytes, longest_match as int));
                    assert(longest_match <= bytes.len());
                    let (result, remaining) = text.split_at(longest_match);
                    let end_offset = start_offset + longest_match;
                    proof {
                        assert(decode_utf8(result.spec_bytes()) == result@);
                        assert(decode_utf8(remaining.spec_bytes()) == remaining@);
                        assert(decode_utf8(bytes) == text@);
                        assert(result@ + remaining@ == text@);
                    }
                    self.text = remaining;
                    self.consumed = end_offset;
                    self.token = (start_offset, Token(Tok::from_usize(index), result), end_offset);
                    Ok(())
                },
            }
        }
    }
}

/// A text starts with no more whitespace characters than it has characters.
proof fn lemma_leading_whitespace_bound(s: Seq<char>)
    ensures
        leading_whitespace(s) <= s.len(),
    decreases s.len(),
{
    if s.len() > 0 && is_whitespace(s[0]) {
        lemma_leading_whitespace_bound(s.drop_first());
    }
}

} // verus!
