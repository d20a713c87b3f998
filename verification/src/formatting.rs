//! The bracket markup of styled text: `(content)[style]`.

use vstd::prelude::*;

verus! {

/// One lexical unit of a marked-up text.
#[derive(Debug, Clone, PartialEq, Eq)]
pub enum Token {
    /// `(`
    OpenContent,
    /// `)`
    CloseContent,
    /// `[`
    OpenStyle,
    /// `]`
    CloseStyle,
    /// A run of ordinary characters, escapes resolved.
    Literal(String),
}

/// The view of a [`Token`].
pub enum TokenView {
    OpenContent,
    CloseContent,
    OpenStyle,
    CloseStyle,
    Literal(Seq<char>),
}

impl View for Token {
    type V = TokenView;

    open spec fn view(&self) -> TokenView {
        match self {
            Token::OpenContent => TokenView::OpenContent,
            Token::CloseContent => TokenView::CloseContent,
            Token::OpenStyle => TokenView::OpenStyle,
            Token::CloseStyle => TokenView::CloseStyle,
            Token::Literal(text) => TokenView::Literal(text@),
        }
    }
}

/// The views of a list of tokens.
pub open spec fn token_views(tokens: Seq<Token>) -> Seq<TokenView> {
    Seq::new(tokens.len(), |i: int| tokens[i]@)
}

/// Whether the character is one of the four brackets of the markup.
pub open spec fn is_bracket(ch: char) -> bool {
    ch == '(' || ch == ')' || ch == '[' || ch == ']'
}

/// The token of a bracket.
pub open spec fn bracket(ch: char) -> TokenView {
    if ch == '(' {
        TokenView::OpenContent
    } else if ch == ')' {
        TokenView::CloseContent
    } else if ch == '[' {
        TokenView::OpenStyle
    } else {
        TokenView::CloseStyle
    }
}

/// The state of a scan: the tokens that are complete, the literal that is
/// being read, and whether the last character was an unescaped backslash.
pub struct Scan {
    pub tokens: Seq<TokenView>,
    pub pending: Seq<char>,
    pub escaping: bool,
}

impl Scan {
    /// The tokens with the literal being read, if any, closed.
    pub open spec fn flushed(self) -> Seq<TokenView> {
        if self.pending.len() > 0 {
            self.tokens.push(TokenView::Literal(self.pending))
        } else {
            self.tokens
        }
    }

    /// The state after one more character. An unescaped bracket closes the
    /// literal being read and stands for itself; an unescaped backslash
    /// escapes the character after it; every other character, and every
    /// escaped one, joins the literal.
    pub open spec fn step(self, ch: char) -> Scan {
        if is_bracket(ch) && !self.escaping {
            Scan {
                tokens: self.flushed().push(bracket(ch)),
                pending: Seq::empty(),
                escaping: false,
            }
        } else if ch == '\\' && !self.escaping {
            Scan { escaping: true, ..self }
        } else {
            Scan { pending: self.pending.push(ch), escaping: false, ..self }
        }
    }
}

/// The state after scanning all of `input`.
pub open spec fn scan(input: Seq<char>) -> Scan
    decreases input.len(),
{
    if input.len() == 0 {
        Scan { tokens: Seq::empty(), pending: Seq::empty(), escaping: false }
    } else {
        scan(input.drop_last()).step(input.last())
    }
}

/// The tokens of a marked-up text.
pub open spec fn tokens_of(input: Seq<char>) -> Seq<TokenView> {
    scan(input).flushed()
}

/// Whether the character has a meaning of its own in the markup.
pub open spec fn is_special(ch: char) -> bool {
    is_bracket(ch) || ch == '\\'
}

/// A text without brackets and backslashes is read as it stands.
pub proof fn lemma_plain_text_scans_to_itself(input: Seq<char>)
    requires
        forall|i: int| 0 <= i < input.len() ==> !is_special(input[i]),
    ensures
        scan(input) == (Scan { tokens: Seq::empty(), pending: input, escaping: false }),
        input.len() > 0 ==> tokens_of(input) == seq![TokenView::Literal(input)],
        input.len() == 0 ==> tokens_of(input) == Seq::<TokenView>::empty(),
    decreases input.len(),
{
    if input.len() > 0 {
        lemma_plain_text_scans_to_itself(input.drop_last());
        assert(input.drop_last().push(input.last()) =~= input);
    } else {
        assert(input =~= Seq::<char>::empty());
    }
}

/// No literal among the tokens of a text is empty.
pub proof fn lemma_literals_are_not_empty(input: Seq<char>, i: int)
    requires
        0 <= i < tokens_of(input).len(),
    ensures
        tokens_of(input)[i] matches TokenView::Literal(text) ==> text.len() > 0,
{
    lemma_scanned_literals_are_not_empty(input);
}

proof fn lemma_scanned_literals_are_not_empty(input: Seq<char>)
    ensures
        forall|i: int|
            0 <= i < scan(input).tokens.len() ==> (
            #[trigger] scan(input).tokens[i] matches TokenView::Literal(text) ==> text.len() > 0),
    decreases input.len(),
{
    if input.len() > 0 {
        lemma_scanned_literals_are_not_empty(input.drop_last());
    }
}

/// A token list with a reading position.
#[derive(Debug)]
pub struct Parser {
    pub tokens: Vec<Token>,
    pub pos: usize,
}

impl Parser {
    /// Splits a marked-up text into tokens and sets the reading position
    /// to the first of them.
    pub fn tokenize(input: String) -> (r: Parser)
        ensures
            token_views(r.tokens@) == tokens_of(input@),
            r.pos == 0,
    {
        let mut tokens: Vec<Token> = Vec::new();
        let mut tmp = String::new();
        let mut escaping = false;
        assert(token_views(tokens@) =~= Seq::empty());
        for ch in it: input.as_str().chars()
            invariant
                it.seq() == input@,
                (Scan { tokens: token_views(tokens@), pending: tmp@, escaping }) == scan(
                    input@.take(it.index() as int),
                ),
        {
            let ghost before = Scan { tokens: token_views(tokens@), pending: tmp@, escaping };
            assert(input@.take(it.index() + 1).drop_last() =~= input@.take(it.index() as int));
            if (ch == '(' || ch == ')' || ch == '[' || ch == ']') && !escaping {
                if tmp.as_str().unicode_len() > 0 {
                    tokens.push(Token::Literal(tmp));
                    tmp = String::new();
                }
                assert(token_views(tokens@) =~= before.flushed());
                let ghost flushed = token_views(tokens@);
                if ch == '(' {
                    tokens.push(Token::OpenContent);
                } else if ch == ')' {
                    tokens.push(Token::CloseContent);
                } else if ch == '[' {
                    tokens.push(Token::OpenStyle);
                } else {
                    tokens.push(Token::CloseStyle);
                }
                assert(token_views(tokens@) =~= flushed.push(bracket(ch)));
            } else if ch == '\\' && !escaping {
                escaping = true;
            } else {
                tmp.push(ch);
                escaping = false;
            }
        }
        assert(input@.take(input@.len() as int) =~= input@);
        if tmp.as_str().unicode_len() > 0 {
            tokens.push(Token::Literal(tmp));
        }
        Parser { tokens, pos: 0 }
    }
}

} // verus!
