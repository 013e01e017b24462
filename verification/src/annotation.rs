//! Field annotations and the interpreter that reads an element-setter name
//! out of them.
//!
//! An annotation arrives raw: the path that tags it and the tokens that follow.
//! The one shape that means anything here is a list that holds a single
//! name-value pair, tagged `builder`, with the key `each` and a string literal
//! for the value:
//!
//! ```text
//! #[builder(each = "name")]
//! ```
//!
//! Reading is lenient, and this is the one place that decides it: an annotation
//! of any other shape asks for nothing and is passed over in silence. That
//! holds for another tag, another key, a value that is no string literal, a
//! second pair, and for anything that is no list at all. No annotation makes
//! generation fail. Only the first annotation of a field is read.

use vstd::prelude::*;

verus! {

/// The brackets around a group of tokens.
#[derive(Clone, Copy, Debug, PartialEq, Eq)]
pub enum Delimiter {
    Parenthesis,
    Brace,
    Bracket,
    Invisible,
}

/// One token of an annotation.
#[derive(Debug, PartialEq, Eq)]
pub enum Token {
    /// A word: an identifier or a keyword.
    Ident(String),
    /// A single punctuation character.
    Punct(char),
    /// A literal, as written: `"arg"`, `r"arg"`, `7`, `b'x'`.
    Literal(String),
    /// A bracketed group and the tokens inside it.
    Group(Delimiter, Vec<Token>),
}

/// One raw annotation of a field: `#[path tokens]`.
#[derive(Debug, PartialEq, Eq)]
pub struct Annotation {
    pub path: String,
    pub tokens: Vec<Token>,
}

/// The mathematical value of a [`Token`].
pub enum TokenModel {
    Ident(Seq<char>),
    Punct(char),
    Literal(Seq<char>),
    Group(Delimiter, Seq<TokenModel>),
}

/// The mathematical value of an [`Annotation`].
pub struct AnnotationModel {
    pub path: Seq<char>,
    pub tokens: Seq<TokenModel>,
}

/// The value of a token.
pub open spec fn token_model(token: Token) -> TokenModel
    decreases token,
{
    match token {
        Token::Ident(name) => TokenModel::Ident(name@),
        Token::Punct(c) => TokenModel::Punct(c),
        Token::Literal(source) => TokenModel::Literal(source@),
        Token::Group(delimiter, tokens) => TokenModel::Group(
            delimiter,
            Seq::new(
                tokens@.len(),
                |i: int|
                    if 0 <= i < tokens@.len() {
                        token_model(tokens@[i])
                    } else {
                        arbitrary()
                    },
            ),
        ),
    }
}

/// The values of a series of tokens.
pub open spec fn token_models(tokens: Seq<Token>) -> Seq<TokenModel> {
    Seq::new(tokens.len(), |i: int| token_model(tokens[i]))
}

/// The values of a series of annotations.
pub open spec fn annotation_models(annotations: Seq<Annotation>) -> Seq<AnnotationModel> {
    Seq::new(annotations.len(), |i: int| annotations[i]@)
}

impl View for Token {
    type V = TokenModel;

    open spec fn view(&self) -> TokenModel {
        token_model(*self)
    }
}

impl View for Annotation {
    type V = AnnotationModel;

    open spec fn view(&self) -> AnnotationModel {
        AnnotationModel { path: self.path@, tokens: token_models(self.tokens@) }
    }
}

/// The tag of the annotations that are read.
pub open spec fn recognized_tag() -> Seq<char> {
    "builder"@
}

/// The keyword that introduces an element-setter name.
pub open spec fn recognized_key() -> Seq<char> {
    "each"@
}

/// The text that a string literal stands for, where `literal` is the source of
/// one: escapes resolved, quotes and raw-string marks taken off. `None` where
/// `literal` is not the source of exactly one string literal.
pub uninterp spec fn string_literal_value(literal: Seq<char>) -> Option<Seq<char>>;

/// Whether a literal's source can be that of a string literal at all: those
/// begin with a double quote or, raw, with an `r`.
pub open spec fn may_be_string_literal(literal: Seq<char>) -> bool {
    literal.len() > 0 && (literal[0] == '"' || literal[0] == 'r')
}

/// The text of a literal token: that of a string literal, and nothing for any
/// other kind of literal.
pub open spec fn literal_text(literal: Seq<char>) -> Option<Seq<char>> {
    if may_be_string_literal(literal) {
        string_literal_value(literal)
    } else {
        None
    }
}

/// Reads `key = literal`, with or without a comma after it, and gives the key
/// and the literal's source.
pub open spec fn name_value(items: Seq<TokenModel>) -> Option<(Seq<char>, Seq<char>)> {
    if items.len() == 3 || (items.len() == 4 && items[3] == TokenModel::Punct(',')) {
        match (items[0], items[1], items[2]) {
            (TokenModel::Ident(key), TokenModel::Punct(eq), TokenModel::Literal(literal)) => {
                if eq == '=' {
                    Some((key, literal))
                } else {
                    None
                }
            },
            _ => None,
        }
    } else {
        None
    }
}

/// The element-setter name that a key and the text of its value ask for.
pub open spec fn setter_of(key: Seq<char>, text: Option<Seq<char>>) -> Option<Seq<char>> {
    if key == recognized_key() {
        text
    } else {
        None
    }
}

impl AnnotationModel {
    /// The tokens between the round brackets, when the annotation is a list:
    /// its tokens are one parenthesized group.
    pub open spec fn list_items(self) -> Option<Seq<TokenModel>> {
        if self.tokens.len() == 1 {
            match self.tokens[0] {
                TokenModel::Group(Delimiter::Parenthesis, items) => Some(items),
                _ => None,
            }
        } else {
            None
        }
    }

    /// The single name-value pair of a recognized annotation: the tag is the
    /// recognized one and the list holds one pair and nothing else.
    pub open spec fn single_pair(self) -> Option<(Seq<char>, Seq<char>)> {
        if self.path == recognized_tag() {
            match self.list_items() {
                Some(items) => name_value(items),
                None => None,
            }
        } else {
            None
        }
    }

    /// The element-setter name that the annotation asks for.
    pub open spec fn setter_name(self) -> Option<Seq<char>> {
        match self.single_pair() {
            Some((key, literal)) => setter_of(key, literal_text(literal)),
            None => None,
        }
    }
}

/// The element-setter name that a field's annotations ask for. Only the first
/// annotation is read.
pub open spec fn element_setter(annotations: Seq<AnnotationModel>) -> Option<Seq<char>> {
    if annotations.len() == 0 {
        None
    } else {
        annotations[0].setter_name()
    }
}

/// The text of a string literal, by `syn`: the source is parsed with
/// `syn::parse_str::<syn::LitStr>`, and `syn::LitStr::value` gives the text of
/// what was parsed.
///
/// Trusted, not proved: that the outcome depends on the source alone, so that
/// it is [`string_literal_value`] of the source, and that the call returns for
/// every source that begins with a double quote or an `r`. Nothing is claimed
/// of what the text is. The condition on the first character keeps out the
/// literals that `syn` does not know, such as C strings: on those it panics
/// where it returns an error on any other source that is no string literal.
#[verifier::external_body]
fn decode_string_literal(literal: &str) -> (value: Option<String>)
    requires
        may_be_string_literal(literal@),
    ensures
        value.deep_view() == string_literal_value(literal@),
{
    match syn::parse_str::<syn::LitStr>(literal) {
        Ok(parsed) => Some(parsed.value()),
        Err(_) => None,
    }
}

/// Whether a string holds exactly the given text.
fn text_is(s: &String, wanted: &str) -> (same: bool)
    ensures
        same == (s@ == wanted@),
{
    let wanted = wanted.to_owned();
    *s == wanted
}

/// The text of a literal token: the value of a string literal, `None` for any
/// other literal.
pub fn text_of_literal(literal: &str) -> (text: Option<String>)
    ensures
        text.deep_view() == literal_text(literal@),
{
    if literal.unicode_len() == 0 {
        return None;
    }
    let first = literal.get_char(0);
    if first == '"' || first == 'r' {
        decode_string_literal(literal)
    } else {
        None
    }
}

/// Reads `key = literal`, with or without a comma after it.
pub fn read_name_value<'a>(items: &'a Vec<Token>) -> (pair: Option<(&'a String, &'a String)>)
    ensures
        match pair {
            Some((key, literal)) => name_value(token_models(items@)) == Some((key@, literal@)),
            None => name_value(token_models(items@)) is None,
        },
{
    if items.len() != 3 && items.len() != 4 {
        return None;
    }
    if items.len() == 4 {
        match &items[3] {
            Token::Punct(c) => {
                if *c != ',' {
                    return None;
                }
            },
            _ => {
                return None;
            },
        }
    }
    match (&items[0], &items[1], &items[2]) {
        (Token::Ident(key), Token::Punct(eq), Token::Literal(literal)) => {
            if *eq == '=' {
                Some((key, literal))
            } else {
                None
            }
        },
        _ => None,
    }
}

/// The element-setter name that a key and the text of its value ask for: the
/// text, when the key is `each`.
pub fn element_setter_name(key: &String, text: Option<String>) -> (name: Option<String>)
    ensures
        name.deep_view() == setter_of(key@, text.deep_view()),
{
    if text_is(key, "each") {
        text
    } else {
        None
    }
}

impl Annotation {
    /// Reads the single name-value pair of a recognized annotation.
    pub fn read_single_pair<'a>(&'a self) -> (pair: Option<(&'a String, &'a String)>)
        ensures
            match pair {
                Some((key, literal)) => self@.single_pair() == Some((key@, literal@)),
                None => self@.single_pair() is None,
            },
    {
        if !text_is(&self.path, "builder") {
            return None;
        }
        if self.tokens.len() != 1 {
            return None;
        }
        match &self.tokens[0] {
            Token::Group(delimiter, items) => {
                match delimiter {
                    Delimiter::Parenthesis => read_name_value(items),
                    _ => None,
                }
            },
            _ => None,
        }
    }
}

/// Interprets the annotations of a field: the element-setter name that the
/// first of them asks for, if it asks for one. An annotation of any other
/// shape asks for nothing, and so does a field without annotations.
pub fn interpret(annotations: &Vec<Annotation>) -> (name: Option<String>)
    ensures
        name.deep_view() == element_setter(annotation_models(annotations@)),
{
    if annotations.len() == 0 {
        return None;
    }
    match annotations[0].read_single_pair() {
        Some((key, literal)) => {
            let text = text_of_literal(literal.as_str());
            element_setter_name(key, text)
        },
        None => None,
    }
}

} // verus!
