//! Printing of syntax trees: a formatter that tracks what the output ends
//! with, so that tokens are separated only where they must be, and what the
//! next node may begin with, so that it is wrapped where it must be.

use vstd::prelude::*;

verus! {

#[derive(Copy, Clone, Debug, PartialEq, Eq, Structural)]
pub enum Punctuator {
    Eq,
    EqEq,
    EqEqEq,
    Neq,
    NeqEq,
    CurlyR,
    CurlyL,
    ParenR,
    ParenL,
    SquareR,
    SquareL,
    AngleR,
    AngleL,
    Semicolon,
    SQuote,
    Ellipsis,
    Period,
    At,
    Comma,
    Question,
    Colon,
    ColonColon,
    Slash,
    Star,
    StarStar,
    Plus,
    PlusPlus,
    Subtract,
    Minus,
    MinusMinus,
    Arrow,
    ArrowStar,
    Caret,
    LAngle,
    LAngleEq,
    LAngleAngle,
    RAngle,
    RAngleEq,
    RAngleAngle,
    RAngleAngleAngle,
    Mod,
    Amp,
    AmpAmp,
    Bar,
    BarBar,
    Bind,
    Exclam,
    Tilde,
    Hash,
    TemplateOpen,
    TemplateClose,
    TemplateTick,
    SlashAngle,
    AngleSlash,
    QuestionPeriod,
}

#[derive(Copy, Clone, Debug, PartialEq, Eq, Structural)]
pub enum Keyword {
    Export,
    Default,
    Function,
    Class,
    Import,
    From,
    This,
    Extends,
    New,
    Target,
    Meta,
    Sent,
    Arguments,
    Super,
    Typeof,
    Var,
    Let,
    Const,
    In,
    While,
    Do,
    Switch,
    With,
    Finally,
    Debugger,
    Catch,
    True,
    False,
    Return,
    Case,
    Await,
    For,
    Throw,
    Try,
    Of,
    If,
    Else,
    Continue,
    Break,
    Async,
    Null,
    Delete,
    Yield,
    Instanceof,
    Void,
    Get,
    SetKeyword,
    Static,
    As,
}

/// The text that a punctuator prints.
pub open spec fn punctuator_text(p: Punctuator) -> Seq<char> {
    match p {
        Punctuator::Eq => "="@,
        Punctuator::EqEq => "=="@,
        Punctuator::EqEqEq => "==="@,
        Punctuator::Neq => "!="@,
        Punctuator::NeqEq => "!=="@,
        Punctuator::CurlyR => "}"@,
        Punctuator::CurlyL => "{"@,
        Punctuator::ParenR => ")"@,
        Punctuator::ParenL => "("@,
        Punctuator::SquareR => "]"@,
        Punctuator::SquareL => "["@,
        Punctuator::AngleR => ">"@,
        Punctuator::AngleL => "<"@,
        Punctuator::Semicolon => ";"@,
        Punctuator::SQuote => "'"@,
        Punctuator::Ellipsis => "..."@,
        Punctuator::Period => "."@,
        Punctuator::At => "@"@,
        Punctuator::Comma => ","@,
        Punctuator::Question => "?"@,
        Punctuator::Colon => ":"@,
        Punctuator::ColonColon => "::"@,
        Punctuator::Slash => "/"@,
        Punctuator::Star => "*"@,
        Punctuator::StarStar => "**"@,
        Punctuator::Plus => "+"@,
        Punctuator::PlusPlus => "++"@,
        Punctuator::Subtract => "-"@,
        Punctuator::Minus => "-"@,
        Punctuator::MinusMinus => "--"@,
        Punctuator::Arrow => "=>"@,
        Punctuator::ArrowStar => "=*>"@,
        Punctuator::Caret => "^"@,
        Punctuator::LAngle => "<"@,
        Punctuator::LAngleEq => "<="@,
        Punctuator::LAngleAngle => "<<"@,
        Punctuator::RAngle => ">"@,
        Punctuator::RAngleEq => ">="@,
        Punctuator::RAngleAngle => ">>"@,
        Punctuator::RAngleAngleAngle => ">>>"@,
        Punctuator::Mod => "%"@,
        Punctuator::Amp => "&"@,
        Punctuator::AmpAmp => "&&"@,
        Punctuator::Bar => "|"@,
        Punctuator::BarBar => "||"@,
        Punctuator::Bind => "::"@,
        Punctuator::Exclam => "!"@,
        Punctuator::Tilde => "~"@,
        Punctuator::Hash => "#"@,
        Punctuator::TemplateOpen => "${"@,
        Punctuator::TemplateClose => "}"@,
        Punctuator::TemplateTick => "`"@,
        Punctuator::SlashAngle => "/>"@,
        Punctuator::AngleSlash => "</"@,
        Punctuator::QuestionPeriod => "?."@,
    }
}

/// The text that a keyword prints.
pub open spec fn keyword_text(k: Keyword) -> Seq<char> {
    match k {
        Keyword::Export => "export"@,
        Keyword::Default => "default"@,
        Keyword::Function => "function"@,
        Keyword::Class => "class"@,
        Keyword::Import => "import"@,
        Keyword::From => "from"@,
        Keyword::This => "this"@,
        Keyword::Extends => "extends"@,
        Keyword::New => "new"@,
        Keyword::Target => "target"@,
        Keyword::Meta => "meta"@,
        Keyword::Sent => "sent"@,
        Keyword::Arguments => "arguments"@,
        Keyword::Super => "super"@,
        Keyword::Typeof => "typeof"@,
        Keyword::Var => "var"@,
        Keyword::Let => "let"@,
        Keyword::Const => "const"@,
        Keyword::In => "in"@,
        Keyword::While => "while"@,
        Keyword::Do => "do"@,
        Keyword::Switch => "switch"@,
        Keyword::With => "with"@,
        Keyword::Finally => "finally"@,
        Keyword::Debugger => "debugger"@,
        Keyword::Catch => "catch"@,
        Keyword::True => "true"@,
        Keyword::False => "false"@,
        Keyword::Return => "return"@,
        Keyword::Case => "case"@,
        Keyword::Await => "await"@,
        Keyword::For => "for"@,
        Keyword::Throw => "throw"@,
        Keyword::Try => "try"@,
        Keyword::Of => "of"@,
        Keyword::If => "if"@,
        Keyword::Else => "else"@,
        Keyword::Continue => "continue"@,
        Keyword::Break => "break"@,
        Keyword::Async => "async"@,
        Keyword::Null => "null"@,
        Keyword::Delete => "delete"@,
        Keyword::Yield => "yield"@,
        Keyword::Instanceof => "instanceof"@,
        Keyword::Void => "void"@,
        Keyword::Get => "get"@,
        Keyword::SetKeyword => "set"@,
        Keyword::Static => "static"@,
        Keyword::As => "as"@,
    }
}

pub fn punctuator_str(p: Punctuator) -> (s: &'static str)
    ensures
        s@ == punctuator_text(p),
{
    match p {
        Punctuator::Eq => "=",
        Punctuator::EqEq => "==",
        Punctuator::EqEqEq => "===",
        Punctuator::Neq => "!=",
        Punctuator::NeqEq => "!==",
        Punctuator::CurlyR => "}",
        Punctuator::CurlyL => "{",
        Punctuator::ParenR => ")",
        Punctuator::ParenL => "(",
        Punctuator::SquareR => "]",
        Punctuator::SquareL => "[",
        Punctuator::AngleR => ">",
        Punctuator::AngleL => "<",
        Punctuator::Semicolon => ";",
        Punctuator::SQuote => "'",
        Punctuator::Ellipsis => "...",
        Punctuator::Period => ".",
        Punctuator::At => "@",
        Punctuator::Comma => ",",
        Punctuator::Question => "?",
        Punctuator::Colon => ":",
        Punctuator::ColonColon => "::",
        Punctuator::Slash => "/",
        Punctuator::Star => "*",
        Punctuator::StarStar => "**",
        Punctuator::Plus => "+",
        Punctuator::PlusPlus => "++",
        Punctuator::Subtract => "-",
        Punctuator::Minus => "-",
        Punctuator::MinusMinus => "--",
        Punctuator::Arrow => "=>",
        Punctuator::ArrowStar => "=*>",
        Punctuator::Caret => "^",
        Punctuator::LAngle => "<",
        Punctuator::LAngleEq => "<=",
        Punctuator::LAngleAngle => "<<",
        Punctuator::RAngle => ">",
        Punctuator::RAngleEq => ">=",
        Punctuator::RAngleAngle => ">>",
        Punctuator::RAngleAngleAngle => ">>>",
        Punctuator::Mod => "%",
        Punctuator::Amp => "&",
        Punctuator::AmpAmp => "&&",
        Punctuator::Bar => "|",
        Punctuator::BarBar => "||",
        Punctuator::Bind => "::",
        Punctuator::Exclam => "!",
        Punctuator::Tilde => "~",
        Punctuator::Hash => "#",
        Punctuator::TemplateOpen => "${",
        Punctuator::TemplateClose => "}",
        Punctuator::TemplateTick => "`",
        Punctuator::SlashAngle => "/>",
        Punctuator::AngleSlash => "</",
        Punctuator::QuestionPeriod => "?.",
    }
}

pub fn keyword_str(k: Keyword) -> (s: &'static str)
    ensures
        s@ == keyword_text(k),
{
    match k {
        Keyword::Export => "export",
        Keyword::Default => "default",
        Keyword::Function => "function",
        Keyword::Class => "class",
        Keyword::Import => "import",
        Keyword::From => "from",
        Keyword::This => "this",
        Keyword::Extends => "extends",
        Keyword::New => "new",
        Keyword::Target => "target",
        Keyword::Meta => "meta",
        Keyword::Sent => "sent",
        Keyword::Arguments => "arguments",
        Keyword::Super => "super",
        Keyword::Typeof => "typeof",
        Keyword::Var => "var",
        Keyword::Let => "let",
        Keyword::Const => "const",
        Keyword::In => "in",
        Keyword::While => "while",
        Keyword::Do => "do",
        Keyword::Switch => "switch",
        Keyword::With => "with",
        Keyword::Finally => "finally",
        Keyword::Debugger => "debugger",
        Keyword::Catch => "catch",
        Keyword::True => "true",
        Keyword::False => "false",
        Keyword::Return => "return",
        Keyword::Case => "case",
        Keyword::Await => "await",
        Keyword::For => "for",
        Keyword::Throw => "throw",
        Keyword::Try => "try",
        Keyword::Of => "of",
        Keyword::If => "if",
        Keyword::Else => "else",
        Keyword::Continue => "continue",
        Keyword::Break => "break",
        Keyword::Async => "async",
        Keyword::Null => "null",
        Keyword::Delete => "delete",
        Keyword::Yield => "yield",
        Keyword::Instanceof => "instanceof",
        Keyword::Void => "void",
        Keyword::Get => "get",
        Keyword::SetKeyword => "set",
        Keyword::Static => "static",
        Keyword::As => "as",
    }
}

/// Binding strength, from loosest to tightest.
#[derive(Copy, Clone, Debug, PartialEq, Eq, Structural)]
pub enum Precedence {
    Normal,
    Assignment,
    Conditional,
    LogicalOr,
    LogicalAnd,
    BitwiseOr,
    BitwiseXOr,
    BitwiseAnd,
    Equality,
    Relational,
    Shift,
    Additive,
    Multiplicative,
    Exponential,
    Unary,
    Update,
    LeftHand,
    New,
    Member,
    Primary,
}

impl Precedence {
    /// The place of a precedence in the order, from 1 for `Normal`.
    pub open spec fn level(self) -> nat {
        match self {
            Precedence::Normal => 1,
            Precedence::Assignment => 2,
            Precedence::Conditional => 3,
            Precedence::LogicalOr => 4,
            Precedence::LogicalAnd => 5,
            Precedence::BitwiseOr => 6,
            Precedence::BitwiseXOr => 7,
            Precedence::BitwiseAnd => 8,
            Precedence::Equality => 9,
            Precedence::Relational => 10,
            Precedence::Shift => 11,
            Precedence::Additive => 12,
            Precedence::Multiplicative => 13,
            Precedence::Exponential => 14,
            Precedence::Unary => 15,
            Precedence::Update => 16,
            Precedence::LeftHand => 17,
            Precedence::New => 18,
            Precedence::Member => 19,
            Precedence::Primary => 20,
        }
    }

    pub fn rank(self) -> (r: u8)
        ensures
            r == self.level(),
    {
        match self {
            Precedence::Normal => 1,
            Precedence::Assignment => 2,
            Precedence::Conditional => 3,
            Precedence::LogicalOr => 4,
            Precedence::LogicalAnd => 5,
            Precedence::BitwiseOr => 6,
            Precedence::BitwiseXOr => 7,
            Precedence::BitwiseAnd => 8,
            Precedence::Equality => 9,
            Precedence::Relational => 10,
            Precedence::Shift => 11,
            Precedence::Additive => 12,
            Precedence::Multiplicative => 13,
            Precedence::Exponential => 14,
            Precedence::Unary => 15,
            Precedence::Update => 16,
            Precedence::LeftHand => 17,
            Precedence::New => 18,
            Precedence::Member => 19,
            Precedence::Primary => 20,
        }
    }
}

/// What the next expression may not begin with.
#[derive(Copy, Clone, Debug, PartialEq, Eq, Structural)]
pub enum LookaheadRestriction {
    /// No function or class declarations.
    ExportDefault,
    /// No function or class declarations, open curlies, or `let [`.
    ExpressionStatement,
    /// No `let [`.
    ForInit,
    /// No `let`.
    ForOfInit,
    /// No `{`.
    ConciseBody,
}

/// What an expression begins with, as far as lookahead restrictions go.
#[derive(Copy, Clone, Debug, PartialEq, Eq, Structural)]
pub enum LookaheadSequence {
    Plain,
    Declaration,
    Curly,
    LetSquare,
    Let,
}

/// Whether `restriction` forbids an expression that begins with `sequence`.
pub open spec fn lookahead_forbids(
    restriction: Option<LookaheadRestriction>,
    sequence: LookaheadSequence,
) -> bool {
    match restriction {
        Some(LookaheadRestriction::ExportDefault) => sequence == LookaheadSequence::Declaration,
        Some(LookaheadRestriction::ExpressionStatement) => sequence != LookaheadSequence::Plain,
        Some(LookaheadRestriction::ForInit) => sequence == LookaheadSequence::LetSquare,
        Some(LookaheadRestriction::ForOfInit) => sequence == LookaheadSequence::Let || sequence
            == LookaheadSequence::LetSquare,
        Some(LookaheadRestriction::ConciseBody) => sequence == LookaheadSequence::Curly,
        None => false,
    }
}

/// Printing never fails; the error is kept for the printing interface.
#[derive(Copy, Clone, Debug, PartialEq, Eq, Structural)]
pub enum NodeDisplayError {
    Fmt,
}

pub type NodeDisplayResult = Result<(), NodeDisplayError>;

/// What a formatter holds: the context that the next node is printed in, and
/// the output so far.
pub struct FormatterView {
    pub prec: Precedence,
    pub in_operator: bool,
    pub wrap_standalone_if: bool,
    pub lookahead_restriction: Option<LookaheadRestriction>,
    pub ends_with_integer: bool,
    pub ends_with_keyword: bool,
    pub output: Seq<char>,
}

/// The text of an item that has an optional raw form: the raw form where
/// there is one, else the value.
pub open spec fn raw_or_value(value: &str, raw: Option<&str>) -> Seq<char> {
    match raw {
        Some(r) => r@,
        None => value@,
    }
}

/// The text of a node that keeps an optional raw form beside its value.
pub open spec fn raw_text(value: Seq<char>, raw: Option<String>) -> Seq<char> {
    match raw {
        Some(r) => r@,
        None => value,
    }
}

/// Borrows the raw form of a node, where it has one.
pub fn raw_str(raw: &Option<String>) -> (r: Option<&str>)
    ensures
        forall|v: &str| #[trigger] raw_or_value(v, r) == raw_text(v@, *raw),
{
    match raw {
        Some(s) => Some(s.as_str()),
        None => None,
    }
}

/// The space that goes before a word: one, where the output ends with a word.
pub open spec fn word_gap(ends_with_keyword: bool) -> Seq<char> {
    if ends_with_keyword {
        " "@
    } else {
        Seq::empty()
    }
}

impl FormatterView {
    /// A fresh formatter.
    pub open spec fn initial() -> FormatterView {
        FormatterView {
            prec: Precedence::Normal,
            in_operator: true,
            wrap_standalone_if: false,
            lookahead_restriction: None,
            ends_with_integer: false,
            ends_with_keyword: false,
            output: Seq::empty(),
        }
    }

    /// The formatter after a word (a keyword or an identifier) is printed:
    /// a space first where the output ends with a word.
    pub open spec fn with_word(self, word: Seq<char>) -> FormatterView {
        FormatterView {
            ends_with_keyword: true,
            ends_with_integer: false,
            lookahead_restriction: None,
            output: self.output + word_gap(self.ends_with_keyword) + word,
            ..self
        }
    }

    pub open spec fn with_keyword(self, k: Keyword) -> FormatterView {
        self.with_word(keyword_text(k))
    }

    /// The formatter after a punctuator is printed, with no space before it.
    pub open spec fn with_punctuator(self, p: Punctuator) -> FormatterView {
        FormatterView {
            ends_with_keyword: false,
            ends_with_integer: false,
            lookahead_restriction: None,
            output: self.output + punctuator_text(p),
            ..self
        }
    }

    /// The formatter after `text` is written as it is, with nothing else changed.
    pub open spec fn with_text(self, text: Seq<char>) -> FormatterView {
        FormatterView { output: self.output + text, ..self }
    }

    /// The formatter after a string literal is printed in single quotes.
    pub open spec fn with_string(self, text: Seq<char>) -> FormatterView {
        self.with_punctuator(Punctuator::SQuote).with_text(text).with_punctuator(Punctuator::SQuote)
    }

    /// The formatter after a regular expression is printed.
    pub open spec fn with_regexp(self, value: Seq<char>, flags: Seq<char>) -> FormatterView {
        self.with_punctuator(Punctuator::Slash).with_text(value).with_punctuator(
            Punctuator::Slash,
        ).with_text(flags)
    }

    /// What releasing a lock with `release` does.
    pub open spec fn released(self, release: LockRelease) -> FormatterView {
        match release {
            LockRelease::Nothing => self,
            LockRelease::Precedence(p) => FormatterView { prec: p, ..self },
            LockRelease::Lookahead(l) => if self.lookahead_restriction is Some {
                FormatterView { lookahead_restriction: l, ..self }
            } else {
                self
            },
            LockRelease::InOperator(b) => FormatterView { in_operator: b, ..self },
            LockRelease::OrphanIf(b) => FormatterView { wrap_standalone_if: b, ..self },
            LockRelease::Parens(p, i, w) => FormatterView {
                prec: p,
                in_operator: i,
                wrap_standalone_if: w,
                ..self
            }.with_punctuator(Punctuator::ParenR),
            LockRelease::Curly(w, i) => FormatterView {
                wrap_standalone_if: w,
                in_operator: i,
                ..self
            }.with_punctuator(Punctuator::CurlyR),
            LockRelease::Square(w, i) => FormatterView {
                wrap_standalone_if: w,
                in_operator: i,
                ..self
            }.with_punctuator(Punctuator::SquareR),
        }
    }

    /// What opening parentheses does, where `wrap` holds: the context inside
    /// them, and the lock that closes them.
    pub open spec fn parens_opened(self, wrap: bool) -> (FormatterView, LockRelease) {
        if wrap {
            (
                FormatterView {
                    prec: Precedence::Normal,
                    in_operator: true,
                    wrap_standalone_if: false,
                    ..self
                }.with_punctuator(Punctuator::ParenL),
                LockRelease::Parens(self.prec, self.in_operator, self.wrap_standalone_if),
            )
        } else {
            (self, LockRelease::Nothing)
        }
    }

    pub open spec fn curly_opened(self) -> (FormatterView, LockRelease) {
        (
            FormatterView {
                wrap_standalone_if: false,
                in_operator: true,
                ..self
            }.with_punctuator(Punctuator::CurlyL),
            LockRelease::Curly(self.wrap_standalone_if, self.in_operator),
        )
    }

    pub open spec fn square_opened(self) -> (FormatterView, LockRelease) {
        (
            FormatterView {
                wrap_standalone_if: false,
                in_operator: true,
                ..self
            }.with_punctuator(Punctuator::SquareL),
            LockRelease::Square(self.wrap_standalone_if, self.in_operator),
        )
    }
}

/// A node that can be printed.
pub trait NodeDisplay {
    /// The formatter after this node is printed from `f`.
    spec fn printed(&self, f: FormatterView) -> FormatterView;

    fn fmt(&self, f: &mut NodeFormatter) -> (r: NodeDisplayResult)
        ensures
            r is Ok,
            final(f)@ == self.printed(old(f)@),
    ;

    /// The text of this node, printed by a fresh formatter.
    fn to_string(&self) -> (s: String)
        ensures
            s@ == self.printed(FormatterView::initial()).output,
    {
        let mut f = NodeFormatter::new();
        let _ = self.fmt(&mut f);
        f.output
    }
}

impl<T: NodeDisplay> NodeDisplay for Box<T> {
    open spec fn printed(&self, f: FormatterView) -> FormatterView {
        (**self).printed(f)
    }

    fn fmt(&self, f: &mut NodeFormatter) -> (r: NodeDisplayResult) {
        (**self).fmt(f)
    }
}

impl<T: NodeDisplay> NodeDisplay for Option<T> {
    open spec fn printed(&self, f: FormatterView) -> FormatterView {
        match self {
            Some(n) => n.printed(f),
            None => f,
        }
    }

    fn fmt(&self, f: &mut NodeFormatter) -> (r: NodeDisplayResult) {
        match self {
            Some(n) => n.fmt(f),
            None => Ok(()),
        }
    }
}

/// The formatter after each of `items` is printed in turn from `f`.
pub open spec fn printed_all<T: NodeDisplay>(items: Seq<T>, f: FormatterView) -> FormatterView
    decreases items.len(),
{
    if items.len() == 0 {
        f
    } else {
        items.last().printed(printed_all(items.drop_last(), f))
    }
}

/// The formatter after `items` are printed in turn from `f`, with a comma
/// between each two.
pub open spec fn printed_separated<T: NodeDisplay>(items: Seq<T>, f: FormatterView) -> FormatterView
    decreases items.len(),
{
    if items.len() == 0 {
        f
    } else if items.len() == 1 {
        items[0].printed(f)
    } else {
        items.last().printed(printed_separated(items.drop_last(), f).with_punctuator(Punctuator::Comma))
    }
}

impl FormatterView {
    /// What `NodeFormatter::comma_list` prints: the items with commas between
    /// them, at assignment precedence.
    pub open spec fn with_comma_list<T: NodeDisplay>(self, items: Seq<T>) -> FormatterView {
        printed_separated(items, FormatterView { prec: Precedence::Assignment, ..self }).released(
            LockRelease::Precedence(self.prec),
        )
    }

    /// A comma list in curly brackets.
    pub open spec fn with_curly_list<T: NodeDisplay>(self, items: Seq<T>) -> FormatterView {
        let (inside, lock) = self.curly_opened();
        inside.with_comma_list(items).released(lock)
    }

    /// A comma list in square brackets.
    pub open spec fn with_square_list<T: NodeDisplay>(self, items: Seq<T>) -> FormatterView {
        let (inside, lock) = self.square_opened();
        inside.with_comma_list(items).released(lock)
    }
}

/// What a lock restores when it is released.
#[derive(Copy, Clone, Debug, PartialEq, Eq, Structural)]
pub enum LockRelease {
    Nothing,
    Precedence(Precedence),
    Lookahead(Option<LookaheadRestriction>),
    InOperator(bool),
    OrphanIf(bool),
    /// Closes parentheses and restores precedence, `in` and orphan-`if` handling.
    Parens(Precedence, bool, bool),
    /// Closes a curly bracket and restores orphan-`if` and `in` handling.
    Curly(bool, bool),
    /// Closes a square bracket and restores orphan-`if` and `in` handling.
    Square(bool, bool),
}

/// A change of context that holds until it is given back to
/// `NodeFormatter::release`.
pub struct FormatterLock {
    release: LockRelease,
}

impl FormatterLock {
    pub closed spec fn action(&self) -> LockRelease {
        self.release
    }
}

/// Prints syntax trees.
pub struct NodeFormatter {
    prec: Precedence,
    in_operator: bool,
    wrap_standalone_if: bool,
    lookahead_restriction: Option<LookaheadRestriction>,
    ends_with_integer: bool,
    ends_with_keyword: bool,
    pub output: String,
}

impl View for NodeFormatter {
    type V = FormatterView;

    closed spec fn view(&self) -> FormatterView {
        FormatterView {
            prec: self.prec,
            in_operator: self.in_operator,
            wrap_standalone_if: self.wrap_standalone_if,
            lookahead_restriction: self.lookahead_restriction,
            ends_with_integer: self.ends_with_integer,
            ends_with_keyword: self.ends_with_keyword,
            output: self.output@,
        }
    }
}

/// Appends one character to a string: `String::push`.
#[verifier::external_body]
fn push_char(s: &mut String, c: char)
    ensures
        final(s)@ == old(s)@.push(c),
{
    s.push(c)
}

impl NodeFormatter {
    pub fn new() -> (f: NodeFormatter)
        ensures
            f@ == FormatterView::initial(),
    {
        NodeFormatter {
            prec: Precedence::Normal,
            in_operator: true,
            wrap_standalone_if: false,
            lookahead_restriction: None,
            ends_with_integer: false,
            ends_with_keyword: false,
            output: String::new(),
        }
    }

    /// Gives back a lock: what it changed is restored, and what it opened is closed.
    pub fn release(&mut self, lock: FormatterLock)
        ensures
            final(self)@ == old(self)@.released(lock.action()),
    {
        match lock.release {
            LockRelease::Nothing => {},
            LockRelease::Precedence(p) => {
                self.prec = p;
            },
            LockRelease::Lookahead(l) => {
                if self.lookahead_restriction.is_some() {
                    self.lookahead_restriction = l;
                }
            },
            LockRelease::InOperator(b) => {
                self.in_operator = b;
            },
            LockRelease::OrphanIf(b) => {
                self.wrap_standalone_if = b;
            },
            LockRelease::Parens(p, i, w) => {
                self.prec = p;
                self.in_operator = i;
                self.wrap_standalone_if = w;
                self.punctuator(Punctuator::ParenR);
            },
            LockRelease::Curly(w, i) => {
                self.wrap_standalone_if = w;
                self.in_operator = i;
                self.punctuator(Punctuator::CurlyR);
            },
            LockRelease::Square(w, i) => {
                self.wrap_standalone_if = w;
                self.in_operator = i;
                self.punctuator(Punctuator::SquareR);
            },
        }
    }

    /// Sets the active precedence: what is printed under the lock is
    /// parenthesized where `p` binds more loosely than the context asks.
    pub fn precedence(&mut self, p: Precedence) -> (lock: FormatterLock)
        ensures
            (final(self)@, lock.action()) == old(self)@.parens_opened(p.level() < old(self)@.prec.level()),
    {
        let wrap = p.rank() < self.prec.rank();
        self.wrap_parens_inner(wrap)
    }

    /// Asks for precedence `p` until the lock is released.
    pub fn require_precedence(&mut self, p: Precedence) -> (lock: FormatterLock)
        ensures
            final(self)@ == (FormatterView { prec: p, ..old(self)@ }),
            lock.action() == LockRelease::Precedence(old(self)@.prec),
    {
        let prec = self.prec;
        self.prec = p;
        FormatterLock { release: LockRelease::Precedence(prec) }
    }

    /// Restricts what the next expression may begin with; the restriction
    /// ends at the next token printed, and a release does not bring back one
    /// that a token ended.
    pub fn restrict_lookahead(&mut self, lookahead: LookaheadRestriction) -> (lock: FormatterLock)
        ensures
            final(self)@ == (FormatterView { lookahead_restriction: Some(lookahead), ..old(self)@ }),
            lock.action() == LockRelease::Lookahead(old(self)@.lookahead_restriction),
    {
        let lookahead_restriction = self.lookahead_restriction;
        self.lookahead_restriction = Some(lookahead);
        FormatterLock { release: LockRelease::Lookahead(lookahead_restriction) }
    }

    /// Parenthesizes what follows where it begins with a sequence that the
    /// active lookahead restriction forbids.
    pub fn lookahead_wrap_parens(&mut self, sequence: LookaheadSequence) -> (lock: FormatterLock)
        ensures
            (final(self)@, lock.action()) == old(self)@.parens_opened(
                lookahead_forbids(old(self)@.lookahead_restriction, sequence),
            ),
    {
        let wrap = match self.lookahead_restriction {
            Some(LookaheadRestriction::ExportDefault) => matches!(sequence, LookaheadSequence::Declaration),
            Some(LookaheadRestriction::ExpressionStatement) => !matches!(sequence, LookaheadSequence::Plain),
            Some(LookaheadRestriction::ForInit) => matches!(sequence, LookaheadSequence::LetSquare),
            Some(LookaheadRestriction::ForOfInit) => matches!(sequence, LookaheadSequence::Let)
                || matches!(sequence, LookaheadSequence::LetSquare),
            Some(LookaheadRestriction::ConciseBody) => matches!(sequence, LookaheadSequence::Curly),
            None => false,
        };
        self.wrap_parens_inner(wrap)
    }

    /// Allows the `in` operator unparenthesized until the lock is released.
    pub fn allow_in(&mut self) -> (lock: FormatterLock)
        ensures
            final(self)@ == (FormatterView { in_operator: true, ..old(self)@ }),
            lock.action() == LockRelease::InOperator(old(self)@.in_operator),
    {
        let in_operator = self.in_operator;
        self.in_operator = true;
        FormatterLock { release: LockRelease::InOperator(in_operator) }
    }

    /// Disallows the `in` operator unparenthesized until the lock is released.
    pub fn disallow_in(&mut self) -> (lock: FormatterLock)
        ensures
            final(self)@ == (FormatterView { in_operator: false, ..old(self)@ }),
            lock.action() == LockRelease::InOperator(old(self)@.in_operator),
    {
        let in_operator = self.in_operator;
        self.in_operator = false;
        FormatterLock { release: LockRelease::InOperator(in_operator) }
    }

    /// Parenthesizes what follows where the `in` operator is disallowed.
    pub fn in_wrap_parens(&mut self) -> (lock: FormatterLock)
        ensures
            (final(self)@, lock.action()) == old(self)@.parens_opened(!old(self)@.in_operator),
    {
        let wrap = !self.in_operator;
        self.wrap_parens_inner(wrap)
    }

    fn wrap_parens_inner(&mut self, wrap: bool) -> (lock: FormatterLock)
        ensures
            (final(self)@, lock.action()) == old(self)@.parens_opened(wrap),
    {
        if !wrap {
            return FormatterLock { release: LockRelease::Nothing };
        }
        let prec = self.prec;
        let in_operator = self.in_operator;
        let wrap_standalone_if = self.wrap_standalone_if;
        self.prec = Precedence::Normal;
        self.in_operator = true;
        self.wrap_standalone_if = false;
        self.punctuator(Punctuator::ParenL);
        FormatterLock { release: LockRelease::Parens(prec, in_operator, wrap_standalone_if) }
    }

    /// Wraps what follows in parentheses.
    pub fn wrap_parens(&mut self) -> (lock: FormatterLock)
        ensures
            (final(self)@, lock.action()) == old(self)@.parens_opened(true),
    {
        self.wrap_parens_inner(true)
    }

    /// Wraps what follows in curly brackets.
    pub fn wrap_curly(&mut self) -> (lock: FormatterLock)
        ensures
            (final(self)@, lock.action()) == old(self)@.curly_opened(),
    {
        let wrap_standalone_if = self.wrap_standalone_if;
        let in_operator = self.in_operator;
        self.wrap_standalone_if = false;
        self.in_operator = true;
        self.punctuator(Punctuator::CurlyL);
        FormatterLock { release: LockRelease::Curly(wrap_standalone_if, in_operator) }
    }

    /// Wraps what follows in square brackets.
    pub fn wrap_square(&mut self) -> (lock: FormatterLock)
        ensures
            (final(self)@, lock.action()) == old(self)@.square_opened(),
    {
        let wrap_standalone_if = self.wrap_standalone_if;
        let in_operator = self.in_operator;
        self.wrap_standalone_if = false;
        self.in_operator = true;
        self.punctuator(Punctuator::SquareL);
        FormatterLock { release: LockRelease::Square(wrap_standalone_if, in_operator) }
    }

    /// Disallows orphan `if` statements (those without `else`) until the lock
    /// is released.
    pub fn disallow_orphan_if(&mut self) -> (lock: FormatterLock)
        ensures
            final(self)@ == (FormatterView { wrap_standalone_if: true, ..old(self)@ }),
            lock.action() == LockRelease::OrphanIf(old(self)@.wrap_standalone_if),
    {
        let wrap_standalone_if = self.wrap_standalone_if;
        self.wrap_standalone_if = true;
        FormatterLock { release: LockRelease::OrphanIf(wrap_standalone_if) }
    }

    /// Wraps what follows in curly brackets where orphan `if` statements are
    /// disallowed.
    pub fn wrap_orphan_if(&mut self) -> (lock: FormatterLock)
        ensures
            old(self)@.wrap_standalone_if ==> (final(self)@, lock.action()) == old(self)@.curly_opened(),
            !old(self)@.wrap_standalone_if ==> final(self)@ == old(self)@ && lock.action() == LockRelease::Nothing,
    {
        if !self.wrap_standalone_if {
            return FormatterLock { release: LockRelease::Nothing };
        }
        self.wrap_curly()
    }

    /// Prints the items with a comma between each two, at assignment precedence.
    pub fn comma_list<T: NodeDisplay>(&mut self, list: &[T]) -> (r: NodeDisplayResult)
        ensures
            r is Ok,
            final(self)@ == old(self)@.with_comma_list(list@),
    {
        let lock = self.require_precedence(Precedence::Assignment);
        let ghost start = self@;
        let mut i: usize = 0;
        while i < list.len()
            invariant
                i <= list@.len(),
                self@ == printed_separated(list@.take(i as int), start),
            decreases list@.len() - i,
        {
            if i > 0 {
                self.punctuator(Punctuator::Comma);
            }
            let _ = self.node(&list[i]);
            proof {
                assert(list@.take(i + 1).drop_last() =~= list@.take(i as int));
                assert(list@.take(i + 1)[0] == list@[0]);
            }
            i = i + 1;
        }
        proof {
            assert(list@.take(list@.len() as int) =~= list@);
        }
        self.release(lock);
        Ok(())
    }

    /// Prints a comma list in curly brackets.
    pub fn curly_list<T: NodeDisplay>(&mut self, list: &[T]) -> (r: NodeDisplayResult)
        ensures
            r is Ok,
            final(self)@ == old(self)@.with_curly_list(list@),
    {
        let lock = self.wrap_curly();
        let _ = self.comma_list(list);
        self.release(lock);
        Ok(())
    }

    /// Prints a comma list in square brackets.
    pub fn square_list<T: NodeDisplay>(&mut self, list: &[T]) -> (r: NodeDisplayResult)
        ensures
            r is Ok,
            final(self)@ == old(self)@.with_square_list(list@),
    {
        let lock = self.wrap_square();
        let _ = self.comma_list(list);
        self.release(lock);
        Ok(())
    }

    /// Prints each item in turn.
    pub fn node_list<T: NodeDisplay>(&mut self, list: &[T]) -> (r: NodeDisplayResult)
        ensures
            r is Ok,
            final(self)@ == printed_all(list@, old(self)@),
    {
        let ghost start = self@;
        let mut i: usize = 0;
        while i < list.len()
            invariant
                i <= list@.len(),
                self@ == printed_all(list@.take(i as int), start),
            decreases list@.len() - i,
        {
            let _ = self.node(&list[i]);
            proof {
                assert(list@.take(i + 1).drop_last() =~= list@.take(i as int));
            }
            i = i + 1;
        }
        proof {
            assert(list@.take(list@.len() as int) =~= list@);
        }
        Ok(())
    }

    /// Prints a node.
    pub fn node<T: NodeDisplay>(&mut self, s: &T) -> (r: NodeDisplayResult)
        ensures
            r is Ok,
            final(self)@ == s.printed(old(self)@),
    {
        s.fmt(self)
    }

    /// Prints a keyword, after a space where the output ends with a word.
    pub fn keyword(&mut self, t: Keyword)
        ensures
            final(self)@ == old(self)@.with_keyword(t),
    {
        if self.ends_with_keyword {
            self.output.append(" ");
        }
        self.ends_with_keyword = true;
        self.ends_with_integer = false;
        self.lookahead_restriction = None;
        self.output.append(keyword_str(t));
    }

    /// Prints a punctuator.
    pub fn punctuator(&mut self, p: Punctuator)
        ensures
            final(self)@ == old(self)@.with_punctuator(p),
    {
        self.ends_with_keyword = false;
        self.ends_with_integer = false;
        self.lookahead_restriction = None;
        self.output.append(punctuator_str(p));
    }

    /// Prints an identifier, in its raw form where it has one.
    pub fn identifier(&mut self, name: &str, raw: Option<&str>) -> (r: NodeDisplayResult)
        ensures
            r is Ok,
            final(self)@ == old(self)@.with_word(raw_or_value(name, raw)),
    {
        if self.ends_with_keyword {
            self.output.append(" ");
        }
        self.ends_with_keyword = true;
        self.ends_with_integer = false;
        self.lookahead_restriction = None;
        match raw {
            Some(raw) => self.output.append(raw),
            None => self.output.append(name),
        }
        Ok(())
    }

    /// Prints a string literal in single quotes, in its raw form where it has one.
    pub fn string(&mut self, value: &str, raw: Option<&str>) -> (r: NodeDisplayResult)
        ensures
            r is Ok,
            final(self)@ == old(self)@.with_string(raw_or_value(value, raw)),
    {
        self.lookahead_restriction = None;
        self.punctuator(Punctuator::SQuote);
        match raw {
            Some(raw) => self.output.append(raw),
            None => self.output.append(value),
        }
        self.punctuator(Punctuator::SQuote);
        Ok(())
    }

    /// Prints a piece of a template literal as it is.
    pub fn template_part(&mut self, value: &str, raw: Option<&str>) -> (r: NodeDisplayResult)
        ensures
            r is Ok,
            final(self)@ == old(self)@.with_text(raw_or_value(value, raw)),
    {
        match raw {
            Some(raw) => self.output.append(raw),
            None => self.output.append(value),
        }
        Ok(())
    }

    /// Prints a regular expression literal: the pattern between slashes,
    /// then the flags.
    pub fn regexp(&mut self, value: &str, flags: &[char]) -> (r: NodeDisplayResult)
        ensures
            r is Ok,
            final(self)@ == old(self)@.with_regexp(value@, flags@),
    {
        self.punctuator(Punctuator::Slash);
        self.output.append(value);
        self.punctuator(Punctuator::Slash);
        let ghost before = self@;
        let mut i: usize = 0;
        while i < flags.len()
            invariant
                i <= flags@.len(),
                self@ == before.with_text(flags@.take(i as int)),
            decreases flags@.len() - i,
        {
            push_char(&mut self.output, flags[i]);
            proof {
                assert(flags@.take(i + 1) =~= flags@.take(i as int).push(flags@[i as int]));
                assert(before.output + flags@.take(i + 1) =~= (before.output + flags@.take(i as int)).push(flags@[i as int]));
            }
            i = i + 1;
        }
        proof {
            assert(flags@.take(flags@.len() as int) =~= flags@);
        }
        Ok(())
    }

    /// Prints a JSX identifier as it is.
    pub fn jsx_identifier(&mut self, value: &str, raw: Option<&str>) -> (r: NodeDisplayResult)
        ensures
            r is Ok,
            final(self)@ == old(self)@.with_text(raw_or_value(value, raw)),
    {
        match raw {
            Some(raw) => self.output.append(raw),
            None => self.output.append(value),
        }
        Ok(())
    }

    /// Prints a JSX attribute string in single quotes.
    pub fn jsx_string(&mut self, value: &str, raw: Option<&str>) -> (r: NodeDisplayResult)
        ensures
            r is Ok,
            final(self)@ == old(self)@.with_string(raw_or_value(value, raw)),
    {
        self.punctuator(Punctuator::SQuote);
        match raw {
            Some(raw) => self.output.append(raw),
            None => self.output.append(value),
        }
        self.punctuator(Punctuator::SQuote);
        Ok(())
    }

    /// Prints JSX text as it is.
    pub fn jsx_text(&mut self, value: &str, raw: Option<&str>) -> (r: NodeDisplayResult)
        ensures
            r is Ok,
            final(self)@ == old(self)@.with_text(raw_or_value(value, raw)),
    {
        match raw {
            Some(raw) => self.output.append(raw),
            None => self.output.append(value),
        }
        Ok(())
    }
}

/// Parentheses opened by `wrap_parens` are closed by the release of its lock,
/// which brings back the precedence, `in` handling and orphan-`if` handling
/// that held before they opened, whatever was printed inside.
pub proof fn lemma_parens_restore(s: FormatterView, inside: FormatterView)
    ensures
        s.parens_opened(true).0.output == s.output + "("@,
        inside.released(s.parens_opened(true).1).output == inside.output + ")"@,
        inside.released(s.parens_opened(true).1).prec == s.prec,
        inside.released(s.parens_opened(true).1).in_operator == s.in_operator,
        inside.released(s.parens_opened(true).1).wrap_standalone_if == s.wrap_standalone_if,
{
}

/// Curly and square brackets are closed by the release of their locks, which
/// brings back the `in` handling and orphan-`if` handling of before.
pub proof fn lemma_brackets_restore(s: FormatterView, inside: FormatterView)
    ensures
        s.curly_opened().0.output == s.output + "{"@,
        inside.released(s.curly_opened().1).output == inside.output + "}"@,
        inside.released(s.curly_opened().1).in_operator == s.in_operator,
        inside.released(s.curly_opened().1).wrap_standalone_if == s.wrap_standalone_if,
        s.square_opened().0.output == s.output + "["@,
        inside.released(s.square_opened().1).output == inside.output + "]"@,
        inside.released(s.square_opened().1).in_operator == s.in_operator,
        inside.released(s.square_opened().1).wrap_standalone_if == s.wrap_standalone_if,
{
}

/// The locks that change one setting bring it back on release, and print
/// nothing.
pub proof fn lemma_settings_restore(s: FormatterView, inside: FormatterView)
    ensures
        inside.released(LockRelease::Precedence(s.prec)).prec == s.prec,
        inside.released(LockRelease::InOperator(s.in_operator)).in_operator == s.in_operator,
        inside.released(LockRelease::OrphanIf(s.wrap_standalone_if)).wrap_standalone_if
            == s.wrap_standalone_if,
        inside.released(LockRelease::Precedence(s.prec)).output == inside.output,
        inside.released(LockRelease::InOperator(s.in_operator)).output == inside.output,
        inside.released(LockRelease::OrphanIf(s.wrap_standalone_if)).output == inside.output,
{
}

/// A lookahead restriction ends at the next token printed, and the release
/// of its lock does not bring back an earlier one; where no token was printed
/// the release brings back the earlier restriction.
pub proof fn lemma_lookahead_consumed(
    s: FormatterView,
    restriction: LookaheadRestriction,
    k: Keyword,
    p: Punctuator,
)
    ensures
        ({
            let restricted = FormatterView { lookahead_restriction: Some(restriction), ..s };
            let lock = LockRelease::Lookahead(s.lookahead_restriction);
            &&& restricted.with_keyword(k).released(lock).lookahead_restriction is None
            &&& restricted.with_punctuator(p).released(lock).lookahead_restriction is None
            &&& restricted.released(lock).lookahead_restriction == s.lookahead_restriction
        }),
{
}

/// Two words printed one after the other are kept apart by exactly one
/// space; a punctuator is never set apart, and a word after it neither.
pub proof fn lemma_word_spacing(s: FormatterView, a: Seq<char>, b: Seq<char>, p: Punctuator)
    ensures
        s.with_word(a).with_word(b).output == s.output + word_gap(s.ends_with_keyword) + a + " "@ + b,
        s.with_word(a).with_punctuator(p).output == s.output + word_gap(s.ends_with_keyword) + a
            + punctuator_text(p),
        s.with_punctuator(p).with_word(a).output == s.output + punctuator_text(p) + a,
{
    assert(s.with_word(a).with_word(b).output =~= s.output + word_gap(s.ends_with_keyword) + a + " "@ + b);
    assert(s.with_punctuator(p).with_word(a).output =~= s.output + punctuator_text(p) + a);
}

/// Printing only appends: no formatter step takes back what was printed.
pub proof fn lemma_output_appends(
    s: FormatterView,
    word: Seq<char>,
    text: Seq<char>,
    p: Punctuator,
    release: LockRelease,
)
    ensures
        s.output.is_prefix_of(s.with_word(word).output),
        s.output.is_prefix_of(s.with_punctuator(p).output),
        s.output.is_prefix_of(s.with_text(text).output),
        s.output.is_prefix_of(s.released(release).output),
{
    assert(s.output.is_prefix_of(s.with_word(word).output)) by {
        assert(s.with_word(word).output =~= s.output + (word_gap(s.ends_with_keyword) + word));
    }
}

} // verus!
