//! Expressions that are not JSX and not operators.

use vstd::prelude::*;
use crate::ast::NodePosition;
use crate::ast::alias::Expression;
use crate::ast::jsx;
use crate::ast::general::PropertyIdentifier;
use crate::ast::display::{NodeDisplay, NodeFormatter, NodeDisplayResult, FormatterView, Keyword, Punctuator, raw_text, raw_str};

verus! {

/// `this`
#[derive(Debug)]
pub struct ThisExpression {
    pub position: Option<Box<NodePosition>>,
}

impl Default for ThisExpression {
    fn default() -> (t: ThisExpression)
        ensures
            t.position is None,
    {
        ThisExpression { position: None }
    }
}

impl NodeDisplay for ThisExpression {
    open spec fn printed(&self, f: FormatterView) -> FormatterView {
        f.with_keyword(Keyword::This)
    }

    fn fmt(&self, f: &mut NodeFormatter) -> (r: NodeDisplayResult) {
        f.keyword(Keyword::This);
        Ok(())
    }
}

/// `( expr )`
#[derive(Debug)]
pub struct ParenthesizedExpression {
    pub expr: Box<Expression>,
    pub position: Option<Box<NodePosition>>,
}

impl ParenthesizedExpression {
    pub fn from(expr: Expression) -> (p: ParenthesizedExpression)
        ensures
            *p.expr == expr,
            p.position is None,
    {
        ParenthesizedExpression { expr: Box::new(expr), position: None }
    }
}

impl NodeDisplay for ParenthesizedExpression {
    open spec fn printed(&self, f: FormatterView) -> FormatterView {
        let (inside, lock) = f.parens_opened(true);
        self.expr.printed(inside).released(lock)
    }

    fn fmt(&self, f: &mut NodeFormatter) -> (r: NodeDisplayResult) {
        let lock = f.wrap_parens();
        let _ = f.node(&self.expr);
        f.release(lock);
        Ok(())
    }
}


/// The text of a template between its substitutions.
#[derive(Debug)]
pub struct TemplatePart {
    pub value: String,
    pub raw_value: Option<String>,
    pub position: Option<Box<NodePosition>>,
}

impl NodeDisplay for TemplatePart {
    open spec fn printed(&self, f: FormatterView) -> FormatterView {
        f.with_text(raw_text(self.value@, self.raw_value))
    }

    fn fmt(&self, f: &mut NodeFormatter) -> (r: NodeDisplayResult) {
        f.template_part(self.value.as_str(), raw_str(&self.raw_value))
    }
}

/// A template: parts, each followed by a substitution, then the last part.
#[derive(Debug)]
pub struct TemplateLiteral {
    pub parts: Vec<(TemplatePart, Expression)>,
    pub last_part: TemplatePart,
    pub position: Option<Box<NodePosition>>,
}

/// A template after a tag: ``tag`text` ``.
#[derive(Debug)]
pub struct TaggedTemplateLiteral {
    pub tag: Box<Expression>,
    pub template: TemplateLiteral,
    pub position: Option<Box<NodePosition>>,
}

/// The arguments of a call: values, and a spread value after them.
#[derive(Debug)]
pub struct CallArguments {
    pub args: Vec<Expression>,
    pub spread: Option<Box<Expression>>,
    pub position: Option<Box<NodePosition>>,
}

impl Default for CallArguments {
    fn default() -> (a: CallArguments)
        ensures
            a.args@.len() == 0,
            a.spread is None,
            a.position is None,
    {
        CallArguments { args: Vec::new(), spread: None, position: None }
    }
}

impl CallArguments {
    /// Arguments made of `v`, with no spread.
    pub fn from(v: Vec<Expression>) -> (a: CallArguments)
        ensures
            a.args@ == v@,
            a.spread is None,
            a.position is None,
    {
        CallArguments { args: v, spread: None, position: None }
    }

    /// Whether there is no argument at all.
    pub fn is_empty(&self) -> (r: bool)
        ensures
            r == (self.args@.len() == 0 && self.spread is None),
    {
        self.args.len() == 0 && self.spread.is_none()
    }
}

/// `callee(arguments)`
#[derive(Debug)]
pub struct CallExpression {
    pub callee: Box<Expression>,
    pub arguments: CallArguments,
    pub position: Option<Box<NodePosition>>,
}

/// `callee?.(arguments)`
#[derive(Debug)]
pub struct OptionalCallExpression {
    pub callee: Box<Expression>,
    pub arguments: CallArguments,
    pub position: Option<Box<NodePosition>>,
}

/// `new callee(arguments)`
#[derive(Debug)]
pub struct NormalNewExpression {
    pub callee: Box<Expression>,
    pub arguments: CallArguments,
    pub position: Option<Box<NodePosition>>,
}

/// `new callee`
#[derive(Debug)]
pub struct EmptyNewExpression {
    pub callee: Box<Expression>,
    pub position: Option<Box<NodePosition>>,
}

/// `import(argument)`
#[derive(Debug)]
pub struct ImportCallExpression {
    pub argument: Box<Expression>,
    pub position: Option<Box<NodePosition>>,
}

/// `super(arguments)`
#[derive(Debug)]
pub struct SuperCallExpression {
    pub arguments: CallArguments,
    pub position: Option<Box<NodePosition>>,
}

/// `object.property`, `object[property]` or `object.#property`
#[derive(Debug)]
pub struct MemberExpression {
    pub object: Box<Expression>,
    pub property: PropertyAccess,
    pub position: Option<Box<NodePosition>>,
}

/// `object?` followed by an optional property access
#[derive(Debug)]
pub struct OptionalMemberExpression {
    pub object: Box<Expression>,
    pub property: OptionalPropertyAccess,
    pub position: Option<Box<NodePosition>>,
}

/// `super` and a property access
#[derive(Debug)]
pub struct SuperMemberExpression {
    pub property: PropertyAccess,
    pub position: Option<Box<NodePosition>>,
}

/// `[expression]`
#[derive(Debug)]
pub struct ComputedPropertyAccess {
    pub expression: Box<Expression>,
    pub position: Option<Box<NodePosition>>,
}

/// `?.[expression]`
#[derive(Debug)]
pub struct OptionalComputedPropertyAccess {
    pub expression: Box<Expression>,
    pub position: Option<Box<NodePosition>>,
}

/// `new` with or without arguments.
#[derive(Debug)]
pub enum NewExpression {
    Normal(NormalNewExpression),
    Empty(EmptyNewExpression),
}

/// A property access after an object.
#[derive(Debug)]
pub enum PropertyAccess {
    Identifier(IdentifierPropertyAccess),
    Computed(ComputedPropertyAccess),
    Private(PrivatePropertyAccess),
}

/// A property access after `?`.
#[derive(Debug)]
pub enum OptionalPropertyAccess {
    Identifier(OptionalIdentifierPropertyAccess),
    Computed(OptionalComputedPropertyAccess),
    Private(OptionalPrivatePropertyAccess),
}

/// `.name`
#[derive(Debug)]
pub struct IdentifierPropertyAccess {
    pub id: PropertyIdentifier,
    pub position: Option<Box<NodePosition>>,
}

impl NodeDisplay for IdentifierPropertyAccess {
    open spec fn printed(&self, f: FormatterView) -> FormatterView {
        self.id.printed(f.with_punctuator(Punctuator::Period))
    }

    fn fmt(&self, f: &mut NodeFormatter) -> (r: NodeDisplayResult) {
        f.punctuator(Punctuator::Period);
        f.node(&self.id)
    }
}

/// `.#name`
#[derive(Debug)]
pub struct PrivatePropertyAccess {
    pub property: PropertyIdentifier,
    pub position: Option<Box<NodePosition>>,
}

impl NodeDisplay for PrivatePropertyAccess {
    open spec fn printed(&self, f: FormatterView) -> FormatterView {
        self.property.printed(f.with_punctuator(Punctuator::Period).with_punctuator(Punctuator::Hash))
    }

    fn fmt(&self, f: &mut NodeFormatter) -> (r: NodeDisplayResult) {
        f.punctuator(Punctuator::Period);
        f.punctuator(Punctuator::Hash);
        f.node(&self.property)
    }
}

/// `?.name`
#[derive(Debug)]
pub struct OptionalIdentifierPropertyAccess {
    pub id: PropertyIdentifier,
    pub position: Option<Box<NodePosition>>,
}

impl NodeDisplay for OptionalIdentifierPropertyAccess {
    open spec fn printed(&self, f: FormatterView) -> FormatterView {
        self.id.printed(f.with_punctuator(Punctuator::QuestionPeriod))
    }

    fn fmt(&self, f: &mut NodeFormatter) -> (r: NodeDisplayResult) {
        f.punctuator(Punctuator::QuestionPeriod);
        f.node(&self.id)
    }
}

/// `?.#name`
#[derive(Debug)]
pub struct OptionalPrivatePropertyAccess {
    pub property: PropertyIdentifier,
    pub position: Option<Box<NodePosition>>,
}

impl NodeDisplay for OptionalPrivatePropertyAccess {
    open spec fn printed(&self, f: FormatterView) -> FormatterView {
        self.property.printed(f.with_punctuator(Punctuator::QuestionPeriod).with_punctuator(Punctuator::Hash))
    }

    fn fmt(&self, f: &mut NodeFormatter) -> (r: NodeDisplayResult) {
        f.punctuator(Punctuator::QuestionPeriod);
        f.punctuator(Punctuator::Hash);
        f.node(&self.property)
    }
}

/// `new.target`
#[derive(Debug)]
pub struct NewTargetExpression {
    pub position: Option<Box<NodePosition>>,
}

impl NodeDisplay for NewTargetExpression {
    open spec fn printed(&self, f: FormatterView) -> FormatterView {
        f.with_keyword(Keyword::New).with_punctuator(Punctuator::Period).with_keyword(Keyword::Target)
    }

    fn fmt(&self, f: &mut NodeFormatter) -> (r: NodeDisplayResult) {
        f.keyword(Keyword::New);
        f.punctuator(Punctuator::Period);
        f.keyword(Keyword::Target);
        Ok(())
    }
}

/// `import.meta`
#[derive(Debug)]
pub struct ImportMetaExpression {
    pub position: Option<Box<NodePosition>>,
}

impl NodeDisplay for ImportMetaExpression {
    open spec fn printed(&self, f: FormatterView) -> FormatterView {
        f.with_keyword(Keyword::Import).with_punctuator(Punctuator::Period).with_keyword(Keyword::Meta)
    }

    fn fmt(&self, f: &mut NodeFormatter) -> (r: NodeDisplayResult) {
        f.keyword(Keyword::Import);
        f.punctuator(Punctuator::Period);
        f.keyword(Keyword::Meta);
        Ok(())
    }
}

/// `function.sent`
#[derive(Debug)]
pub struct FunctionSentExpression {
    pub position: Option<Box<NodePosition>>,
}

impl NodeDisplay for FunctionSentExpression {
    open spec fn printed(&self, f: FormatterView) -> FormatterView {
        f.with_keyword(Keyword::Function).with_punctuator(Punctuator::Period).with_keyword(Keyword::Sent)
    }

    fn fmt(&self, f: &mut NodeFormatter) -> (r: NodeDisplayResult) {
        f.keyword(Keyword::Function);
        f.punctuator(Punctuator::Period);
        f.keyword(Keyword::Sent);
        Ok(())
    }
}

/// `function.arguments`
#[derive(Debug)]
pub struct FunctionArgumentsExpression {
    pub position: Option<Box<NodePosition>>,
}

impl NodeDisplay for FunctionArgumentsExpression {
    open spec fn printed(&self, f: FormatterView) -> FormatterView {
        f.with_keyword(Keyword::Function).with_punctuator(Punctuator::Period).with_keyword(Keyword::Arguments)
    }

    fn fmt(&self, f: &mut NodeFormatter) -> (r: NodeDisplayResult) {
        f.keyword(Keyword::Function);
        f.punctuator(Punctuator::Period);
        f.keyword(Keyword::Arguments);
        Ok(())
    }
}

impl NodeDisplay for TemplateLiteral {
    open spec fn printed(&self, f: FormatterView) -> FormatterView {
        jsx::template_literal_printed(*self, f)
    }

    fn fmt(&self, f: &mut NodeFormatter) -> (r: NodeDisplayResult) {
        jsx::print_template_literal(self, f);
        Ok(())
    }
}

impl NodeDisplay for TaggedTemplateLiteral {
    open spec fn printed(&self, f: FormatterView) -> FormatterView {
        jsx::tagged_template_literal_printed(*self, f)
    }

    fn fmt(&self, f: &mut NodeFormatter) -> (r: NodeDisplayResult) {
        jsx::print_tagged_template_literal(self, f);
        Ok(())
    }
}

impl NodeDisplay for CallArguments {
    open spec fn printed(&self, f: FormatterView) -> FormatterView {
        jsx::call_arguments_printed(*self, f)
    }

    fn fmt(&self, f: &mut NodeFormatter) -> (r: NodeDisplayResult) {
        jsx::print_call_arguments(self, f);
        Ok(())
    }
}

impl NodeDisplay for CallExpression {
    open spec fn printed(&self, f: FormatterView) -> FormatterView {
        jsx::call_expression_printed(*self, f)
    }

    fn fmt(&self, f: &mut NodeFormatter) -> (r: NodeDisplayResult) {
        jsx::print_call_expression(self, f);
        Ok(())
    }
}

impl NodeDisplay for OptionalCallExpression {
    open spec fn printed(&self, f: FormatterView) -> FormatterView {
        jsx::optional_call_expression_printed(*self, f)
    }

    fn fmt(&self, f: &mut NodeFormatter) -> (r: NodeDisplayResult) {
        jsx::print_optional_call_expression(self, f);
        Ok(())
    }
}

impl NodeDisplay for NormalNewExpression {
    open spec fn printed(&self, f: FormatterView) -> FormatterView {
        jsx::normal_new_expression_printed(*self, f)
    }

    fn fmt(&self, f: &mut NodeFormatter) -> (r: NodeDisplayResult) {
        jsx::print_normal_new_expression(self, f);
        Ok(())
    }
}

impl NodeDisplay for EmptyNewExpression {
    open spec fn printed(&self, f: FormatterView) -> FormatterView {
        jsx::empty_new_expression_printed(*self, f)
    }

    fn fmt(&self, f: &mut NodeFormatter) -> (r: NodeDisplayResult) {
        jsx::print_empty_new_expression(self, f);
        Ok(())
    }
}

impl NodeDisplay for ImportCallExpression {
    open spec fn printed(&self, f: FormatterView) -> FormatterView {
        jsx::import_call_expression_printed(*self, f)
    }

    fn fmt(&self, f: &mut NodeFormatter) -> (r: NodeDisplayResult) {
        jsx::print_import_call_expression(self, f);
        Ok(())
    }
}

impl NodeDisplay for SuperCallExpression {
    open spec fn printed(&self, f: FormatterView) -> FormatterView {
        jsx::super_call_expression_printed(*self, f)
    }

    fn fmt(&self, f: &mut NodeFormatter) -> (r: NodeDisplayResult) {
        jsx::print_super_call_expression(self, f);
        Ok(())
    }
}

impl NodeDisplay for ComputedPropertyAccess {
    open spec fn printed(&self, f: FormatterView) -> FormatterView {
        jsx::computed_property_access_printed(*self, f)
    }

    fn fmt(&self, f: &mut NodeFormatter) -> (r: NodeDisplayResult) {
        jsx::print_computed_property_access(self, f);
        Ok(())
    }
}

impl NodeDisplay for OptionalComputedPropertyAccess {
    open spec fn printed(&self, f: FormatterView) -> FormatterView {
        jsx::optional_computed_property_access_printed(*self, f)
    }

    fn fmt(&self, f: &mut NodeFormatter) -> (r: NodeDisplayResult) {
        jsx::print_optional_computed_property_access(self, f);
        Ok(())
    }
}

impl NodeDisplay for PropertyAccess {
    open spec fn printed(&self, f: FormatterView) -> FormatterView {
        jsx::property_access_printed(*self, f)
    }

    fn fmt(&self, f: &mut NodeFormatter) -> (r: NodeDisplayResult) {
        jsx::print_property_access(self, f);
        Ok(())
    }
}

impl NodeDisplay for OptionalPropertyAccess {
    open spec fn printed(&self, f: FormatterView) -> FormatterView {
        jsx::optional_property_access_printed(*self, f)
    }

    fn fmt(&self, f: &mut NodeFormatter) -> (r: NodeDisplayResult) {
        jsx::print_optional_property_access(self, f);
        Ok(())
    }
}

impl NodeDisplay for NewExpression {
    open spec fn printed(&self, f: FormatterView) -> FormatterView {
        jsx::new_expression_printed(*self, f)
    }

    fn fmt(&self, f: &mut NodeFormatter) -> (r: NodeDisplayResult) {
        jsx::print_new_expression(self, f);
        Ok(())
    }
}

impl NodeDisplay for MemberExpression {
    open spec fn printed(&self, f: FormatterView) -> FormatterView {
        jsx::member_expression_printed(*self, f)
    }

    fn fmt(&self, f: &mut NodeFormatter) -> (r: NodeDisplayResult) {
        jsx::print_member_expression(self, f);
        Ok(())
    }
}

impl NodeDisplay for OptionalMemberExpression {
    open spec fn printed(&self, f: FormatterView) -> FormatterView {
        jsx::optional_member_expression_printed(*self, f)
    }

    fn fmt(&self, f: &mut NodeFormatter) -> (r: NodeDisplayResult) {
        jsx::print_optional_member_expression(self, f);
        Ok(())
    }
}

impl NodeDisplay for SuperMemberExpression {
    open spec fn printed(&self, f: FormatterView) -> FormatterView {
        jsx::super_member_expression_printed(*self, f)
    }

    fn fmt(&self, f: &mut NodeFormatter) -> (r: NodeDisplayResult) {
        jsx::print_super_member_expression(self, f);
        Ok(())
    }
}


/// Printing a parenthesized expression ends with `)`, whatever it holds.
pub proof fn law_parenthesized_expression_ends_with_paren(e: ParenthesizedExpression, f: FormatterView)
    ensures
        ({
            let out = e.printed(f).output;
            out.len() >= 1 && out[out.len() - 1] == ')'
        }),
{
    reveal_strlit(")");
}

/// Printing call arguments ends with `)`, whatever it holds.
pub proof fn law_call_arguments_ends_with_paren(e: CallArguments, f: FormatterView)
    ensures
        ({
            let out = e.printed(f).output;
            out.len() >= 1 && out[out.len() - 1] == ')'
        }),
{
    reveal_strlit(")");
}

} // verus!
