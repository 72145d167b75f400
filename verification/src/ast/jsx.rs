//! JSX elements. An element may hold expressions, and an expression may be an
//! element, so the printers of both stand together here.

use vstd::prelude::*;
use crate::ast::NodePosition;
use crate::ast::alias;
use crate::ast::operators;
use crate::ast::expression;
use crate::ast::display::{
    NodeDisplay, NodeFormatter, NodeDisplayResult, FormatterView, LockRelease, Precedence,
    Punctuator, Keyword, LookaheadSequence, lookahead_forbids, raw_text, raw_str,
};

verus! {

/// A JSX name: like a JavaScript identifier, but it may hold `-`.
#[derive(Debug)]
pub struct Identifier {
    pub raw: Option<String>,
    pub value: String,
    pub position: Option<Box<NodePosition>>,
}

impl Identifier {
    pub fn from(v: &str) -> (i: Identifier)
        ensures
            i.value@ == v@,
            i.raw is None,
            i.position is None,
    {
        Identifier { raw: None, value: v.to_owned(), position: None }
    }
}

impl NodeDisplay for Identifier {
    open spec fn printed(&self, f: FormatterView) -> FormatterView {
        f.with_text(raw_text(self.value@, self.raw))
    }

    fn fmt(&self, f: &mut NodeFormatter) -> (r: NodeDisplayResult) {
        f.jsx_identifier(self.value.as_str(), raw_str(&self.raw))
    }
}

/// `namespace:name`
#[derive(Debug)]
pub struct NamespacedName {
    pub namespace: Identifier,
    pub name: Identifier,
    pub position: Option<Box<NodePosition>>,
}

impl NodeDisplay for NamespacedName {
    open spec fn printed(&self, f: FormatterView) -> FormatterView {
        self.name.printed(self.namespace.printed(f).with_punctuator(Punctuator::Colon))
    }

    fn fmt(&self, f: &mut NodeFormatter) -> (r: NodeDisplayResult) {
        let _ = f.node(&self.namespace);
        f.punctuator(Punctuator::Colon);
        f.node(&self.name)
    }
}

/// `object.property`
#[derive(Debug)]
pub struct MemberExpression {
    pub object: Box<MemberObject>,
    pub property: Identifier,
    pub position: Option<Box<NodePosition>>,
}

#[derive(Debug)]
pub enum MemberObject {
    Identifier(Identifier),
    Member(MemberExpression),
}

pub open spec fn member_printed(m: MemberExpression, f: FormatterView) -> FormatterView
    decreases m,
{
    m.property.printed(member_object_printed(*m.object, f).with_punctuator(Punctuator::Period))
}

pub open spec fn member_object_printed(o: MemberObject, f: FormatterView) -> FormatterView
    decreases o,
{
    match o {
        MemberObject::Identifier(i) => i.printed(f),
        MemberObject::Member(m) => member_printed(m, f),
    }
}

fn print_member(m: &MemberExpression, f: &mut NodeFormatter)
    ensures
        final(f)@ == member_printed(*m, old(f)@),
    decreases m,
{
    print_member_object(&m.object, f);
    f.punctuator(Punctuator::Period);
    let _ = f.node(&m.property);
}

fn print_member_object(o: &MemberObject, f: &mut NodeFormatter)
    ensures
        final(f)@ == member_object_printed(*o, old(f)@),
    decreases o,
{
    match o {
        MemberObject::Identifier(i) => {
            let _ = f.node(i);
        },
        MemberObject::Member(m) => print_member(m, f),
    }
}

impl NodeDisplay for MemberExpression {
    open spec fn printed(&self, f: FormatterView) -> FormatterView {
        member_printed(*self, f)
    }

    fn fmt(&self, f: &mut NodeFormatter) -> (r: NodeDisplayResult) {
        print_member(self, f);
        Ok(())
    }
}

impl NodeDisplay for MemberObject {
    open spec fn printed(&self, f: FormatterView) -> FormatterView {
        member_object_printed(*self, f)
    }

    fn fmt(&self, f: &mut NodeFormatter) -> (r: NodeDisplayResult) {
        print_member_object(self, f);
        Ok(())
    }
}

/// The name of an element.
#[derive(Debug)]
pub enum ElementName {
    Identifier(Identifier),
    Member(MemberExpression),
    Namespaced(NamespacedName),
}

impl NodeDisplay for ElementName {
    open spec fn printed(&self, f: FormatterView) -> FormatterView {
        match self {
            ElementName::Identifier(n) => n.printed(f),
            ElementName::Member(n) => n.printed(f),
            ElementName::Namespaced(n) => n.printed(f),
        }
    }

    fn fmt(&self, f: &mut NodeFormatter) -> (r: NodeDisplayResult) {
        match self {
            ElementName::Identifier(n) => f.node(n),
            ElementName::Member(n) => f.node(n),
            ElementName::Namespaced(n) => f.node(n),
        }
    }
}

/// The name of an attribute.
#[derive(Debug)]
pub enum AttributeName {
    Identifier(Identifier),
    Namespaced(NamespacedName),
}

impl NodeDisplay for AttributeName {
    open spec fn printed(&self, f: FormatterView) -> FormatterView {
        match self {
            AttributeName::Identifier(n) => n.printed(f),
            AttributeName::Namespaced(n) => n.printed(f),
        }
    }

    fn fmt(&self, f: &mut NodeFormatter) -> (r: NodeDisplayResult) {
        match self {
            AttributeName::Identifier(n) => f.node(n),
            AttributeName::Namespaced(n) => f.node(n),
        }
    }
}

/// An attribute value in quotes; it may hold any character but the quote.
#[derive(Debug)]
pub struct StringAttribute {
    pub raw: Option<String>,
    pub value: String,
    pub position: Option<Box<NodePosition>>,
}

impl StringAttribute {
    pub fn from(v: &str) -> (s: StringAttribute)
        ensures
            s.value@ == v@,
            s.raw is None,
            s.position is None,
    {
        StringAttribute { raw: None, value: v.to_owned(), position: None }
    }
}

impl NodeDisplay for StringAttribute {
    open spec fn printed(&self, f: FormatterView) -> FormatterView {
        f.with_string(raw_text(self.value@, self.raw))
    }

    fn fmt(&self, f: &mut NodeFormatter) -> (r: NodeDisplayResult) {
        f.jsx_string(self.value.as_str(), raw_str(&self.raw))
    }
}

/// `{}` as a child.
#[derive(Debug)]
pub struct Empty {
    pub position: Option<Box<NodePosition>>,
}

impl Default for Empty {
    fn default() -> (e: Empty)
        ensures
            e.position is None,
    {
        Empty { position: None }
    }
}

impl NodeDisplay for Empty {
    open spec fn printed(&self, f: FormatterView) -> FormatterView {
        let (inside, lock) = f.curly_opened();
        inside.released(lock)
    }

    fn fmt(&self, f: &mut NodeFormatter) -> (r: NodeDisplayResult) {
        let lock = f.wrap_curly();
        f.release(lock);
        Ok(())
    }
}

/// Text between tags; it is printed from its value.
#[derive(Debug)]
pub struct Text {
    pub value: String,
    pub raw: Option<String>,
    pub position: Option<Box<NodePosition>>,
}

impl Text {
    pub fn from(v: &str) -> (t: Text)
        ensures
            t.value@ == v@,
            t.raw is None,
            t.position is None,
    {
        Text { raw: None, value: v.to_owned(), position: None }
    }
}

impl NodeDisplay for Text {
    open spec fn printed(&self, f: FormatterView) -> FormatterView {
        f.with_text(self.value@)
    }

    fn fmt(&self, f: &mut NodeFormatter) -> (r: NodeDisplayResult) {
        f.jsx_text(self.value.as_str(), None)
    }
}

/// `<name attributes>children</name>`, or `<name attributes/>` where it has
/// no children and no closing name.
#[derive(Debug)]
pub struct Element {
    pub opening: ElementName,
    pub attributes: Vec<Attribute>,
    pub children: Vec<Child>,
    pub closing: Option<ElementName>,
    pub position: Option<Box<NodePosition>>,
}

#[derive(Debug)]
pub enum Attribute {
    Spread(SpreadAttribute),
    Pair(PairAttribute),
}

/// `{...expression}`
#[derive(Debug)]
pub struct SpreadAttribute {
    pub expression: alias::Expression,
    pub position: Option<Box<NodePosition>>,
}

/// `name` or `name=value`
#[derive(Debug)]
pub struct PairAttribute {
    pub name: AttributeName,
    pub value: Option<AttributeValue>,
    pub position: Option<Box<NodePosition>>,
}

#[derive(Debug)]
pub enum AttributeValue {
    String(StringAttribute),
    Expression(ExpressionAttribute),
    Element(Element),
}

/// `{expression}` as an attribute value.
#[derive(Debug)]
pub struct ExpressionAttribute {
    pub expression: alias::Expression,
    pub position: Option<Box<NodePosition>>,
}

#[derive(Debug)]
pub enum Child {
    Empty(Empty),
    Text(Text),
    Element(Element),
    Expression(Expression),
    Spread(ExpressionSpread),
}

/// `{expression}` as a child.
#[derive(Debug)]
pub struct Expression {
    pub expression: alias::Expression,
    pub position: Option<Box<NodePosition>>,
}

/// `{...expression}` as a child.
#[derive(Debug)]
pub struct ExpressionSpread {
    pub expression: alias::Expression,
    pub position: Option<Box<NodePosition>>,
}

/// The formatter after `e` is printed in curly brackets at assignment
/// precedence, after `...` where `spread` holds.
pub open spec fn braced_printed(e: alias::Expression, spread: bool, f: FormatterView) -> FormatterView
    decreases e, 1nat,
{
    let (inside, lock) = f.curly_opened();
    let g = if spread {
        inside.with_punctuator(Punctuator::Ellipsis)
    } else {
        inside
    };
    expression_printed(e, FormatterView { prec: Precedence::Assignment, ..g }).released(
        LockRelease::Precedence(g.prec),
    ).released(lock)
}

pub open spec fn expression_printed(e: alias::Expression, f: FormatterView) -> FormatterView
    decreases e, 0nat,
{
    match e {
        alias::Expression::Binding(n) => n.printed(f),
        alias::Expression::This(n) => n.printed(f),
        alias::Expression::Null(n) => n.printed(f),
        alias::Expression::Boolean(n) => n.printed(f),
        alias::Expression::String(n) => n.printed(f),
        alias::Expression::Regex(n) => n.printed(f),
        alias::Expression::JSX(n) => element_printed(n, f),
        alias::Expression::Unary(n) => unary_expression_printed(n, f),
        alias::Expression::Binary(n) => binary_expression_printed(n, f),
        alias::Expression::Conditional(n) => conditional_expression_printed(n, f),
        alias::Expression::Sequence(n) => sequence_expression_printed(n, f),
        alias::Expression::Update(n) => n.printed(f),
        alias::Expression::AssignUpdate(n) => assignment_update_expression_printed(n, f),
        alias::Expression::Template(n) => template_literal_printed(n, f),
        alias::Expression::Member(n) => member_expression_printed(n, f),
        alias::Expression::SuperMember(n) => super_member_expression_printed(n, f),
        alias::Expression::Call(n) => call_expression_printed(n, f),
        alias::Expression::New(n) => new_expression_printed(n, f),
        alias::Expression::ImportCall(n) => import_call_expression_printed(n, f),
        alias::Expression::SuperCall(n) => super_call_expression_printed(n, f),
    }
}

pub open spec fn element_printed(e: Element, f: FormatterView) -> FormatterView
    decreases e, 0nat,
{
    let head = attributes_printed(
        e.attributes@,
        e.opening.printed(f.with_punctuator(Punctuator::AngleL)),
    );
    if e.children@.len() > 0 {
        let body = children_printed(e.children@, head.with_punctuator(Punctuator::AngleR)).with_punctuator(
            Punctuator::AngleSlash,
        );
        let closed = match e.closing {
            Some(c) => c.printed(body),
            None => e.opening.printed(body),
        };
        closed.with_punctuator(Punctuator::AngleR)
    } else {
        match e.closing {
            Some(c) => c.printed(
                head.with_punctuator(Punctuator::AngleR).with_punctuator(Punctuator::AngleSlash),
            ).with_punctuator(Punctuator::AngleR),
            None => head.with_punctuator(Punctuator::SlashAngle),
        }
    }
}

pub open spec fn attributes_printed(attrs: Seq<Attribute>, f: FormatterView) -> FormatterView
    decreases attrs, 0nat,
{
    if attrs.len() == 0 {
        f
    } else {
        attribute_printed(attrs.last(), attributes_printed(attrs.drop_last(), f))
    }
}

pub open spec fn attribute_printed(a: Attribute, f: FormatterView) -> FormatterView
    decreases a, 0nat,
{
    match a {
        Attribute::Spread(s) => braced_printed(s.expression, true, f),
        Attribute::Pair(p) => {
            let named = p.name.printed(f);
            match p.value {
                Some(v) => attribute_value_printed(v, named.with_punctuator(Punctuator::Eq)),
                None => named,
            }
        },
    }
}

pub open spec fn attribute_value_printed(v: AttributeValue, f: FormatterView) -> FormatterView
    decreases v, 0nat,
{
    match v {
        AttributeValue::String(s) => s.printed(f),
        AttributeValue::Expression(x) => {
            let (inside, lock) = f.curly_opened();
            expression_printed(x.expression, inside).released(lock)
        },
        AttributeValue::Element(el) => element_printed(el, f),
    }
}

pub open spec fn children_printed(children: Seq<Child>, f: FormatterView) -> FormatterView
    decreases children, 0nat,
{
    if children.len() == 0 {
        f
    } else {
        child_printed(children.last(), children_printed(children.drop_last(), f))
    }
}

pub open spec fn child_printed(c: Child, f: FormatterView) -> FormatterView
    decreases c, 0nat,
{
    match c {
        Child::Empty(n) => n.printed(f),
        Child::Text(n) => n.printed(f),
        Child::Element(n) => element_printed(n, f),
        Child::Expression(n) => braced_printed(n.expression, false, f),
        Child::Spread(n) => braced_printed(n.expression, true, f),
    }
}

fn print_braced(e: &alias::Expression, spread: bool, f: &mut NodeFormatter)
    ensures
        final(f)@ == braced_printed(*e, spread, old(f)@),
    decreases e, 1nat,
{
    let lock = f.wrap_curly();
    if spread {
        f.punctuator(Punctuator::Ellipsis);
    }
    let prec = f.require_precedence(Precedence::Assignment);
    print_expression(e, f);
    f.release(prec);
    f.release(lock);
}

pub fn print_expression(e: &alias::Expression, f: &mut NodeFormatter)
    ensures
        final(f)@ == expression_printed(*e, old(f)@),
    decreases e, 0nat,
{
    match e {
        alias::Expression::Binding(n) => {
            let _ = f.node(n);
        },
        alias::Expression::This(n) => {
            let _ = f.node(n);
        },
        alias::Expression::Null(n) => {
            let _ = f.node(n);
        },
        alias::Expression::Boolean(n) => {
            let _ = f.node(n);
        },
        alias::Expression::String(n) => {
            let _ = f.node(n);
        },
        alias::Expression::Regex(n) => {
            let _ = f.node(n);
        },
        alias::Expression::JSX(n) => print_element(n, f),
        alias::Expression::Unary(n) => print_unary_expression(n, f),
        alias::Expression::Binary(n) => print_binary_expression(n, f),
        alias::Expression::Conditional(n) => print_conditional_expression(n, f),
        alias::Expression::Sequence(n) => print_sequence_expression(n, f),
        alias::Expression::Update(n) => {
            let _ = f.node(n);
        },
        alias::Expression::AssignUpdate(n) => print_assignment_update_expression(n, f),
        alias::Expression::Template(n) => print_template_literal(n, f),
        alias::Expression::Member(n) => print_member_expression(n, f),
        alias::Expression::SuperMember(n) => print_super_member_expression(n, f),
        alias::Expression::Call(n) => print_call_expression(n, f),
        alias::Expression::New(n) => print_new_expression(n, f),
        alias::Expression::ImportCall(n) => print_import_call_expression(n, f),
        alias::Expression::SuperCall(n) => print_super_call_expression(n, f),
    }
}

fn print_element(e: &Element, f: &mut NodeFormatter)
    ensures
        final(f)@ == element_printed(*e, old(f)@),
    decreases e, 0nat,
{
    f.punctuator(Punctuator::AngleL);
    let _ = f.node(&e.opening);
    print_attributes(&e.attributes, f);
    if e.children.len() > 0 {
        f.punctuator(Punctuator::AngleR);
        print_children(&e.children, f);
        f.punctuator(Punctuator::AngleSlash);
        match &e.closing {
            Some(c) => {
                let _ = f.node(c);
            },
            None => {
                let _ = f.node(&e.opening);
            },
        }
        f.punctuator(Punctuator::AngleR);
    } else {
        match &e.closing {
            Some(c) => {
                f.punctuator(Punctuator::AngleR);
                f.punctuator(Punctuator::AngleSlash);
                let _ = f.node(c);
                f.punctuator(Punctuator::AngleR);
            },
            None => {
                f.punctuator(Punctuator::SlashAngle);
            },
        }
    }
}

fn print_attributes(attrs: &Vec<Attribute>, f: &mut NodeFormatter)
    ensures
        final(f)@ == attributes_printed(attrs@, old(f)@),
    decreases attrs, 0nat,
{
    let ghost start = f@;
    let mut i: usize = 0;
    while i < attrs.len()
        invariant
            i <= attrs@.len(),
            f@ == attributes_printed(attrs@.take(i as int), start),
        decreases attrs@.len() - i,
    {
        print_attribute(&attrs[i], f);
        proof {
            assert(attrs@.take(i + 1).drop_last() =~= attrs@.take(i as int));
        }
        i = i + 1;
    }
    proof {
        assert(attrs@.take(attrs@.len() as int) =~= attrs@);
    }
}

fn print_attribute(a: &Attribute, f: &mut NodeFormatter)
    ensures
        final(f)@ == attribute_printed(*a, old(f)@),
    decreases a, 0nat,
{
    match a {
        Attribute::Spread(s) => print_braced(&s.expression, true, f),
        Attribute::Pair(p) => {
            let _ = f.node(&p.name);
            match &p.value {
                Some(v) => {
                    f.punctuator(Punctuator::Eq);
                    print_attribute_value(v, f);
                },
                None => {},
            }
        },
    }
}

#[verifier::rlimit(60)]
#[verifier::spinoff_prover]
fn print_attribute_value(v: &AttributeValue, f: &mut NodeFormatter)
    ensures
        final(f)@ == attribute_value_printed(*v, old(f)@),
    decreases v, 0nat,
{
    match v {
        AttributeValue::String(s) => {
            let _ = f.node(s);
        },
        AttributeValue::Expression(x) => {
            let lock = f.wrap_curly();
            print_expression(&x.expression, f);
            f.release(lock);
        },
        AttributeValue::Element(el) => print_element(el, f),
    }
}

fn print_children(children: &Vec<Child>, f: &mut NodeFormatter)
    ensures
        final(f)@ == children_printed(children@, old(f)@),
    decreases children, 0nat,
{
    let ghost start = f@;
    let mut i: usize = 0;
    while i < children.len()
        invariant
            i <= children@.len(),
            f@ == children_printed(children@.take(i as int), start),
        decreases children@.len() - i,
    {
        print_child(&children[i], f);
        proof {
            assert(children@.take(i + 1).drop_last() =~= children@.take(i as int));
        }
        i = i + 1;
    }
    proof {
        assert(children@.take(children@.len() as int) =~= children@);
    }
}

fn print_child(c: &Child, f: &mut NodeFormatter)
    ensures
        final(f)@ == child_printed(*c, old(f)@),
    decreases c, 0nat,
{
    match c {
        Child::Empty(n) => {
            let _ = f.node(n);
        },
        Child::Text(n) => {
            let _ = f.node(n);
        },
        Child::Element(n) => print_element(n, f),
        Child::Expression(n) => print_braced(&n.expression, false, f),
        Child::Spread(n) => print_braced(&n.expression, true, f),
    }
}

impl NodeDisplay for Element {
    open spec fn printed(&self, f: FormatterView) -> FormatterView {
        element_printed(*self, f)
    }

    fn fmt(&self, f: &mut NodeFormatter) -> (r: NodeDisplayResult) {
        print_element(self, f);
        Ok(())
    }
}

impl NodeDisplay for Attribute {
    open spec fn printed(&self, f: FormatterView) -> FormatterView {
        attribute_printed(*self, f)
    }

    fn fmt(&self, f: &mut NodeFormatter) -> (r: NodeDisplayResult) {
        print_attribute(self, f);
        Ok(())
    }
}

impl NodeDisplay for SpreadAttribute {
    open spec fn printed(&self, f: FormatterView) -> FormatterView {
        braced_printed(self.expression, true, f)
    }

    fn fmt(&self, f: &mut NodeFormatter) -> (r: NodeDisplayResult) {
        print_braced(&self.expression, true, f);
        Ok(())
    }
}

impl NodeDisplay for PairAttribute {
    open spec fn printed(&self, f: FormatterView) -> FormatterView {
        let named = self.name.printed(f);
        match self.value {
            Some(v) => attribute_value_printed(v, named.with_punctuator(Punctuator::Eq)),
            None => named,
        }
    }

    fn fmt(&self, f: &mut NodeFormatter) -> (r: NodeDisplayResult) {
        let _ = f.node(&self.name);
        match &self.value {
            Some(v) => {
                f.punctuator(Punctuator::Eq);
                print_attribute_value(v, f);
            },
            None => {},
        }
        Ok(())
    }
}

impl NodeDisplay for AttributeValue {
    open spec fn printed(&self, f: FormatterView) -> FormatterView {
        attribute_value_printed(*self, f)
    }

    fn fmt(&self, f: &mut NodeFormatter) -> (r: NodeDisplayResult) {
        print_attribute_value(self, f);
        Ok(())
    }
}

impl NodeDisplay for ExpressionAttribute {
    open spec fn printed(&self, f: FormatterView) -> FormatterView {
        let (inside, lock) = f.curly_opened();
        expression_printed(self.expression, inside).released(lock)
    }

    fn fmt(&self, f: &mut NodeFormatter) -> (r: NodeDisplayResult) {
        let lock = f.wrap_curly();
        print_expression(&self.expression, f);
        f.release(lock);
        Ok(())
    }
}

impl NodeDisplay for Child {
    open spec fn printed(&self, f: FormatterView) -> FormatterView {
        child_printed(*self, f)
    }

    fn fmt(&self, f: &mut NodeFormatter) -> (r: NodeDisplayResult) {
        print_child(self, f);
        Ok(())
    }
}

impl NodeDisplay for Expression {
    open spec fn printed(&self, f: FormatterView) -> FormatterView {
        braced_printed(self.expression, false, f)
    }

    fn fmt(&self, f: &mut NodeFormatter) -> (r: NodeDisplayResult) {
        print_braced(&self.expression, false, f);
        Ok(())
    }
}

impl NodeDisplay for ExpressionSpread {
    open spec fn printed(&self, f: FormatterView) -> FormatterView {
        braced_printed(self.expression, true, f)
    }

    fn fmt(&self, f: &mut NodeFormatter) -> (r: NodeDisplayResult) {
        print_braced(&self.expression, true, f);
        Ok(())
    }
}

pub open spec fn delete_expression_printed(n: operators::DeleteExpression, f: FormatterView) -> FormatterView
    decreases n, 0nat,
{
    let (f, outer) = f.parens_opened(Precedence::Unary.level() < f.prec.level());
    let f = f.with_keyword(Keyword::Delete);
    let inner = LockRelease::Precedence(f.prec);
    let f = expression_printed(*n.value, FormatterView { prec: Precedence::Unary, ..f });
    f.released(inner).released(outer)
}

pub fn print_delete_expression(n: &operators::DeleteExpression, f: &mut NodeFormatter)
    ensures
        final(f)@ == delete_expression_printed(*n, old(f)@),
    decreases n, 0nat,
{
    let outer = f.precedence(Precedence::Unary);
    f.keyword(Keyword::Delete);
    let inner = f.require_precedence(Precedence::Unary);
    print_expression(&n.value, f);
    f.release(inner);
    f.release(outer);
}

pub open spec fn void_expression_printed(n: operators::VoidExpression, f: FormatterView) -> FormatterView
    decreases n, 0nat,
{
    let (f, outer) = f.parens_opened(Precedence::Unary.level() < f.prec.level());
    let f = f.with_keyword(Keyword::Void);
    let inner = LockRelease::Precedence(f.prec);
    let f = expression_printed(*n.value, FormatterView { prec: Precedence::Unary, ..f });
    f.released(inner).released(outer)
}

pub fn print_void_expression(n: &operators::VoidExpression, f: &mut NodeFormatter)
    ensures
        final(f)@ == void_expression_printed(*n, old(f)@),
    decreases n, 0nat,
{
    let outer = f.precedence(Precedence::Unary);
    f.keyword(Keyword::Void);
    let inner = f.require_precedence(Precedence::Unary);
    print_expression(&n.value, f);
    f.release(inner);
    f.release(outer);
}

pub open spec fn typeof_expression_printed(n: operators::TypeofExpression, f: FormatterView) -> FormatterView
    decreases n, 0nat,
{
    let (f, outer) = f.parens_opened(Precedence::Unary.level() < f.prec.level());
    let f = f.with_keyword(Keyword::Typeof);
    let inner = LockRelease::Precedence(f.prec);
    let f = expression_printed(*n.value, FormatterView { prec: Precedence::Unary, ..f });
    f.released(inner).released(outer)
}

pub fn print_typeof_expression(n: &operators::TypeofExpression, f: &mut NodeFormatter)
    ensures
        final(f)@ == typeof_expression_printed(*n, old(f)@),
    decreases n, 0nat,
{
    let outer = f.precedence(Precedence::Unary);
    f.keyword(Keyword::Typeof);
    let inner = f.require_precedence(Precedence::Unary);
    print_expression(&n.value, f);
    f.release(inner);
    f.release(outer);
}

pub open spec fn positive_expression_printed(n: operators::PositiveExpression, f: FormatterView) -> FormatterView
    decreases n, 0nat,
{
    let (f, outer) = f.parens_opened(Precedence::Unary.level() < f.prec.level());
    let f = f.with_punctuator(Punctuator::Plus);
    let inner = LockRelease::Precedence(f.prec);
    let f = expression_printed(*n.value, FormatterView { prec: Precedence::Unary, ..f });
    f.released(inner).released(outer)
}

pub fn print_positive_expression(n: &operators::PositiveExpression, f: &mut NodeFormatter)
    ensures
        final(f)@ == positive_expression_printed(*n, old(f)@),
    decreases n, 0nat,
{
    let outer = f.precedence(Precedence::Unary);
    f.punctuator(Punctuator::Plus);
    let inner = f.require_precedence(Precedence::Unary);
    print_expression(&n.value, f);
    f.release(inner);
    f.release(outer);
}

pub open spec fn negative_expression_printed(n: operators::NegativeExpression, f: FormatterView) -> FormatterView
    decreases n, 0nat,
{
    let (f, outer) = f.parens_opened(Precedence::Unary.level() < f.prec.level());
    let f = f.with_punctuator(Punctuator::Exclam);
    let inner = LockRelease::Precedence(f.prec);
    let f = expression_printed(*n.value, FormatterView { prec: Precedence::Unary, ..f });
    f.released(inner).released(outer)
}

pub fn print_negative_expression(n: &operators::NegativeExpression, f: &mut NodeFormatter)
    ensures
        final(f)@ == negative_expression_printed(*n, old(f)@),
    decreases n, 0nat,
{
    let outer = f.precedence(Precedence::Unary);
    f.punctuator(Punctuator::Exclam);
    let inner = f.require_precedence(Precedence::Unary);
    print_expression(&n.value, f);
    f.release(inner);
    f.release(outer);
}

pub open spec fn bit_negate_expression_printed(n: operators::BitNegateExpression, f: FormatterView) -> FormatterView
    decreases n, 0nat,
{
    let (f, outer) = f.parens_opened(Precedence::Unary.level() < f.prec.level());
    let f = f.with_punctuator(Punctuator::Tilde);
    let inner = LockRelease::Precedence(f.prec);
    let f = expression_printed(*n.value, FormatterView { prec: Precedence::Unary, ..f });
    f.released(inner).released(outer)
}

pub fn print_bit_negate_expression(n: &operators::BitNegateExpression, f: &mut NodeFormatter)
    ensures
        final(f)@ == bit_negate_expression_printed(*n, old(f)@),
    decreases n, 0nat,
{
    let outer = f.precedence(Precedence::Unary);
    f.punctuator(Punctuator::Tilde);
    let inner = f.require_precedence(Precedence::Unary);
    print_expression(&n.value, f);
    f.release(inner);
    f.release(outer);
}

pub open spec fn negate_expression_printed(n: operators::NegateExpression, f: FormatterView) -> FormatterView
    decreases n, 0nat,
{
    let (f, outer) = f.parens_opened(Precedence::Unary.level() < f.prec.level());
    let f = f.with_punctuator(Punctuator::Exclam);
    let inner = LockRelease::Precedence(f.prec);
    let f = expression_printed(*n.value, FormatterView { prec: Precedence::Unary, ..f });
    f.released(inner).released(outer)
}

pub fn print_negate_expression(n: &operators::NegateExpression, f: &mut NodeFormatter)
    ensures
        final(f)@ == negate_expression_printed(*n, old(f)@),
    decreases n, 0nat,
{
    let outer = f.precedence(Precedence::Unary);
    f.punctuator(Punctuator::Exclam);
    let inner = f.require_precedence(Precedence::Unary);
    print_expression(&n.value, f);
    f.release(inner);
    f.release(outer);
}

pub open spec fn await_expression_printed(n: operators::AwaitExpression, f: FormatterView) -> FormatterView
    decreases n, 0nat,
{
    let (f, outer) = f.parens_opened(Precedence::Unary.level() < f.prec.level());
    let f = f.with_keyword(Keyword::Await);
    let inner = LockRelease::Precedence(f.prec);
    let f = expression_printed(*n.value, FormatterView { prec: Precedence::Unary, ..f });
    f.released(inner).released(outer)
}

pub fn print_await_expression(n: &operators::AwaitExpression, f: &mut NodeFormatter)
    ensures
        final(f)@ == await_expression_printed(*n, old(f)@),
    decreases n, 0nat,
{
    let outer = f.precedence(Precedence::Unary);
    f.keyword(Keyword::Await);
    let inner = f.require_precedence(Precedence::Unary);
    print_expression(&n.value, f);
    f.release(inner);
    f.release(outer);
}

pub open spec fn yield_expression_printed(n: operators::YieldExpression, f: FormatterView) -> FormatterView
    decreases n, 0nat,
{
    let (f, outer) = f.parens_opened(Precedence::Unary.level() < f.prec.level());
    let f = f.with_keyword(Keyword::Yield);
    let inner = LockRelease::Precedence(f.prec);
    let f = expression_printed(*n.value, FormatterView { prec: Precedence::Assignment, ..f });
    f.released(inner).released(outer)
}

pub fn print_yield_expression(n: &operators::YieldExpression, f: &mut NodeFormatter)
    ensures
        final(f)@ == yield_expression_printed(*n, old(f)@),
    decreases n, 0nat,
{
    let outer = f.precedence(Precedence::Unary);
    f.keyword(Keyword::Yield);
    let inner = f.require_precedence(Precedence::Assignment);
    print_expression(&n.value, f);
    f.release(inner);
    f.release(outer);
}

pub open spec fn delegate_yield_expression_printed(n: operators::DelegateYieldExpression, f: FormatterView) -> FormatterView
    decreases n, 0nat,
{
    let (f, outer) = f.parens_opened(Precedence::Unary.level() < f.prec.level());
    let f = f.with_keyword(Keyword::Yield);
    let f = f.with_punctuator(Punctuator::Star);
    let inner = LockRelease::Precedence(f.prec);
    let f = expression_printed(*n.value, FormatterView { prec: Precedence::Assignment, ..f });
    f.released(inner).released(outer)
}

pub fn print_delegate_yield_expression(n: &operators::DelegateYieldExpression, f: &mut NodeFormatter)
    ensures
        final(f)@ == delegate_yield_expression_printed(*n, old(f)@),
    decreases n, 0nat,
{
    let outer = f.precedence(Precedence::Unary);
    f.keyword(Keyword::Yield);
    f.punctuator(Punctuator::Star);
    let inner = f.require_precedence(Precedence::Assignment);
    print_expression(&n.value, f);
    f.release(inner);
    f.release(outer);
}

pub open spec fn bind_member_expression_printed(n: operators::BindMemberExpression, f: FormatterView) -> FormatterView
    decreases n, 0nat,
{
    let (f, outer) = f.parens_opened(Precedence::Unary.level() < f.prec.level());
    let f = f.with_punctuator(Punctuator::Bind);
    let inner = LockRelease::Precedence(f.prec);
    let f = expression_printed(*n.value, FormatterView { prec: Precedence::Member, ..f });
    f.released(inner).released(outer)
}

pub fn print_bind_member_expression(n: &operators::BindMemberExpression, f: &mut NodeFormatter)
    ensures
        final(f)@ == bind_member_expression_printed(*n, old(f)@),
    decreases n, 0nat,
{
    let outer = f.precedence(Precedence::Unary);
    f.punctuator(Punctuator::Bind);
    let inner = f.require_precedence(Precedence::Member);
    print_expression(&n.value, f);
    f.release(inner);
    f.release(outer);
}

pub open spec fn add_expression_printed(n: operators::AddExpression, f: FormatterView) -> FormatterView
    decreases n, 0nat,
{
    let (f, outer) = f.parens_opened(Precedence::Additive.level() < f.prec.level());
    let f = expression_printed(*n.left, f);
    let f = f.with_punctuator(Punctuator::Plus);
    let right = LockRelease::Precedence(f.prec);
    let f = expression_printed(*n.right, FormatterView { prec: Precedence::Multiplicative, ..f }).released(right);
    f.released(outer)
}

pub fn print_add_expression(n: &operators::AddExpression, f: &mut NodeFormatter)
    ensures
        final(f)@ == add_expression_printed(*n, old(f)@),
    decreases n, 0nat,
{
    let outer = f.precedence(Precedence::Additive);
    print_expression(&n.left, f);
    f.punctuator(Punctuator::Plus);
    let right = f.require_precedence(Precedence::Multiplicative);
    print_expression(&n.right, f);
    f.release(right);
    f.release(outer);
}

pub open spec fn subtract_expression_printed(n: operators::SubtractExpression, f: FormatterView) -> FormatterView
    decreases n, 0nat,
{
    let (f, outer) = f.parens_opened(Precedence::Additive.level() < f.prec.level());
    let f = expression_printed(*n.left, f);
    let f = f.with_punctuator(Punctuator::Minus);
    let right = LockRelease::Precedence(f.prec);
    let f = expression_printed(*n.right, FormatterView { prec: Precedence::Multiplicative, ..f }).released(right);
    f.released(outer)
}

pub fn print_subtract_expression(n: &operators::SubtractExpression, f: &mut NodeFormatter)
    ensures
        final(f)@ == subtract_expression_printed(*n, old(f)@),
    decreases n, 0nat,
{
    let outer = f.precedence(Precedence::Additive);
    print_expression(&n.left, f);
    f.punctuator(Punctuator::Minus);
    let right = f.require_precedence(Precedence::Multiplicative);
    print_expression(&n.right, f);
    f.release(right);
    f.release(outer);
}

pub open spec fn left_shift_expression_printed(n: operators::LeftShiftExpression, f: FormatterView) -> FormatterView
    decreases n, 0nat,
{
    let (f, outer) = f.parens_opened(Precedence::Shift.level() < f.prec.level());
    let f = expression_printed(*n.left, f);
    let f = f.with_punctuator(Punctuator::LAngleAngle);
    let right = LockRelease::Precedence(f.prec);
    let f = expression_printed(*n.right, FormatterView { prec: Precedence::Additive, ..f }).released(right);
    f.released(outer)
}

pub fn print_left_shift_expression(n: &operators::LeftShiftExpression, f: &mut NodeFormatter)
    ensures
        final(f)@ == left_shift_expression_printed(*n, old(f)@),
    decreases n, 0nat,
{
    let outer = f.precedence(Precedence::Shift);
    print_expression(&n.left, f);
    f.punctuator(Punctuator::LAngleAngle);
    let right = f.require_precedence(Precedence::Additive);
    print_expression(&n.right, f);
    f.release(right);
    f.release(outer);
}

pub open spec fn right_shift_expression_printed(n: operators::RightShiftExpression, f: FormatterView) -> FormatterView
    decreases n, 0nat,
{
    let (f, outer) = f.parens_opened(Precedence::Shift.level() < f.prec.level());
    let f = expression_printed(*n.left, f);
    let f = f.with_punctuator(Punctuator::RAngleAngle);
    let right = LockRelease::Precedence(f.prec);
    let f = expression_printed(*n.right, FormatterView { prec: Precedence::Additive, ..f }).released(right);
    f.released(outer)
}

pub fn print_right_shift_expression(n: &operators::RightShiftExpression, f: &mut NodeFormatter)
    ensures
        final(f)@ == right_shift_expression_printed(*n, old(f)@),
    decreases n, 0nat,
{
    let outer = f.precedence(Precedence::Shift);
    print_expression(&n.left, f);
    f.punctuator(Punctuator::RAngleAngle);
    let right = f.require_precedence(Precedence::Additive);
    print_expression(&n.right, f);
    f.release(right);
    f.release(outer);
}

pub open spec fn right_shift_signed_expression_printed(n: operators::RightShiftSignedExpression, f: FormatterView) -> FormatterView
    decreases n, 0nat,
{
    let (f, outer) = f.parens_opened(Precedence::Shift.level() < f.prec.level());
    let f = expression_printed(*n.left, f);
    let f = f.with_punctuator(Punctuator::RAngleAngleAngle);
    let right = LockRelease::Precedence(f.prec);
    let f = expression_printed(*n.right, FormatterView { prec: Precedence::Additive, ..f }).released(right);
    f.released(outer)
}

pub fn print_right_shift_signed_expression(n: &operators::RightShiftSignedExpression, f: &mut NodeFormatter)
    ensures
        final(f)@ == right_shift_signed_expression_printed(*n, old(f)@),
    decreases n, 0nat,
{
    let outer = f.precedence(Precedence::Shift);
    print_expression(&n.left, f);
    f.punctuator(Punctuator::RAngleAngleAngle);
    let right = f.require_precedence(Precedence::Additive);
    print_expression(&n.right, f);
    f.release(right);
    f.release(outer);
}

pub open spec fn divide_expression_printed(n: operators::DivideExpression, f: FormatterView) -> FormatterView
    decreases n, 0nat,
{
    let (f, outer) = f.parens_opened(Precedence::Multiplicative.level() < f.prec.level());
    let f = expression_printed(*n.left, f);
    let f = f.with_punctuator(Punctuator::Slash);
    let right = LockRelease::Precedence(f.prec);
    let f = expression_printed(*n.right, FormatterView { prec: Precedence::Exponential, ..f }).released(right);
    f.released(outer)
}

pub fn print_divide_expression(n: &operators::DivideExpression, f: &mut NodeFormatter)
    ensures
        final(f)@ == divide_expression_printed(*n, old(f)@),
    decreases n, 0nat,
{
    let outer = f.precedence(Precedence::Multiplicative);
    print_expression(&n.left, f);
    f.punctuator(Punctuator::Slash);
    let right = f.require_precedence(Precedence::Exponential);
    print_expression(&n.right, f);
    f.release(right);
    f.release(outer);
}

pub open spec fn multiply_expression_printed(n: operators::MultiplyExpression, f: FormatterView) -> FormatterView
    decreases n, 0nat,
{
    let (f, outer) = f.parens_opened(Precedence::Multiplicative.level() < f.prec.level());
    let f = expression_printed(*n.left, f);
    let f = f.with_punctuator(Punctuator::Star);
    let right = LockRelease::Precedence(f.prec);
    let f = expression_printed(*n.right, FormatterView { prec: Precedence::Exponential, ..f }).released(right);
    f.released(outer)
}

pub fn print_multiply_expression(n: &operators::MultiplyExpression, f: &mut NodeFormatter)
    ensures
        final(f)@ == multiply_expression_printed(*n, old(f)@),
    decreases n, 0nat,
{
    let outer = f.precedence(Precedence::Multiplicative);
    print_expression(&n.left, f);
    f.punctuator(Punctuator::Star);
    let right = f.require_precedence(Precedence::Exponential);
    print_expression(&n.right, f);
    f.release(right);
    f.release(outer);
}

pub open spec fn modulus_expression_printed(n: operators::ModulusExpression, f: FormatterView) -> FormatterView
    decreases n, 0nat,
{
    let (f, outer) = f.parens_opened(Precedence::Multiplicative.level() < f.prec.level());
    let f = expression_printed(*n.left, f);
    let f = f.with_punctuator(Punctuator::Mod);
    let right = LockRelease::Precedence(f.prec);
    let f = expression_printed(*n.right, FormatterView { prec: Precedence::Exponential, ..f }).released(right);
    f.released(outer)
}

pub fn print_modulus_expression(n: &operators::ModulusExpression, f: &mut NodeFormatter)
    ensures
        final(f)@ == modulus_expression_printed(*n, old(f)@),
    decreases n, 0nat,
{
    let outer = f.precedence(Precedence::Multiplicative);
    print_expression(&n.left, f);
    f.punctuator(Punctuator::Mod);
    let right = f.require_precedence(Precedence::Exponential);
    print_expression(&n.right, f);
    f.release(right);
    f.release(outer);
}

pub open spec fn bit_and_expression_printed(n: operators::BitAndExpression, f: FormatterView) -> FormatterView
    decreases n, 0nat,
{
    let (f, outer) = f.parens_opened(Precedence::BitwiseAnd.level() < f.prec.level());
    let f = expression_printed(*n.left, f);
    let f = f.with_punctuator(Punctuator::Amp);
    let right = LockRelease::Precedence(f.prec);
    let f = expression_printed(*n.right, FormatterView { prec: Precedence::Equality, ..f }).released(right);
    f.released(outer)
}

pub fn print_bit_and_expression(n: &operators::BitAndExpression, f: &mut NodeFormatter)
    ensures
        final(f)@ == bit_and_expression_printed(*n, old(f)@),
    decreases n, 0nat,
{
    let outer = f.precedence(Precedence::BitwiseAnd);
    print_expression(&n.left, f);
    f.punctuator(Punctuator::Amp);
    let right = f.require_precedence(Precedence::Equality);
    print_expression(&n.right, f);
    f.release(right);
    f.release(outer);
}

pub open spec fn bit_or_expression_printed(n: operators::BitOrExpression, f: FormatterView) -> FormatterView
    decreases n, 0nat,
{
    let (f, outer) = f.parens_opened(Precedence::BitwiseOr.level() < f.prec.level());
    let f = expression_printed(*n.left, f);
    let f = f.with_punctuator(Punctuator::Bar);
    let right = LockRelease::Precedence(f.prec);
    let f = expression_printed(*n.right, FormatterView { prec: Precedence::BitwiseXOr, ..f }).released(right);
    f.released(outer)
}

pub fn print_bit_or_expression(n: &operators::BitOrExpression, f: &mut NodeFormatter)
    ensures
        final(f)@ == bit_or_expression_printed(*n, old(f)@),
    decreases n, 0nat,
{
    let outer = f.precedence(Precedence::BitwiseOr);
    print_expression(&n.left, f);
    f.punctuator(Punctuator::Bar);
    let right = f.require_precedence(Precedence::BitwiseXOr);
    print_expression(&n.right, f);
    f.release(right);
    f.release(outer);
}

pub open spec fn bit_xor_expression_printed(n: operators::BitXorExpression, f: FormatterView) -> FormatterView
    decreases n, 0nat,
{
    let (f, outer) = f.parens_opened(Precedence::BitwiseXOr.level() < f.prec.level());
    let f = expression_printed(*n.left, f);
    let f = f.with_punctuator(Punctuator::Caret);
    let right = LockRelease::Precedence(f.prec);
    let f = expression_printed(*n.right, FormatterView { prec: Precedence::BitwiseAnd, ..f }).released(right);
    f.released(outer)
}

pub fn print_bit_xor_expression(n: &operators::BitXorExpression, f: &mut NodeFormatter)
    ensures
        final(f)@ == bit_xor_expression_printed(*n, old(f)@),
    decreases n, 0nat,
{
    let outer = f.precedence(Precedence::BitwiseXOr);
    print_expression(&n.left, f);
    f.punctuator(Punctuator::Caret);
    let right = f.require_precedence(Precedence::BitwiseAnd);
    print_expression(&n.right, f);
    f.release(right);
    f.release(outer);
}

pub open spec fn power_expression_printed(n: operators::PowerExpression, f: FormatterView) -> FormatterView
    decreases n, 0nat,
{
    let (f, outer) = f.parens_opened(Precedence::Update.level() < f.prec.level());
    let f = expression_printed(*n.left, f);
    let f = f.with_punctuator(Punctuator::StarStar);
    let right = LockRelease::Precedence(f.prec);
    let f = expression_printed(*n.right, FormatterView { prec: Precedence::Exponential, ..f }).released(right);
    f.released(outer)
}

pub fn print_power_expression(n: &operators::PowerExpression, f: &mut NodeFormatter)
    ensures
        final(f)@ == power_expression_printed(*n, old(f)@),
    decreases n, 0nat,
{
    let outer = f.precedence(Precedence::Update);
    print_expression(&n.left, f);
    f.punctuator(Punctuator::StarStar);
    let right = f.require_precedence(Precedence::Exponential);
    print_expression(&n.right, f);
    f.release(right);
    f.release(outer);
}

pub open spec fn equal_expression_printed(n: operators::EqualExpression, f: FormatterView) -> FormatterView
    decreases n, 0nat,
{
    let (f, outer) = f.parens_opened(Precedence::Equality.level() < f.prec.level());
    let f = expression_printed(*n.left, f);
    let f = f.with_punctuator(Punctuator::EqEq);
    let right = LockRelease::Precedence(f.prec);
    let f = expression_printed(*n.right, FormatterView { prec: Precedence::Relational, ..f }).released(right);
    f.released(outer)
}

pub fn print_equal_expression(n: &operators::EqualExpression, f: &mut NodeFormatter)
    ensures
        final(f)@ == equal_expression_printed(*n, old(f)@),
    decreases n, 0nat,
{
    let outer = f.precedence(Precedence::Equality);
    print_expression(&n.left, f);
    f.punctuator(Punctuator::EqEq);
    let right = f.require_precedence(Precedence::Relational);
    print_expression(&n.right, f);
    f.release(right);
    f.release(outer);
}

pub open spec fn strict_equal_expression_printed(n: operators::StrictEqualExpression, f: FormatterView) -> FormatterView
    decreases n, 0nat,
{
    let (f, outer) = f.parens_opened(Precedence::Equality.level() < f.prec.level());
    let f = expression_printed(*n.left, f);
    let f = f.with_punctuator(Punctuator::EqEqEq);
    let right = LockRelease::Precedence(f.prec);
    let f = expression_printed(*n.right, FormatterView { prec: Precedence::Relational, ..f }).released(right);
    f.released(outer)
}

pub fn print_strict_equal_expression(n: &operators::StrictEqualExpression, f: &mut NodeFormatter)
    ensures
        final(f)@ == strict_equal_expression_printed(*n, old(f)@),
    decreases n, 0nat,
{
    let outer = f.precedence(Precedence::Equality);
    print_expression(&n.left, f);
    f.punctuator(Punctuator::EqEqEq);
    let right = f.require_precedence(Precedence::Relational);
    print_expression(&n.right, f);
    f.release(right);
    f.release(outer);
}

pub open spec fn not_equal_expression_printed(n: operators::NotEqualExpression, f: FormatterView) -> FormatterView
    decreases n, 0nat,
{
    let (f, outer) = f.parens_opened(Precedence::Equality.level() < f.prec.level());
    let f = expression_printed(*n.left, f);
    let f = f.with_punctuator(Punctuator::Neq);
    let right = LockRelease::Precedence(f.prec);
    let f = expression_printed(*n.right, FormatterView { prec: Precedence::Relational, ..f }).released(right);
    f.released(outer)
}

pub fn print_not_equal_expression(n: &operators::NotEqualExpression, f: &mut NodeFormatter)
    ensures
        final(f)@ == not_equal_expression_printed(*n, old(f)@),
    decreases n, 0nat,
{
    let outer = f.precedence(Precedence::Equality);
    print_expression(&n.left, f);
    f.punctuator(Punctuator::Neq);
    let right = f.require_precedence(Precedence::Relational);
    print_expression(&n.right, f);
    f.release(right);
    f.release(outer);
}

pub open spec fn strict_not_equal_expression_printed(n: operators::StrictNotEqualExpression, f: FormatterView) -> FormatterView
    decreases n, 0nat,
{
    let (f, outer) = f.parens_opened(Precedence::Equality.level() < f.prec.level());
    let f = expression_printed(*n.left, f);
    let f = f.with_punctuator(Punctuator::NeqEq);
    let right = LockRelease::Precedence(f.prec);
    let f = expression_printed(*n.right, FormatterView { prec: Precedence::Relational, ..f }).released(right);
    f.released(outer)
}

pub fn print_strict_not_equal_expression(n: &operators::StrictNotEqualExpression, f: &mut NodeFormatter)
    ensures
        final(f)@ == strict_not_equal_expression_printed(*n, old(f)@),
    decreases n, 0nat,
{
    let outer = f.precedence(Precedence::Equality);
    print_expression(&n.left, f);
    f.punctuator(Punctuator::NeqEq);
    let right = f.require_precedence(Precedence::Relational);
    print_expression(&n.right, f);
    f.release(right);
    f.release(outer);
}

pub open spec fn less_than_expression_printed(n: operators::LessThanExpression, f: FormatterView) -> FormatterView
    decreases n, 0nat,
{
    let (f, outer) = f.parens_opened(Precedence::Relational.level() < f.prec.level());
    let f = expression_printed(*n.left, f);
    let f = f.with_punctuator(Punctuator::LAngle);
    let right = LockRelease::Precedence(f.prec);
    let f = expression_printed(*n.right, FormatterView { prec: Precedence::Shift, ..f }).released(right);
    f.released(outer)
}

pub fn print_less_than_expression(n: &operators::LessThanExpression, f: &mut NodeFormatter)
    ensures
        final(f)@ == less_than_expression_printed(*n, old(f)@),
    decreases n, 0nat,
{
    let outer = f.precedence(Precedence::Relational);
    print_expression(&n.left, f);
    f.punctuator(Punctuator::LAngle);
    let right = f.require_precedence(Precedence::Shift);
    print_expression(&n.right, f);
    f.release(right);
    f.release(outer);
}

pub open spec fn less_than_equal_expression_printed(n: operators::LessThanEqualExpression, f: FormatterView) -> FormatterView
    decreases n, 0nat,
{
    let (f, outer) = f.parens_opened(Precedence::Relational.level() < f.prec.level());
    let f = expression_printed(*n.left, f);
    let f = f.with_punctuator(Punctuator::LAngleEq);
    let right = LockRelease::Precedence(f.prec);
    let f = expression_printed(*n.right, FormatterView { prec: Precedence::Shift, ..f }).released(right);
    f.released(outer)
}

pub fn print_less_than_equal_expression(n: &operators::LessThanEqualExpression, f: &mut NodeFormatter)
    ensures
        final(f)@ == less_than_equal_expression_printed(*n, old(f)@),
    decreases n, 0nat,
{
    let outer = f.precedence(Precedence::Relational);
    print_expression(&n.left, f);
    f.punctuator(Punctuator::LAngleEq);
    let right = f.require_precedence(Precedence::Shift);
    print_expression(&n.right, f);
    f.release(right);
    f.release(outer);
}

pub open spec fn greather_than_expression_printed(n: operators::GreatherThanExpression, f: FormatterView) -> FormatterView
    decreases n, 0nat,
{
    let (f, outer) = f.parens_opened(Precedence::Relational.level() < f.prec.level());
    let f = expression_printed(*n.left, f);
    let f = f.with_punctuator(Punctuator::RAngle);
    let right = LockRelease::Precedence(f.prec);
    let f = expression_printed(*n.right, FormatterView { prec: Precedence::Shift, ..f }).released(right);
    f.released(outer)
}

pub fn print_greather_than_expression(n: &operators::GreatherThanExpression, f: &mut NodeFormatter)
    ensures
        final(f)@ == greather_than_expression_printed(*n, old(f)@),
    decreases n, 0nat,
{
    let outer = f.precedence(Precedence::Relational);
    print_expression(&n.left, f);
    f.punctuator(Punctuator::RAngle);
    let right = f.require_precedence(Precedence::Shift);
    print_expression(&n.right, f);
    f.release(right);
    f.release(outer);
}

pub open spec fn greater_than_equal_expression_printed(n: operators::GreaterThanEqualExpression, f: FormatterView) -> FormatterView
    decreases n, 0nat,
{
    let (f, outer) = f.parens_opened(Precedence::Relational.level() < f.prec.level());
    let f = expression_printed(*n.left, f);
    let f = f.with_punctuator(Punctuator::RAngleEq);
    let right = LockRelease::Precedence(f.prec);
    let f = expression_printed(*n.right, FormatterView { prec: Precedence::Shift, ..f }).released(right);
    f.released(outer)
}

pub fn print_greater_than_equal_expression(n: &operators::GreaterThanEqualExpression, f: &mut NodeFormatter)
    ensures
        final(f)@ == greater_than_equal_expression_printed(*n, old(f)@),
    decreases n, 0nat,
{
    let outer = f.precedence(Precedence::Relational);
    print_expression(&n.left, f);
    f.punctuator(Punctuator::RAngleEq);
    let right = f.require_precedence(Precedence::Shift);
    print_expression(&n.right, f);
    f.release(right);
    f.release(outer);
}

pub open spec fn in_expression_printed(n: operators::InExpression, f: FormatterView) -> FormatterView
    decreases n, 0nat,
{
    let (f, outer) = f.parens_opened(Precedence::Relational.level() < f.prec.level());
    let (f, in_lock) = f.parens_opened(!f.in_operator);
    let f = expression_printed(*n.left, f);
    let f = f.with_keyword(Keyword::In);
    let right = LockRelease::Precedence(f.prec);
    let f = expression_printed(*n.right, FormatterView { prec: Precedence::Shift, ..f }).released(right);
    let f = f.released(in_lock);
    f.released(outer)
}

pub fn print_in_expression(n: &operators::InExpression, f: &mut NodeFormatter)
    ensures
        final(f)@ == in_expression_printed(*n, old(f)@),
    decreases n, 0nat,
{
    let outer = f.precedence(Precedence::Relational);
    let in_lock = f.in_wrap_parens();
    print_expression(&n.left, f);
    f.keyword(Keyword::In);
    let right = f.require_precedence(Precedence::Shift);
    print_expression(&n.right, f);
    f.release(right);
    f.release(in_lock);
    f.release(outer);
}

pub open spec fn instanceof_expression_printed(n: operators::InstanceofExpression, f: FormatterView) -> FormatterView
    decreases n, 0nat,
{
    let (f, outer) = f.parens_opened(Precedence::Relational.level() < f.prec.level());
    let f = expression_printed(*n.left, f);
    let f = f.with_keyword(Keyword::Instanceof);
    let right = LockRelease::Precedence(f.prec);
    let f = expression_printed(*n.right, FormatterView { prec: Precedence::Shift, ..f }).released(right);
    f.released(outer)
}

pub fn print_instanceof_expression(n: &operators::InstanceofExpression, f: &mut NodeFormatter)
    ensures
        final(f)@ == instanceof_expression_printed(*n, old(f)@),
    decreases n, 0nat,
{
    let outer = f.precedence(Precedence::Relational);
    print_expression(&n.left, f);
    f.keyword(Keyword::Instanceof);
    let right = f.require_precedence(Precedence::Shift);
    print_expression(&n.right, f);
    f.release(right);
    f.release(outer);
}

pub open spec fn and_expression_printed(n: operators::AndExpression, f: FormatterView) -> FormatterView
    decreases n, 0nat,
{
    let (f, outer) = f.parens_opened(Precedence::LogicalAnd.level() < f.prec.level());
    let f = expression_printed(*n.left, f);
    let f = f.with_punctuator(Punctuator::AmpAmp);
    let right = LockRelease::Precedence(f.prec);
    let f = expression_printed(*n.right, FormatterView { prec: Precedence::BitwiseOr, ..f }).released(right);
    f.released(outer)
}

pub fn print_and_expression(n: &operators::AndExpression, f: &mut NodeFormatter)
    ensures
        final(f)@ == and_expression_printed(*n, old(f)@),
    decreases n, 0nat,
{
    let outer = f.precedence(Precedence::LogicalAnd);
    print_expression(&n.left, f);
    f.punctuator(Punctuator::AmpAmp);
    let right = f.require_precedence(Precedence::BitwiseOr);
    print_expression(&n.right, f);
    f.release(right);
    f.release(outer);
}

pub open spec fn or_expression_printed(n: operators::OrExpression, f: FormatterView) -> FormatterView
    decreases n, 0nat,
{
    let (f, outer) = f.parens_opened(Precedence::LogicalOr.level() < f.prec.level());
    let f = expression_printed(*n.left, f);
    let f = f.with_punctuator(Punctuator::BarBar);
    let right = LockRelease::Precedence(f.prec);
    let f = expression_printed(*n.right, FormatterView { prec: Precedence::LogicalAnd, ..f }).released(right);
    f.released(outer)
}

pub fn print_or_expression(n: &operators::OrExpression, f: &mut NodeFormatter)
    ensures
        final(f)@ == or_expression_printed(*n, old(f)@),
    decreases n, 0nat,
{
    let outer = f.precedence(Precedence::LogicalOr);
    print_expression(&n.left, f);
    f.punctuator(Punctuator::BarBar);
    let right = f.require_precedence(Precedence::LogicalAnd);
    print_expression(&n.right, f);
    f.release(right);
    f.release(outer);
}

pub open spec fn bind_expression_printed(n: operators::BindExpression, f: FormatterView) -> FormatterView
    decreases n, 0nat,
{
    let (f, outer) = f.parens_opened(Precedence::LeftHand.level() < f.prec.level());
    let left = LockRelease::Precedence(f.prec);
    let f = expression_printed(*n.left, FormatterView { prec: Precedence::LeftHand, ..f }).released(left);
    let f = f.with_punctuator(Punctuator::ColonColon);
    let right = LockRelease::Precedence(f.prec);
    let f = expression_printed(*n.right, FormatterView { prec: Precedence::Member, ..f }).released(right);
    f.released(outer)
}

pub fn print_bind_expression(n: &operators::BindExpression, f: &mut NodeFormatter)
    ensures
        final(f)@ == bind_expression_printed(*n, old(f)@),
    decreases n, 0nat,
{
    let outer = f.precedence(Precedence::LeftHand);
    let left = f.require_precedence(Precedence::LeftHand);
    print_expression(&n.left, f);
    f.release(left);
    f.punctuator(Punctuator::ColonColon);
    let right = f.require_precedence(Precedence::Member);
    print_expression(&n.right, f);
    f.release(right);
    f.release(outer);
}

pub open spec fn conditional_expression_printed(n: operators::ConditionalExpression, f: FormatterView) -> FormatterView
    decreases n, 0nat,
{
    let (f, outer) = f.parens_opened(Precedence::Conditional.level() < f.prec.level());
    let test = LockRelease::Precedence(f.prec);
    let f = expression_printed(*n.test, FormatterView { prec: Precedence::LogicalOr, ..f }).released(test);
    let f = f.with_punctuator(Punctuator::Question);
    let branches = LockRelease::Precedence(f.prec);
    let f = FormatterView { prec: Precedence::Assignment, ..f };
    let in_lock = LockRelease::InOperator(f.in_operator);
    let f = expression_printed(*n.consequent, FormatterView { in_operator: true, ..f }).released(in_lock);
    let f = f.with_punctuator(Punctuator::Colon);
    let f = expression_printed(*n.alternate, f);
    f.released(branches).released(outer)
}

pub fn print_conditional_expression(n: &operators::ConditionalExpression, f: &mut NodeFormatter)
    ensures
        final(f)@ == conditional_expression_printed(*n, old(f)@),
    decreases n, 0nat,
{
    let outer = f.precedence(Precedence::Conditional);
    let test = f.require_precedence(Precedence::LogicalOr);
    print_expression(&n.test, f);
    f.release(test);
    f.punctuator(Punctuator::Question);
    let branches = f.require_precedence(Precedence::Assignment);
    let in_lock = f.allow_in();
    print_expression(&n.consequent, f);
    f.release(in_lock);
    f.punctuator(Punctuator::Colon);
    print_expression(&n.alternate, f);
    f.release(branches);
    f.release(outer);
}

pub open spec fn sequence_expression_printed(n: operators::SequenceExpression, f: FormatterView) -> FormatterView
    decreases n, 0nat,
{
    let (f, outer) = f.parens_opened(Precedence::Normal.level() < f.prec.level());
    let f = expression_printed(*n.left, f);
    let f = f.with_punctuator(Punctuator::Comma);
    let right = LockRelease::Precedence(f.prec);
    let f = expression_printed(*n.right, FormatterView { prec: Precedence::Assignment, ..f }).released(right);
    f.released(outer)
}

pub fn print_sequence_expression(n: &operators::SequenceExpression, f: &mut NodeFormatter)
    ensures
        final(f)@ == sequence_expression_printed(*n, old(f)@),
    decreases n, 0nat,
{
    let outer = f.precedence(Precedence::Normal);
    print_expression(&n.left, f);
    f.punctuator(Punctuator::Comma);
    let right = f.require_precedence(Precedence::Assignment);
    print_expression(&n.right, f);
    f.release(right);
    f.release(outer);
}

pub open spec fn unary_expression_printed(e: operators::UnaryExpression, f: FormatterView) -> FormatterView
    decreases e, 0nat,
{
    match e {
        operators::UnaryExpression::Delete(x) => delete_expression_printed(x, f),
        operators::UnaryExpression::Void(x) => void_expression_printed(x, f),
        operators::UnaryExpression::Typeof(x) => typeof_expression_printed(x, f),
        operators::UnaryExpression::Positive(x) => positive_expression_printed(x, f),
        operators::UnaryExpression::Negative(x) => negative_expression_printed(x, f),
        operators::UnaryExpression::BitNegate(x) => bit_negate_expression_printed(x, f),
        operators::UnaryExpression::Negate(x) => negate_expression_printed(x, f),
        operators::UnaryExpression::Await(x) => await_expression_printed(x, f),
        operators::UnaryExpression::Yield(x) => yield_expression_printed(x, f),
        operators::UnaryExpression::DelegateYield(x) => delegate_yield_expression_printed(x, f),
        operators::UnaryExpression::BindMember(x) => bind_member_expression_printed(x, f),
    }
}

pub fn print_unary_expression(e: &operators::UnaryExpression, f: &mut NodeFormatter)
    ensures
        final(f)@ == unary_expression_printed(*e, old(f)@),
    decreases e, 0nat,
{
    match e {
        operators::UnaryExpression::Delete(x) => print_delete_expression(x, f),
        operators::UnaryExpression::Void(x) => print_void_expression(x, f),
        operators::UnaryExpression::Typeof(x) => print_typeof_expression(x, f),
        operators::UnaryExpression::Positive(x) => print_positive_expression(x, f),
        operators::UnaryExpression::Negative(x) => print_negative_expression(x, f),
        operators::UnaryExpression::BitNegate(x) => print_bit_negate_expression(x, f),
        operators::UnaryExpression::Negate(x) => print_negate_expression(x, f),
        operators::UnaryExpression::Await(x) => print_await_expression(x, f),
        operators::UnaryExpression::Yield(x) => print_yield_expression(x, f),
        operators::UnaryExpression::DelegateYield(x) => print_delegate_yield_expression(x, f),
        operators::UnaryExpression::BindMember(x) => print_bind_member_expression(x, f),
    }
}

pub open spec fn binary_expression_printed(e: operators::BinaryExpression, f: FormatterView) -> FormatterView
    decreases e, 0nat,
{
    match e {
        operators::BinaryExpression::Add(x) => add_expression_printed(x, f),
        operators::BinaryExpression::Subtract(x) => subtract_expression_printed(x, f),
        operators::BinaryExpression::LeftShift(x) => left_shift_expression_printed(x, f),
        operators::BinaryExpression::RightShift(x) => right_shift_expression_printed(x, f),
        operators::BinaryExpression::RightShiftSigned(x) => right_shift_signed_expression_printed(x, f),
        operators::BinaryExpression::Divide(x) => divide_expression_printed(x, f),
        operators::BinaryExpression::Multiply(x) => multiply_expression_printed(x, f),
        operators::BinaryExpression::Modulus(x) => modulus_expression_printed(x, f),
        operators::BinaryExpression::BitAnd(x) => bit_and_expression_printed(x, f),
        operators::BinaryExpression::BitOr(x) => bit_or_expression_printed(x, f),
        operators::BinaryExpression::BitXor(x) => bit_xor_expression_printed(x, f),
        operators::BinaryExpression::Power(x) => power_expression_printed(x, f),
        operators::BinaryExpression::Equal(x) => equal_expression_printed(x, f),
        operators::BinaryExpression::StrictEqual(x) => strict_equal_expression_printed(x, f),
        operators::BinaryExpression::NotEqual(x) => not_equal_expression_printed(x, f),
        operators::BinaryExpression::StrictNotEqual(x) => strict_not_equal_expression_printed(x, f),
        operators::BinaryExpression::LessThan(x) => less_than_expression_printed(x, f),
        operators::BinaryExpression::LessThanEqual(x) => less_than_equal_expression_printed(x, f),
        operators::BinaryExpression::GreatherThan(x) => greather_than_expression_printed(x, f),
        operators::BinaryExpression::GreaterThanEqual(x) => greater_than_equal_expression_printed(x, f),
        operators::BinaryExpression::In(x) => in_expression_printed(x, f),
        operators::BinaryExpression::Instanceof(x) => instanceof_expression_printed(x, f),
        operators::BinaryExpression::And(x) => and_expression_printed(x, f),
        operators::BinaryExpression::Or(x) => or_expression_printed(x, f),
        operators::BinaryExpression::Bind(x) => bind_expression_printed(x, f),
    }
}

pub fn print_binary_expression(e: &operators::BinaryExpression, f: &mut NodeFormatter)
    ensures
        final(f)@ == binary_expression_printed(*e, old(f)@),
    decreases e, 0nat,
{
    match e {
        operators::BinaryExpression::Add(x) => print_add_expression(x, f),
        operators::BinaryExpression::Subtract(x) => print_subtract_expression(x, f),
        operators::BinaryExpression::LeftShift(x) => print_left_shift_expression(x, f),
        operators::BinaryExpression::RightShift(x) => print_right_shift_expression(x, f),
        operators::BinaryExpression::RightShiftSigned(x) => print_right_shift_signed_expression(x, f),
        operators::BinaryExpression::Divide(x) => print_divide_expression(x, f),
        operators::BinaryExpression::Multiply(x) => print_multiply_expression(x, f),
        operators::BinaryExpression::Modulus(x) => print_modulus_expression(x, f),
        operators::BinaryExpression::BitAnd(x) => print_bit_and_expression(x, f),
        operators::BinaryExpression::BitOr(x) => print_bit_or_expression(x, f),
        operators::BinaryExpression::BitXor(x) => print_bit_xor_expression(x, f),
        operators::BinaryExpression::Power(x) => print_power_expression(x, f),
        operators::BinaryExpression::Equal(x) => print_equal_expression(x, f),
        operators::BinaryExpression::StrictEqual(x) => print_strict_equal_expression(x, f),
        operators::BinaryExpression::NotEqual(x) => print_not_equal_expression(x, f),
        operators::BinaryExpression::StrictNotEqual(x) => print_strict_not_equal_expression(x, f),
        operators::BinaryExpression::LessThan(x) => print_less_than_expression(x, f),
        operators::BinaryExpression::LessThanEqual(x) => print_less_than_equal_expression(x, f),
        operators::BinaryExpression::GreatherThan(x) => print_greather_than_expression(x, f),
        operators::BinaryExpression::GreaterThanEqual(x) => print_greater_than_equal_expression(x, f),
        operators::BinaryExpression::In(x) => print_in_expression(x, f),
        operators::BinaryExpression::Instanceof(x) => print_instanceof_expression(x, f),
        operators::BinaryExpression::And(x) => print_and_expression(x, f),
        operators::BinaryExpression::Or(x) => print_or_expression(x, f),
        operators::BinaryExpression::Bind(x) => print_bind_expression(x, f),
    }
}

/// The formatter after `e` is printed at assignment precedence.
pub open spec fn assignment_operand_printed(e: alias::Expression, f: FormatterView) -> FormatterView
    decreases e, 1nat,
{
    expression_printed(e, FormatterView { prec: Precedence::Assignment, ..f }).released(
        LockRelease::Precedence(f.prec),
    )
}

fn print_assignment_operand(e: &alias::Expression, f: &mut NodeFormatter)
    ensures
        final(f)@ == assignment_operand_printed(*e, old(f)@),
    decreases e, 1nat,
{
    let lock = f.require_precedence(Precedence::Assignment);
    print_expression(e, f);
    f.release(lock);
}

/// The formatter after `items` are printed, each at assignment precedence,
/// with commas between them.
pub open spec fn arguments_printed(items: Seq<alias::Expression>, f: FormatterView) -> FormatterView
    decreases items, 0nat,
{
    if items.len() == 0 {
        f
    } else if items.len() == 1 {
        assignment_operand_printed(items[0], f)
    } else {
        assignment_operand_printed(items.last(), arguments_printed(items.drop_last(), f).with_punctuator(Punctuator::Comma))
    }
}

#[verifier::rlimit(80)]
#[verifier::spinoff_prover]
fn print_arguments(items: &Vec<alias::Expression>, f: &mut NodeFormatter)
    ensures
        final(f)@ == arguments_printed(items@, old(f)@),
    decreases items, 0nat,
{
    let ghost start = f@;
    let mut i: usize = 0;
    while i < items.len()
        invariant
            i <= items@.len(),
            f@ == arguments_printed(items@.take(i as int), start),
        decreases items@.len() - i,
    {
        if i > 0 {
            f.punctuator(Punctuator::Comma);
        }
        print_assignment_operand(&items[i], f);
        proof {
            assert(items@.take(i + 1).drop_last() =~= items@.take(i as int));
            assert(items@.take(i + 1)[0] == items@[0]);
        }
        i = i + 1;
    }
    proof {
        assert(items@.take(items@.len() as int) =~= items@);
    }
}

pub open spec fn call_arguments_printed(n: expression::CallArguments, f: FormatterView) -> FormatterView
    decreases n, 0nat,
{
    let (f, lock) = f.parens_opened(true);
    let f = arguments_printed(n.args@, f);
    let f = match n.spread {
        Some(s) => {
            let f = if n.args@.len() > 0 {
                f.with_punctuator(Punctuator::Comma)
            } else {
                f
            };
            assignment_operand_printed(*s, f.with_punctuator(Punctuator::Ellipsis))
        },
        None => f,
    };
    f.released(lock)
}

pub fn print_call_arguments(n: &expression::CallArguments, f: &mut NodeFormatter)
    ensures
        final(f)@ == call_arguments_printed(*n, old(f)@),
    decreases n, 0nat,
{
    let lock = f.wrap_parens();
    print_arguments(&n.args, f);
    match &n.spread {
        Some(s) => {
            if n.args.len() > 0 {
                f.punctuator(Punctuator::Comma);
            }
            f.punctuator(Punctuator::Ellipsis);
            print_assignment_operand(s, f);
        },
        None => {},
    }
    f.release(lock);
}

/// The formatter after the parts of a template are printed, each followed by
/// its substitution, where `in` may stand.
pub open spec fn template_parts_printed(parts: Seq<(expression::TemplatePart, alias::Expression)>, f: FormatterView) -> FormatterView
    decreases parts, 0nat,
{
    if parts.len() == 0 {
        f
    } else {
        let f = template_parts_printed(parts.drop_last(), f);
        let f = parts.last().0.printed(f).with_punctuator(Punctuator::TemplateClose);
        let lock = LockRelease::InOperator(f.in_operator);
        let f = expression_printed(parts.last().1, FormatterView { in_operator: true, ..f }).released(lock);
        f.with_punctuator(Punctuator::TemplateOpen)
    }
}

fn print_template_parts(parts: &Vec<(expression::TemplatePart, alias::Expression)>, f: &mut NodeFormatter)
    ensures
        final(f)@ == template_parts_printed(parts@, old(f)@),
    decreases parts, 0nat,
{
    let ghost start = f@;
    let mut i: usize = 0;
    while i < parts.len()
        invariant
            i <= parts@.len(),
            f@ == template_parts_printed(parts@.take(i as int), start),
        decreases parts@.len() - i,
    {
        let _ = f.node(&parts[i].0);
        f.punctuator(Punctuator::TemplateClose);
        let lock = f.allow_in();
        print_expression(&parts[i].1, f);
        f.release(lock);
        f.punctuator(Punctuator::TemplateOpen);
        proof {
            assert(parts@.take(i + 1).drop_last() =~= parts@.take(i as int));
            assert(parts@.take(i + 1).last() == parts@[i as int]);
        }
        i = i + 1;
    }
    proof {
        assert(parts@.take(parts@.len() as int) =~= parts@);
    }
}

/// What a member expression may start with: `let`, or `let[` where its
/// property is computed.
pub open spec fn member_sequence(n: expression::MemberExpression) -> LookaheadSequence {
    match *n.object {
        alias::Expression::Binding(b) => if b.value@ == seq!['l', 'e', 't'] {
            match n.property {
                expression::PropertyAccess::Computed(_) => LookaheadSequence::LetSquare,
                _ => LookaheadSequence::Let,
            }
        } else {
            LookaheadSequence::Plain
        },
        _ => LookaheadSequence::Plain,
    }
}

fn is_let(s: &str) -> (r: bool)
    ensures
        r == (s@ == seq!['l', 'e', 't']),
{
    if s.unicode_len() != 3 {
        return false;
    }
    let r = s.get_char(0) == 'l' && s.get_char(1) == 'e' && s.get_char(2) == 't';
    proof {
        if r {
            assert(s@ =~= seq!['l', 'e', 't']);
        }
    }
    r
}

/// What the member expression `n` may start with.
pub fn get_sequence(n: &expression::MemberExpression) -> (s: LookaheadSequence)
    ensures
        s == member_sequence(*n),
{
    match &*n.object {
        alias::Expression::Binding(b) => {
            if is_let(b.value.as_str()) {
                match &n.property {
                    expression::PropertyAccess::Computed(_) => LookaheadSequence::LetSquare,
                    _ => LookaheadSequence::Let,
                }
            } else {
                LookaheadSequence::Plain
            }
        },
        _ => LookaheadSequence::Plain,
    }
}

pub open spec fn template_literal_printed(n: expression::TemplateLiteral, f: FormatterView) -> FormatterView
    decreases n, 0nat,
{
    let f = template_parts_printed(n.parts@, f.with_punctuator(Punctuator::TemplateTick));
    n.last_part.printed(f).with_punctuator(Punctuator::TemplateTick)
}

pub fn print_template_literal(n: &expression::TemplateLiteral, f: &mut NodeFormatter)
    ensures
        final(f)@ == template_literal_printed(*n, old(f)@),
    decreases n, 0nat,
{
    f.punctuator(Punctuator::TemplateTick);
    print_template_parts(&n.parts, f);
    let _ = f.node(&n.last_part);
    f.punctuator(Punctuator::TemplateTick);
}

pub open spec fn tagged_template_literal_printed(n: expression::TaggedTemplateLiteral, f: FormatterView) -> FormatterView
    decreases n, 0nat,
{
    let lock = LockRelease::Precedence(f.prec);
    let f = expression_printed(*n.tag, FormatterView { prec: Precedence::Member, ..f }).released(lock);
    template_literal_printed(n.template, f)
}

pub fn print_tagged_template_literal(n: &expression::TaggedTemplateLiteral, f: &mut NodeFormatter)
    ensures
        final(f)@ == tagged_template_literal_printed(*n, old(f)@),
    decreases n, 0nat,
{
    let lock = f.require_precedence(Precedence::Member);
    print_expression(&n.tag, f);
    f.release(lock);
    print_template_literal(&n.template, f);
}

pub open spec fn call_expression_printed(n: expression::CallExpression, f: FormatterView) -> FormatterView
    decreases n, 0nat,
{
    let lock = LockRelease::Precedence(f.prec);
    let f = expression_printed(*n.callee, FormatterView { prec: Precedence::New, ..f }).released(lock);
    call_arguments_printed(n.arguments, f)
}

pub fn print_call_expression(n: &expression::CallExpression, f: &mut NodeFormatter)
    ensures
        final(f)@ == call_expression_printed(*n, old(f)@),
    decreases n, 0nat,
{
    let lock = f.require_precedence(Precedence::New);
    print_expression(&n.callee, f);
    f.release(lock);
    print_call_arguments(&n.arguments, f);
}

pub open spec fn optional_call_expression_printed(n: expression::OptionalCallExpression, f: FormatterView) -> FormatterView
    decreases n, 0nat,
{
    let lock = LockRelease::Precedence(f.prec);
    let f = expression_printed(*n.callee, FormatterView { prec: Precedence::New, ..f }).released(lock);
    call_arguments_printed(n.arguments, f.with_punctuator(Punctuator::QuestionPeriod))
}

pub fn print_optional_call_expression(n: &expression::OptionalCallExpression, f: &mut NodeFormatter)
    ensures
        final(f)@ == optional_call_expression_printed(*n, old(f)@),
    decreases n, 0nat,
{
    let lock = f.require_precedence(Precedence::New);
    print_expression(&n.callee, f);
    f.release(lock);
    f.punctuator(Punctuator::QuestionPeriod);
    print_call_arguments(&n.arguments, f);
}

pub open spec fn normal_new_expression_printed(n: expression::NormalNewExpression, f: FormatterView) -> FormatterView
    decreases n, 0nat,
{
    let (f, outer) = f.parens_opened(Precedence::Member.level() < f.prec.level());
    let f = f.with_keyword(Keyword::New);
    let lock = LockRelease::Precedence(f.prec);
    let f = expression_printed(*n.callee, FormatterView { prec: Precedence::Member, ..f }).released(lock);
    call_arguments_printed(n.arguments, f).released(outer)
}

pub fn print_normal_new_expression(n: &expression::NormalNewExpression, f: &mut NodeFormatter)
    ensures
        final(f)@ == normal_new_expression_printed(*n, old(f)@),
    decreases n, 0nat,
{
    let outer = f.precedence(Precedence::Member);
    f.keyword(Keyword::New);
    let lock = f.require_precedence(Precedence::Member);
    print_expression(&n.callee, f);
    f.release(lock);
    print_call_arguments(&n.arguments, f);
    f.release(outer);
}

pub open spec fn empty_new_expression_printed(n: expression::EmptyNewExpression, f: FormatterView) -> FormatterView
    decreases n, 0nat,
{
    let (f, outer) = f.parens_opened(Precedence::New.level() < f.prec.level());
    let f = f.with_keyword(Keyword::New);
    let lock = LockRelease::Precedence(f.prec);
    let f = expression_printed(*n.callee, FormatterView { prec: Precedence::New, ..f }).released(lock);
    f.released(outer)
}

pub fn print_empty_new_expression(n: &expression::EmptyNewExpression, f: &mut NodeFormatter)
    ensures
        final(f)@ == empty_new_expression_printed(*n, old(f)@),
    decreases n, 0nat,
{
    let outer = f.precedence(Precedence::New);
    f.keyword(Keyword::New);
    let lock = f.require_precedence(Precedence::New);
    print_expression(&n.callee, f);
    f.release(lock);
    f.release(outer);
}

pub open spec fn import_call_expression_printed(n: expression::ImportCallExpression, f: FormatterView) -> FormatterView
    decreases n, 0nat,
{
    let (f, parens) = f.with_keyword(Keyword::Import).parens_opened(true);
    let lock = LockRelease::Precedence(f.prec);
    let f = expression_printed(*n.argument, FormatterView { prec: Precedence::Assignment, ..f }).released(lock);
    f.released(parens)
}

pub fn print_import_call_expression(n: &expression::ImportCallExpression, f: &mut NodeFormatter)
    ensures
        final(f)@ == import_call_expression_printed(*n, old(f)@),
    decreases n, 0nat,
{
    f.keyword(Keyword::Import);
    let parens = f.wrap_parens();
    let lock = f.require_precedence(Precedence::Assignment);
    print_expression(&n.argument, f);
    f.release(lock);
    f.release(parens);
}

pub open spec fn super_call_expression_printed(n: expression::SuperCallExpression, f: FormatterView) -> FormatterView
    decreases n, 0nat,
{
    call_arguments_printed(n.arguments, f.with_keyword(Keyword::Super))
}

pub fn print_super_call_expression(n: &expression::SuperCallExpression, f: &mut NodeFormatter)
    ensures
        final(f)@ == super_call_expression_printed(*n, old(f)@),
    decreases n, 0nat,
{
    f.keyword(Keyword::Super);
    print_call_arguments(&n.arguments, f);
}

pub open spec fn computed_property_access_printed(n: expression::ComputedPropertyAccess, f: FormatterView) -> FormatterView
    decreases n, 0nat,
{
    let (f, square) = f.square_opened();
    let lock = LockRelease::Precedence(f.prec);
    let f = expression_printed(*n.expression, FormatterView { prec: Precedence::Assignment, ..f }).released(lock);
    f.released(square)
}

pub fn print_computed_property_access(n: &expression::ComputedPropertyAccess, f: &mut NodeFormatter)
    ensures
        final(f)@ == computed_property_access_printed(*n, old(f)@),
    decreases n, 0nat,
{
    let square = f.wrap_square();
    let lock = f.require_precedence(Precedence::Assignment);
    print_expression(&n.expression, f);
    f.release(lock);
    f.release(square);
}

pub open spec fn optional_computed_property_access_printed(n: expression::OptionalComputedPropertyAccess, f: FormatterView) -> FormatterView
    decreases n, 0nat,
{
    let (f, square) = f.with_punctuator(Punctuator::QuestionPeriod).square_opened();
    let lock = LockRelease::Precedence(f.prec);
    let f = expression_printed(*n.expression, FormatterView { prec: Precedence::Assignment, ..f }).released(lock);
    f.released(square)
}

pub fn print_optional_computed_property_access(n: &expression::OptionalComputedPropertyAccess, f: &mut NodeFormatter)
    ensures
        final(f)@ == optional_computed_property_access_printed(*n, old(f)@),
    decreases n, 0nat,
{
    f.punctuator(Punctuator::QuestionPeriod);
    let square = f.wrap_square();
    let lock = f.require_precedence(Precedence::Assignment);
    print_expression(&n.expression, f);
    f.release(lock);
    f.release(square);
}

pub open spec fn property_access_printed(n: expression::PropertyAccess, f: FormatterView) -> FormatterView
    decreases n, 0nat,
{
    match n {
        expression::PropertyAccess::Identifier(x) => x.printed(f),
        expression::PropertyAccess::Computed(x) => computed_property_access_printed(x, f),
        expression::PropertyAccess::Private(x) => x.printed(f),
    }
}

pub fn print_property_access(n: &expression::PropertyAccess, f: &mut NodeFormatter)
    ensures
        final(f)@ == property_access_printed(*n, old(f)@),
    decreases n, 0nat,
{
    match n {
        expression::PropertyAccess::Identifier(x) => {
            let _ = f.node(x);
        },
        expression::PropertyAccess::Computed(x) => print_computed_property_access(x, f),
        expression::PropertyAccess::Private(x) => {
            let _ = f.node(x);
        },
    }
}

pub open spec fn optional_property_access_printed(n: expression::OptionalPropertyAccess, f: FormatterView) -> FormatterView
    decreases n, 0nat,
{
    match n {
        expression::OptionalPropertyAccess::Identifier(x) => x.printed(f),
        expression::OptionalPropertyAccess::Computed(x) => optional_computed_property_access_printed(x, f),
        expression::OptionalPropertyAccess::Private(x) => x.printed(f),
    }
}

pub fn print_optional_property_access(n: &expression::OptionalPropertyAccess, f: &mut NodeFormatter)
    ensures
        final(f)@ == optional_property_access_printed(*n, old(f)@),
    decreases n, 0nat,
{
    match n {
        expression::OptionalPropertyAccess::Identifier(x) => {
            let _ = f.node(x);
        },
        expression::OptionalPropertyAccess::Computed(x) => print_optional_computed_property_access(x, f),
        expression::OptionalPropertyAccess::Private(x) => {
            let _ = f.node(x);
        },
    }
}

pub open spec fn new_expression_printed(n: expression::NewExpression, f: FormatterView) -> FormatterView
    decreases n, 0nat,
{
    match n {
        expression::NewExpression::Normal(x) => normal_new_expression_printed(x, f),
        expression::NewExpression::Empty(x) => empty_new_expression_printed(x, f),
    }
}

pub fn print_new_expression(n: &expression::NewExpression, f: &mut NodeFormatter)
    ensures
        final(f)@ == new_expression_printed(*n, old(f)@),
    decreases n, 0nat,
{
    match n {
        expression::NewExpression::Normal(x) => print_normal_new_expression(x, f),
        expression::NewExpression::Empty(x) => print_empty_new_expression(x, f),
    }
}

pub open spec fn member_expression_printed(n: expression::MemberExpression, f: FormatterView) -> FormatterView
    decreases n, 0nat,
{
    let (f, outer) = f.parens_opened(lookahead_forbids(f.lookahead_restriction, member_sequence(n)));
    let lock = LockRelease::Precedence(f.prec);
    let f = expression_printed(*n.object, FormatterView { prec: Precedence::Member, ..f }).released(lock);
    property_access_printed(n.property, f).released(outer)
}

pub fn print_member_expression(n: &expression::MemberExpression, f: &mut NodeFormatter)
    ensures
        final(f)@ == member_expression_printed(*n, old(f)@),
    decreases n, 0nat,
{
    let outer = f.lookahead_wrap_parens(get_sequence(n));
    let lock = f.require_precedence(Precedence::Member);
    print_expression(&n.object, f);
    f.release(lock);
    print_property_access(&n.property, f);
    f.release(outer);
}

pub open spec fn optional_member_expression_printed(n: expression::OptionalMemberExpression, f: FormatterView) -> FormatterView
    decreases n, 0nat,
{
    let lock = LockRelease::Precedence(f.prec);
    let f = expression_printed(*n.object, FormatterView { prec: Precedence::Member, ..f }).released(lock);
    optional_property_access_printed(n.property, f.with_punctuator(Punctuator::Question))
}

pub fn print_optional_member_expression(n: &expression::OptionalMemberExpression, f: &mut NodeFormatter)
    ensures
        final(f)@ == optional_member_expression_printed(*n, old(f)@),
    decreases n, 0nat,
{
    let lock = f.require_precedence(Precedence::Member);
    print_expression(&n.object, f);
    f.release(lock);
    f.punctuator(Punctuator::Question);
    print_optional_property_access(&n.property, f);
}

pub open spec fn super_member_expression_printed(n: expression::SuperMemberExpression, f: FormatterView) -> FormatterView
    decreases n, 0nat,
{
    property_access_printed(n.property, f.with_keyword(Keyword::Super))
}

pub fn print_super_member_expression(n: &expression::SuperMemberExpression, f: &mut NodeFormatter)
    ensures
        final(f)@ == super_member_expression_printed(*n, old(f)@),
    decreases n, 0nat,
{
    f.keyword(Keyword::Super);
    print_property_access(&n.property, f);
}

pub open spec fn add_assign_expression_printed(n: operators::AddAssignExpression, f: FormatterView) -> FormatterView
    decreases n, 0nat,
{
    let lock = LockRelease::Precedence(f.prec);
    let f = (*n.left).printed(FormatterView { prec: Precedence::LeftHand, ..f }).released(lock);
    let f = f.with_punctuator(Punctuator::Plus).with_punctuator(Punctuator::Eq);
    let lock = LockRelease::Precedence(f.prec);
    expression_printed(*n.right, FormatterView { prec: Precedence::Assignment, ..f }).released(lock)
}

pub fn print_add_assign_expression(n: &operators::AddAssignExpression, f: &mut NodeFormatter)
    ensures
        final(f)@ == add_assign_expression_printed(*n, old(f)@),
    decreases n, 0nat,
{
    let lock = f.require_precedence(Precedence::LeftHand);
    let _ = f.node(&*n.left);
    f.release(lock);
    f.punctuator(Punctuator::Plus);
    f.punctuator(Punctuator::Eq);
    let lock = f.require_precedence(Precedence::Assignment);
    print_expression(&n.right, f);
    f.release(lock);
}

pub open spec fn subtract_assign_expression_printed(n: operators::SubtractAssignExpression, f: FormatterView) -> FormatterView
    decreases n, 0nat,
{
    let lock = LockRelease::Precedence(f.prec);
    let f = (*n.left).printed(FormatterView { prec: Precedence::LeftHand, ..f }).released(lock);
    let f = f.with_punctuator(Punctuator::Subtract).with_punctuator(Punctuator::Eq);
    let lock = LockRelease::Precedence(f.prec);
    expression_printed(*n.right, FormatterView { prec: Precedence::Assignment, ..f }).released(lock)
}

pub fn print_subtract_assign_expression(n: &operators::SubtractAssignExpression, f: &mut NodeFormatter)
    ensures
        final(f)@ == subtract_assign_expression_printed(*n, old(f)@),
    decreases n, 0nat,
{
    let lock = f.require_precedence(Precedence::LeftHand);
    let _ = f.node(&*n.left);
    f.release(lock);
    f.punctuator(Punctuator::Subtract);
    f.punctuator(Punctuator::Eq);
    let lock = f.require_precedence(Precedence::Assignment);
    print_expression(&n.right, f);
    f.release(lock);
}

pub open spec fn left_shift_assign_expression_printed(n: operators::LeftShiftAssignExpression, f: FormatterView) -> FormatterView
    decreases n, 0nat,
{
    let lock = LockRelease::Precedence(f.prec);
    let f = (*n.left).printed(FormatterView { prec: Precedence::LeftHand, ..f }).released(lock);
    let f = f.with_punctuator(Punctuator::LAngleAngle).with_punctuator(Punctuator::Eq);
    let lock = LockRelease::Precedence(f.prec);
    expression_printed(*n.right, FormatterView { prec: Precedence::Assignment, ..f }).released(lock)
}

pub fn print_left_shift_assign_expression(n: &operators::LeftShiftAssignExpression, f: &mut NodeFormatter)
    ensures
        final(f)@ == left_shift_assign_expression_printed(*n, old(f)@),
    decreases n, 0nat,
{
    let lock = f.require_precedence(Precedence::LeftHand);
    let _ = f.node(&*n.left);
    f.release(lock);
    f.punctuator(Punctuator::LAngleAngle);
    f.punctuator(Punctuator::Eq);
    let lock = f.require_precedence(Precedence::Assignment);
    print_expression(&n.right, f);
    f.release(lock);
}

pub open spec fn right_shift_assign_expression_printed(n: operators::RightShiftAssignExpression, f: FormatterView) -> FormatterView
    decreases n, 0nat,
{
    let lock = LockRelease::Precedence(f.prec);
    let f = (*n.left).printed(FormatterView { prec: Precedence::LeftHand, ..f }).released(lock);
    let f = f.with_punctuator(Punctuator::RAngleAngle).with_punctuator(Punctuator::Eq);
    let lock = LockRelease::Precedence(f.prec);
    expression_printed(*n.right, FormatterView { prec: Precedence::Assignment, ..f }).released(lock)
}

pub fn print_right_shift_assign_expression(n: &operators::RightShiftAssignExpression, f: &mut NodeFormatter)
    ensures
        final(f)@ == right_shift_assign_expression_printed(*n, old(f)@),
    decreases n, 0nat,
{
    let lock = f.require_precedence(Precedence::LeftHand);
    let _ = f.node(&*n.left);
    f.release(lock);
    f.punctuator(Punctuator::RAngleAngle);
    f.punctuator(Punctuator::Eq);
    let lock = f.require_precedence(Precedence::Assignment);
    print_expression(&n.right, f);
    f.release(lock);
}

pub open spec fn right_shift_signed_assign_expression_printed(n: operators::RightShiftSignedAssignExpression, f: FormatterView) -> FormatterView
    decreases n, 0nat,
{
    let lock = LockRelease::Precedence(f.prec);
    let f = (*n.left).printed(FormatterView { prec: Precedence::LeftHand, ..f }).released(lock);
    let f = f.with_punctuator(Punctuator::RAngleAngleAngle).with_punctuator(Punctuator::Eq);
    let lock = LockRelease::Precedence(f.prec);
    expression_printed(*n.right, FormatterView { prec: Precedence::Assignment, ..f }).released(lock)
}

pub fn print_right_shift_signed_assign_expression(n: &operators::RightShiftSignedAssignExpression, f: &mut NodeFormatter)
    ensures
        final(f)@ == right_shift_signed_assign_expression_printed(*n, old(f)@),
    decreases n, 0nat,
{
    let lock = f.require_precedence(Precedence::LeftHand);
    let _ = f.node(&*n.left);
    f.release(lock);
    f.punctuator(Punctuator::RAngleAngleAngle);
    f.punctuator(Punctuator::Eq);
    let lock = f.require_precedence(Precedence::Assignment);
    print_expression(&n.right, f);
    f.release(lock);
}

pub open spec fn divide_assign_expression_printed(n: operators::DivideAssignExpression, f: FormatterView) -> FormatterView
    decreases n, 0nat,
{
    let lock = LockRelease::Precedence(f.prec);
    let f = (*n.left).printed(FormatterView { prec: Precedence::LeftHand, ..f }).released(lock);
    let f = f.with_punctuator(Punctuator::Slash).with_punctuator(Punctuator::Eq);
    let lock = LockRelease::Precedence(f.prec);
    expression_printed(*n.right, FormatterView { prec: Precedence::Assignment, ..f }).released(lock)
}

pub fn print_divide_assign_expression(n: &operators::DivideAssignExpression, f: &mut NodeFormatter)
    ensures
        final(f)@ == divide_assign_expression_printed(*n, old(f)@),
    decreases n, 0nat,
{
    let lock = f.require_precedence(Precedence::LeftHand);
    let _ = f.node(&*n.left);
    f.release(lock);
    f.punctuator(Punctuator::Slash);
    f.punctuator(Punctuator::Eq);
    let lock = f.require_precedence(Precedence::Assignment);
    print_expression(&n.right, f);
    f.release(lock);
}

pub open spec fn multiple_assign_expression_printed(n: operators::MultipleAssignExpression, f: FormatterView) -> FormatterView
    decreases n, 0nat,
{
    let lock = LockRelease::Precedence(f.prec);
    let f = (*n.left).printed(FormatterView { prec: Precedence::LeftHand, ..f }).released(lock);
    let f = f.with_punctuator(Punctuator::Star).with_punctuator(Punctuator::Eq);
    let lock = LockRelease::Precedence(f.prec);
    expression_printed(*n.right, FormatterView { prec: Precedence::Assignment, ..f }).released(lock)
}

pub fn print_multiple_assign_expression(n: &operators::MultipleAssignExpression, f: &mut NodeFormatter)
    ensures
        final(f)@ == multiple_assign_expression_printed(*n, old(f)@),
    decreases n, 0nat,
{
    let lock = f.require_precedence(Precedence::LeftHand);
    let _ = f.node(&*n.left);
    f.release(lock);
    f.punctuator(Punctuator::Star);
    f.punctuator(Punctuator::Eq);
    let lock = f.require_precedence(Precedence::Assignment);
    print_expression(&n.right, f);
    f.release(lock);
}

pub open spec fn modulus_assign_expression_printed(n: operators::ModulusAssignExpression, f: FormatterView) -> FormatterView
    decreases n, 0nat,
{
    let lock = LockRelease::Precedence(f.prec);
    let f = (*n.left).printed(FormatterView { prec: Precedence::LeftHand, ..f }).released(lock);
    let f = f.with_punctuator(Punctuator::Mod).with_punctuator(Punctuator::Eq);
    let lock = LockRelease::Precedence(f.prec);
    expression_printed(*n.right, FormatterView { prec: Precedence::Assignment, ..f }).released(lock)
}

pub fn print_modulus_assign_expression(n: &operators::ModulusAssignExpression, f: &mut NodeFormatter)
    ensures
        final(f)@ == modulus_assign_expression_printed(*n, old(f)@),
    decreases n, 0nat,
{
    let lock = f.require_precedence(Precedence::LeftHand);
    let _ = f.node(&*n.left);
    f.release(lock);
    f.punctuator(Punctuator::Mod);
    f.punctuator(Punctuator::Eq);
    let lock = f.require_precedence(Precedence::Assignment);
    print_expression(&n.right, f);
    f.release(lock);
}

pub open spec fn bit_and_assign_expression_printed(n: operators::BitAndAssignExpression, f: FormatterView) -> FormatterView
    decreases n, 0nat,
{
    let lock = LockRelease::Precedence(f.prec);
    let f = (*n.left).printed(FormatterView { prec: Precedence::LeftHand, ..f }).released(lock);
    let f = f.with_punctuator(Punctuator::Amp).with_punctuator(Punctuator::Eq);
    let lock = LockRelease::Precedence(f.prec);
    expression_printed(*n.right, FormatterView { prec: Precedence::Assignment, ..f }).released(lock)
}

pub fn print_bit_and_assign_expression(n: &operators::BitAndAssignExpression, f: &mut NodeFormatter)
    ensures
        final(f)@ == bit_and_assign_expression_printed(*n, old(f)@),
    decreases n, 0nat,
{
    let lock = f.require_precedence(Precedence::LeftHand);
    let _ = f.node(&*n.left);
    f.release(lock);
    f.punctuator(Punctuator::Amp);
    f.punctuator(Punctuator::Eq);
    let lock = f.require_precedence(Precedence::Assignment);
    print_expression(&n.right, f);
    f.release(lock);
}

pub open spec fn bit_or_assign_expression_printed(n: operators::BitOrAssignExpression, f: FormatterView) -> FormatterView
    decreases n, 0nat,
{
    let lock = LockRelease::Precedence(f.prec);
    let f = (*n.left).printed(FormatterView { prec: Precedence::LeftHand, ..f }).released(lock);
    let f = f.with_punctuator(Punctuator::Bar).with_punctuator(Punctuator::Eq);
    let lock = LockRelease::Precedence(f.prec);
    expression_printed(*n.right, FormatterView { prec: Precedence::Assignment, ..f }).released(lock)
}

pub fn print_bit_or_assign_expression(n: &operators::BitOrAssignExpression, f: &mut NodeFormatter)
    ensures
        final(f)@ == bit_or_assign_expression_printed(*n, old(f)@),
    decreases n, 0nat,
{
    let lock = f.require_precedence(Precedence::LeftHand);
    let _ = f.node(&*n.left);
    f.release(lock);
    f.punctuator(Punctuator::Bar);
    f.punctuator(Punctuator::Eq);
    let lock = f.require_precedence(Precedence::Assignment);
    print_expression(&n.right, f);
    f.release(lock);
}

pub open spec fn bit_xor_assign_expression_printed(n: operators::BitXorAssignExpression, f: FormatterView) -> FormatterView
    decreases n, 0nat,
{
    let lock = LockRelease::Precedence(f.prec);
    let f = (*n.left).printed(FormatterView { prec: Precedence::LeftHand, ..f }).released(lock);
    let f = f.with_punctuator(Punctuator::Caret).with_punctuator(Punctuator::Eq);
    let lock = LockRelease::Precedence(f.prec);
    expression_printed(*n.right, FormatterView { prec: Precedence::Assignment, ..f }).released(lock)
}

pub fn print_bit_xor_assign_expression(n: &operators::BitXorAssignExpression, f: &mut NodeFormatter)
    ensures
        final(f)@ == bit_xor_assign_expression_printed(*n, old(f)@),
    decreases n, 0nat,
{
    let lock = f.require_precedence(Precedence::LeftHand);
    let _ = f.node(&*n.left);
    f.release(lock);
    f.punctuator(Punctuator::Caret);
    f.punctuator(Punctuator::Eq);
    let lock = f.require_precedence(Precedence::Assignment);
    print_expression(&n.right, f);
    f.release(lock);
}

pub open spec fn power_assign_expression_printed(n: operators::PowerAssignExpression, f: FormatterView) -> FormatterView
    decreases n, 0nat,
{
    let lock = LockRelease::Precedence(f.prec);
    let f = (*n.left).printed(FormatterView { prec: Precedence::LeftHand, ..f }).released(lock);
    let f = f.with_punctuator(Punctuator::StarStar).with_punctuator(Punctuator::Eq);
    let lock = LockRelease::Precedence(f.prec);
    expression_printed(*n.right, FormatterView { prec: Precedence::Assignment, ..f }).released(lock)
}

pub fn print_power_assign_expression(n: &operators::PowerAssignExpression, f: &mut NodeFormatter)
    ensures
        final(f)@ == power_assign_expression_printed(*n, old(f)@),
    decreases n, 0nat,
{
    let lock = f.require_precedence(Precedence::LeftHand);
    let _ = f.node(&*n.left);
    f.release(lock);
    f.punctuator(Punctuator::StarStar);
    f.punctuator(Punctuator::Eq);
    let lock = f.require_precedence(Precedence::Assignment);
    print_expression(&n.right, f);
    f.release(lock);
}

pub open spec fn assignment_update_expression_printed(e: operators::AssignmentUpdateExpression, f: FormatterView) -> FormatterView
    decreases e, 0nat,
{
    match e {
        operators::AssignmentUpdateExpression::Add(x) => add_assign_expression_printed(x, f),
        operators::AssignmentUpdateExpression::Subtract(x) => subtract_assign_expression_printed(x, f),
        operators::AssignmentUpdateExpression::LeftShift(x) => left_shift_assign_expression_printed(x, f),
        operators::AssignmentUpdateExpression::RightShift(x) => right_shift_assign_expression_printed(x, f),
        operators::AssignmentUpdateExpression::RightShiftSigned(x) => right_shift_signed_assign_expression_printed(x, f),
        operators::AssignmentUpdateExpression::Divide(x) => divide_assign_expression_printed(x, f),
        operators::AssignmentUpdateExpression::Multiple(x) => multiple_assign_expression_printed(x, f),
        operators::AssignmentUpdateExpression::Modulus(x) => modulus_assign_expression_printed(x, f),
        operators::AssignmentUpdateExpression::BitAnd(x) => bit_and_assign_expression_printed(x, f),
        operators::AssignmentUpdateExpression::BitOr(x) => bit_or_assign_expression_printed(x, f),
        operators::AssignmentUpdateExpression::BitXor(x) => bit_xor_assign_expression_printed(x, f),
        operators::AssignmentUpdateExpression::Power(x) => power_assign_expression_printed(x, f),
    }
}

pub fn print_assignment_update_expression(e: &operators::AssignmentUpdateExpression, f: &mut NodeFormatter)
    ensures
        final(f)@ == assignment_update_expression_printed(*e, old(f)@),
    decreases e, 0nat,
{
    match e {
        operators::AssignmentUpdateExpression::Add(x) => print_add_assign_expression(x, f),
        operators::AssignmentUpdateExpression::Subtract(x) => print_subtract_assign_expression(x, f),
        operators::AssignmentUpdateExpression::LeftShift(x) => print_left_shift_assign_expression(x, f),
        operators::AssignmentUpdateExpression::RightShift(x) => print_right_shift_assign_expression(x, f),
        operators::AssignmentUpdateExpression::RightShiftSigned(x) => print_right_shift_signed_assign_expression(x, f),
        operators::AssignmentUpdateExpression::Divide(x) => print_divide_assign_expression(x, f),
        operators::AssignmentUpdateExpression::Multiple(x) => print_multiple_assign_expression(x, f),
        operators::AssignmentUpdateExpression::Modulus(x) => print_modulus_assign_expression(x, f),
        operators::AssignmentUpdateExpression::BitAnd(x) => print_bit_and_assign_expression(x, f),
        operators::AssignmentUpdateExpression::BitOr(x) => print_bit_or_assign_expression(x, f),
        operators::AssignmentUpdateExpression::BitXor(x) => print_bit_xor_assign_expression(x, f),
        operators::AssignmentUpdateExpression::Power(x) => print_power_assign_expression(x, f),
    }
}

} // verus!
