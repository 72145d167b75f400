//! Binding patterns (in declarations and parameters) and assignment
//! patterns (on the left of an assignment). Patterns nest, so each family's
//! printers stand together as functions that call each other.

use vstd::prelude::*;
use crate::ast::NodePosition;
use crate::ast::alias;
use crate::ast::general::{BindingIdentifier, ReferenceIdentifier, PropertyName};
use crate::ast::display::{
    NodeDisplay, NodeFormatter, NodeDisplayResult, FormatterView, Punctuator, Precedence,
    LockRelease,
};

verus! {

/// A pattern that binds names.
#[derive(Debug)]
pub enum BindingPattern {
    Identifier(BindingIdentifier),
    Object(ObjectBindingPattern),
    Array(ArrayBindingPattern),
}

/// `{ a, b: c, ...d }` as a binding.
#[derive(Debug)]
pub struct ObjectBindingPattern {
    pub properties: Vec<ObjectBindingPatternProperty>,
    pub last_property: Option<ObjectBindingPatternLastProperty>,
    pub position: Option<Box<NodePosition>>,
}

/// A property of an object binding pattern.
#[derive(Debug)]
pub enum ObjectBindingPatternProperty {
    Identifier(ObjectBindingPatternIdentifierProperty),
    Pattern(ObjectBindingPatternPatternProperty),
}

/// The last property of an object binding pattern, which may be a rest property.
#[derive(Debug)]
pub enum ObjectBindingPatternLastProperty {
    Identifier(ObjectBindingPatternIdentifierProperty),
    Pattern(ObjectBindingPatternPatternProperty),
    Rest(ObjectBindingPatternRestProperty),
}

/// `...name`
#[derive(Debug)]
pub struct ObjectBindingPatternRestProperty {
    pub pattern: BindingIdentifier,
    pub position: Option<Box<NodePosition>>,
}

impl NodeDisplay for ObjectBindingPatternRestProperty {
    open spec fn printed(&self, f: FormatterView) -> FormatterView {
        let f = f.with_punctuator(Punctuator::Ellipsis);
        let f = self.pattern.printed(f);
        f
    }

    fn fmt(&self, f: &mut NodeFormatter) -> (r: NodeDisplayResult) {
        f.punctuator(Punctuator::Ellipsis);
        let _ = f.node(&self.pattern);
        Ok(())
    }
}

/// `name` or `name = init`
#[derive(Debug)]
pub struct ObjectBindingPatternIdentifierProperty {
    pub id: BindingIdentifier,
    pub init: Option<Box<alias::Expression>>,
    pub position: Option<Box<NodePosition>>,
}

impl NodeDisplay for ObjectBindingPatternIdentifierProperty {
    open spec fn printed(&self, f: FormatterView) -> FormatterView {
        let f = self.id.printed(f);
        let f = match self.init {
            Some(x) => {
                let f = f.with_punctuator(Punctuator::Eq);
                let f = x.printed(f);
                f
            },
            None => f,
        };
        f
    }

    fn fmt(&self, f: &mut NodeFormatter) -> (r: NodeDisplayResult) {
        let _ = f.node(&self.id);
        match &self.init {
            Some(x) => {
                f.punctuator(Punctuator::Eq);
                let _ = f.node(x);
            },
            None => {},
        }
        Ok(())
    }
}

/// `name: pattern` or `name: pattern = init`
#[derive(Debug)]
pub struct ObjectBindingPatternPatternProperty {
    pub name: PropertyName,
    pub pattern: Box<BindingPattern>,
    pub init: Option<Box<alias::Expression>>,
    pub position: Option<Box<NodePosition>>,
}

/// `[ a, , b, ...c ]` as a binding; a missing item is a hole.
#[derive(Debug)]
pub struct ArrayBindingPattern {
    pub items: Vec<Option<ArrayBindingPatternElement>>,
    pub last_item: Option<ArrayBindingPatternLastElement>,
    pub position: Option<Box<NodePosition>>,
}

/// The last item of an array binding pattern, which may be a rest item.
#[derive(Debug)]
pub enum ArrayBindingPatternLastElement {
    Pattern(Box<ArrayBindingPatternElement>),
    Rest(ArrayBindingRestElement),
}

/// `...pattern`
#[derive(Debug)]
pub struct ArrayBindingRestElement {
    pub pattern: Box<BindingPattern>,
    pub position: Option<Box<NodePosition>>,
}

/// `pattern` or `pattern = init`
#[derive(Debug)]
pub struct ArrayBindingPatternElement {
    pub id: BindingPattern,
    pub init: Option<Box<alias::Expression>>,
    pub position: Option<Box<NodePosition>>,
}

pub open spec fn binding_printed(p: BindingPattern, f: FormatterView) -> FormatterView
    decreases p,
{
    match p {
        BindingPattern::Identifier(x) => x.printed(f),
        BindingPattern::Object(x) => object_binding_printed(x, f),
        BindingPattern::Array(x) => array_binding_printed(x, f),
    }
}

fn print_binding(p: &BindingPattern, f: &mut NodeFormatter)
    ensures
        final(f)@ == binding_printed(*p, old(f)@),
    decreases p,
{
    match p {
        BindingPattern::Identifier(x) => {
            let _ = f.node(x);
        },
        BindingPattern::Object(x) => {
            print_object_binding(x, f);
        },
        BindingPattern::Array(x) => {
            print_array_binding(x, f);
        },
    }
}

pub open spec fn object_binding_printed(p: ObjectBindingPattern, f: FormatterView) -> FormatterView
    decreases p,
{
    let (f, lock1) = f.curly_opened();
    let lock2 = LockRelease::Precedence(f.prec);
    let f = FormatterView { prec: Precedence::Assignment, ..f };
    let f = binding_properties_printed(p.properties@, f);
    let f = f.released(lock2);
    let f = match p.last_property {
        Some(x) => {
            let f = if p.properties@.len() > 0 {
                let f = f.with_punctuator(Punctuator::Comma);
                f
            } else {
                f
            };
            let f = binding_last_property_printed(x, f);
            f
        },
        None => f,
    };
    let f = f.released(lock1);
    f
}

#[verifier::rlimit(50)]
fn print_object_binding(p: &ObjectBindingPattern, f: &mut NodeFormatter)
    ensures
        final(f)@ == object_binding_printed(*p, old(f)@),
    decreases p,
{
    let lock1 = f.wrap_curly();
    let lock2 = f.require_precedence(Precedence::Assignment);
    print_binding_properties(&p.properties, f);
    f.release(lock2);
    match &p.last_property {
        Some(x) => {
            if p.properties.len() > 0 {
                f.punctuator(Punctuator::Comma);
            }
            print_binding_last_property(x, f);
        },
        None => {},
    }
    f.release(lock1);
}

pub open spec fn binding_properties_printed(items: Seq<ObjectBindingPatternProperty>, f: FormatterView) -> FormatterView
    decreases items,
{
    if items.len() == 0 {
        f
    } else if items.len() == 1 {
        binding_property_printed(items[0], f)
    } else {
        binding_property_printed(items.last(), binding_properties_printed(items.drop_last(), f).with_punctuator(Punctuator::Comma))
    }
}

#[verifier::rlimit(50)]
fn print_binding_properties(items: &Vec<ObjectBindingPatternProperty>, f: &mut NodeFormatter)
    ensures
        final(f)@ == binding_properties_printed(items@, old(f)@),
    decreases items,
{
    let ghost start = f@;
    let mut i: usize = 0;
    while i < items.len()
        invariant
            i <= items@.len(),
            f@ == binding_properties_printed(items@.take(i as int), start),
        decreases items@.len() - i,
    {
            if i > 0 {
                f.punctuator(Punctuator::Comma);
            }
            print_binding_property(&items[i], f);
            proof {
                assert(items@.take(i + 1).drop_last() =~= items@.take(i as int));
                assert(items@.take(i + 1)[0] == items@[0]);
            }
            i = i + 1;
    }
    proof {
        assert(items@.take(items@.len() as int) =~= items@);
    }
}

pub open spec fn binding_property_printed(p: ObjectBindingPatternProperty, f: FormatterView) -> FormatterView
    decreases p,
{
    match p {
        ObjectBindingPatternProperty::Identifier(x) => x.printed(f),
        ObjectBindingPatternProperty::Pattern(x) => binding_pattern_property_printed(x, f),
    }
}

fn print_binding_property(p: &ObjectBindingPatternProperty, f: &mut NodeFormatter)
    ensures
        final(f)@ == binding_property_printed(*p, old(f)@),
    decreases p,
{
    match p {
        ObjectBindingPatternProperty::Identifier(x) => {
            let _ = f.node(x);
        },
        ObjectBindingPatternProperty::Pattern(x) => {
            print_binding_pattern_property(x, f);
        },
    }
}

pub open spec fn binding_last_property_printed(p: ObjectBindingPatternLastProperty, f: FormatterView) -> FormatterView
    decreases p,
{
    match p {
        ObjectBindingPatternLastProperty::Identifier(x) => x.printed(f),
        ObjectBindingPatternLastProperty::Pattern(x) => binding_pattern_property_printed(x, f),
        ObjectBindingPatternLastProperty::Rest(x) => x.printed(f),
    }
}

fn print_binding_last_property(p: &ObjectBindingPatternLastProperty, f: &mut NodeFormatter)
    ensures
        final(f)@ == binding_last_property_printed(*p, old(f)@),
    decreases p,
{
    match p {
        ObjectBindingPatternLastProperty::Identifier(x) => {
            let _ = f.node(x);
        },
        ObjectBindingPatternLastProperty::Pattern(x) => {
            print_binding_pattern_property(x, f);
        },
        ObjectBindingPatternLastProperty::Rest(x) => {
            let _ = f.node(x);
        },
    }
}

pub open spec fn binding_pattern_property_printed(p: ObjectBindingPatternPatternProperty, f: FormatterView) -> FormatterView
    decreases p,
{
    let f = p.name.printed(f);
    let f = f.with_punctuator(Punctuator::Colon);
    let f = binding_printed(*p.pattern, f);
    let f = match p.init {
        Some(x) => {
            let f = f.with_punctuator(Punctuator::Eq);
            let f = x.printed(f);
            f
        },
        None => f,
    };
    f
}

fn print_binding_pattern_property(p: &ObjectBindingPatternPatternProperty, f: &mut NodeFormatter)
    ensures
        final(f)@ == binding_pattern_property_printed(*p, old(f)@),
    decreases p,
{
    let _ = f.node(&p.name);
    f.punctuator(Punctuator::Colon);
    print_binding(&p.pattern, f);
    match &p.init {
        Some(x) => {
            f.punctuator(Punctuator::Eq);
            let _ = f.node(x);
        },
        None => {},
    }
}

pub open spec fn array_binding_printed(p: ArrayBindingPattern, f: FormatterView) -> FormatterView
    decreases p,
{
    let (f, lock1) = f.square_opened();
    let lock2 = LockRelease::Precedence(f.prec);
    let f = FormatterView { prec: Precedence::Assignment, ..f };
    let f = binding_items_printed(p.items@, f);
    let f = f.released(lock2);
    let f = match p.last_item {
        Some(x) => {
            let f = if p.items@.len() > 0 {
                let f = f.with_punctuator(Punctuator::Comma);
                f
            } else {
                f
            };
            let f = binding_last_item_printed(x, f);
            f
        },
        None => f,
    };
    let f = f.released(lock1);
    f
}

#[verifier::rlimit(50)]
fn print_array_binding(p: &ArrayBindingPattern, f: &mut NodeFormatter)
    ensures
        final(f)@ == array_binding_printed(*p, old(f)@),
    decreases p,
{
    let lock1 = f.wrap_square();
    let lock2 = f.require_precedence(Precedence::Assignment);
    print_binding_items(&p.items, f);
    f.release(lock2);
    match &p.last_item {
        Some(x) => {
            if p.items.len() > 0 {
                f.punctuator(Punctuator::Comma);
            }
            print_binding_last_item(x, f);
        },
        None => {},
    }
    f.release(lock1);
}

pub open spec fn binding_items_printed(items: Seq<Option<ArrayBindingPatternElement>>, f: FormatterView) -> FormatterView
    decreases items,
{
    if items.len() == 0 {
        f
    } else if items.len() == 1 {
        binding_item_printed(items[0], f)
    } else {
        binding_item_printed(items.last(), binding_items_printed(items.drop_last(), f).with_punctuator(Punctuator::Comma))
    }
}

fn print_binding_items(items: &Vec<Option<ArrayBindingPatternElement>>, f: &mut NodeFormatter)
    ensures
        final(f)@ == binding_items_printed(items@, old(f)@),
    decreases items,
{
    let ghost start = f@;
    let mut i: usize = 0;
    while i < items.len()
        invariant
            i <= items@.len(),
            f@ == binding_items_printed(items@.take(i as int), start),
        decreases items@.len() - i,
    {
            if i > 0 {
                f.punctuator(Punctuator::Comma);
            }
            print_binding_item(&items[i], f);
            proof {
                assert(items@.take(i + 1).drop_last() =~= items@.take(i as int));
                assert(items@.take(i + 1)[0] == items@[0]);
            }
            i = i + 1;
    }
    proof {
        assert(items@.take(items@.len() as int) =~= items@);
    }
}

pub open spec fn binding_item_printed(o: Option<ArrayBindingPatternElement>, f: FormatterView) -> FormatterView
    decreases o,
{
    match o {
        Some(e) => binding_element_printed(e, f),
        None => f,
    }
}

fn print_binding_item(o: &Option<ArrayBindingPatternElement>, f: &mut NodeFormatter)
    ensures
        final(f)@ == binding_item_printed(*o, old(f)@),
    decreases o,
{
    match o {
        Some(e) => print_binding_element(e, f),
        None => {},
    }
}

pub open spec fn binding_element_printed(p: ArrayBindingPatternElement, f: FormatterView) -> FormatterView
    decreases p,
{
    let f = binding_printed(p.id, f);
    let f = match p.init {
        Some(x) => {
            let f = f.with_punctuator(Punctuator::Eq);
            let f = x.printed(f);
            f
        },
        None => f,
    };
    f
}

fn print_binding_element(p: &ArrayBindingPatternElement, f: &mut NodeFormatter)
    ensures
        final(f)@ == binding_element_printed(*p, old(f)@),
    decreases p,
{
    print_binding(&p.id, f);
    match &p.init {
        Some(x) => {
            f.punctuator(Punctuator::Eq);
            let _ = f.node(x);
        },
        None => {},
    }
}

pub open spec fn binding_last_item_printed(p: ArrayBindingPatternLastElement, f: FormatterView) -> FormatterView
    decreases p,
{
    match p {
        ArrayBindingPatternLastElement::Pattern(x) => binding_element_printed(*x, f),
        ArrayBindingPatternLastElement::Rest(x) => binding_rest_printed(x, f),
    }
}

fn print_binding_last_item(p: &ArrayBindingPatternLastElement, f: &mut NodeFormatter)
    ensures
        final(f)@ == binding_last_item_printed(*p, old(f)@),
    decreases p,
{
    match p {
        ArrayBindingPatternLastElement::Pattern(x) => {
            print_binding_element(x, f);
        },
        ArrayBindingPatternLastElement::Rest(x) => {
            print_binding_rest(x, f);
        },
    }
}

pub open spec fn binding_rest_printed(p: ArrayBindingRestElement, f: FormatterView) -> FormatterView
    decreases p,
{
    let f = f.with_punctuator(Punctuator::Ellipsis);
    let f = binding_printed(*p.pattern, f);
    f
}

fn print_binding_rest(p: &ArrayBindingRestElement, f: &mut NodeFormatter)
    ensures
        final(f)@ == binding_rest_printed(*p, old(f)@),
    decreases p,
{
    f.punctuator(Punctuator::Ellipsis);
    print_binding(&p.pattern, f);
}

impl NodeDisplay for BindingPattern {
    open spec fn printed(&self, f: FormatterView) -> FormatterView {
        binding_printed(*self, f)
    }

    fn fmt(&self, f: &mut NodeFormatter) -> (r: NodeDisplayResult) {
        print_binding(self, f);
        Ok(())
    }
}

impl NodeDisplay for ObjectBindingPattern {
    open spec fn printed(&self, f: FormatterView) -> FormatterView {
        object_binding_printed(*self, f)
    }

    fn fmt(&self, f: &mut NodeFormatter) -> (r: NodeDisplayResult) {
        print_object_binding(self, f);
        Ok(())
    }
}

impl NodeDisplay for ObjectBindingPatternProperty {
    open spec fn printed(&self, f: FormatterView) -> FormatterView {
        binding_property_printed(*self, f)
    }

    fn fmt(&self, f: &mut NodeFormatter) -> (r: NodeDisplayResult) {
        print_binding_property(self, f);
        Ok(())
    }
}

impl NodeDisplay for ObjectBindingPatternLastProperty {
    open spec fn printed(&self, f: FormatterView) -> FormatterView {
        binding_last_property_printed(*self, f)
    }

    fn fmt(&self, f: &mut NodeFormatter) -> (r: NodeDisplayResult) {
        print_binding_last_property(self, f);
        Ok(())
    }
}

impl NodeDisplay for ObjectBindingPatternPatternProperty {
    open spec fn printed(&self, f: FormatterView) -> FormatterView {
        binding_pattern_property_printed(*self, f)
    }

    fn fmt(&self, f: &mut NodeFormatter) -> (r: NodeDisplayResult) {
        print_binding_pattern_property(self, f);
        Ok(())
    }
}

impl NodeDisplay for ArrayBindingPattern {
    open spec fn printed(&self, f: FormatterView) -> FormatterView {
        array_binding_printed(*self, f)
    }

    fn fmt(&self, f: &mut NodeFormatter) -> (r: NodeDisplayResult) {
        print_array_binding(self, f);
        Ok(())
    }
}

impl NodeDisplay for ArrayBindingPatternLastElement {
    open spec fn printed(&self, f: FormatterView) -> FormatterView {
        binding_last_item_printed(*self, f)
    }

    fn fmt(&self, f: &mut NodeFormatter) -> (r: NodeDisplayResult) {
        print_binding_last_item(self, f);
        Ok(())
    }
}

impl NodeDisplay for ArrayBindingRestElement {
    open spec fn printed(&self, f: FormatterView) -> FormatterView {
        binding_rest_printed(*self, f)
    }

    fn fmt(&self, f: &mut NodeFormatter) -> (r: NodeDisplayResult) {
        print_binding_rest(self, f);
        Ok(())
    }
}

impl NodeDisplay for ArrayBindingPatternElement {
    open spec fn printed(&self, f: FormatterView) -> FormatterView {
        binding_element_printed(*self, f)
    }

    fn fmt(&self, f: &mut NodeFormatter) -> (r: NodeDisplayResult) {
        print_binding_element(self, f);
        Ok(())
    }
}

/// The target of an update or of a compound assignment.
#[derive(Debug)]
pub enum LeftHandSimpleAssign {
    Identifier(ReferenceIdentifier),
    Parenthesized(ParenthesizedAssignmentPattern),
}

/// `(target)`, which is a valid assignment target.
#[derive(Debug)]
pub struct ParenthesizedAssignmentPattern {
    pub pattern: Box<LeftHandSimpleAssign>,
    pub position: Option<Box<NodePosition>>,
}

pub open spec fn simple_assign_printed(p: LeftHandSimpleAssign, f: FormatterView) -> FormatterView
    decreases p,
{
    match p {
        LeftHandSimpleAssign::Identifier(x) => x.printed(f),
        LeftHandSimpleAssign::Parenthesized(x) => parenthesized_assign_printed(x, f),
    }
}

fn print_simple_assign(p: &LeftHandSimpleAssign, f: &mut NodeFormatter)
    ensures
        final(f)@ == simple_assign_printed(*p, old(f)@),
    decreases p,
{
    match p {
        LeftHandSimpleAssign::Identifier(x) => {
            let _ = f.node(x);
        },
        LeftHandSimpleAssign::Parenthesized(x) => {
            print_parenthesized_assign(x, f);
        },
    }
}

pub open spec fn parenthesized_assign_printed(p: ParenthesizedAssignmentPattern, f: FormatterView) -> FormatterView
    decreases p,
{
    let (f, lock1) = f.parens_opened(true);
    let f = simple_assign_printed(*p.pattern, f);
    let f = f.released(lock1);
    f
}

fn print_parenthesized_assign(p: &ParenthesizedAssignmentPattern, f: &mut NodeFormatter)
    ensures
        final(f)@ == parenthesized_assign_printed(*p, old(f)@),
    decreases p,
{
    let lock1 = f.wrap_parens();
    print_simple_assign(&p.pattern, f);
    f.release(lock1);
}

impl NodeDisplay for LeftHandSimpleAssign {
    open spec fn printed(&self, f: FormatterView) -> FormatterView {
        simple_assign_printed(*self, f)
    }

    fn fmt(&self, f: &mut NodeFormatter) -> (r: NodeDisplayResult) {
        print_simple_assign(self, f);
        Ok(())
    }
}

impl NodeDisplay for ParenthesizedAssignmentPattern {
    open spec fn printed(&self, f: FormatterView) -> FormatterView {
        parenthesized_assign_printed(*self, f)
    }

    fn fmt(&self, f: &mut NodeFormatter) -> (r: NodeDisplayResult) {
        print_parenthesized_assign(self, f);
        Ok(())
    }
}

/// The target of a plain assignment, or of a `for`-`in` or `for`-`of` head.
#[derive(Debug)]
pub enum LeftHandComplexAssign {
    Parenthesized(ParenthesizedAssignmentPattern),
    Identifier(ReferenceIdentifier),
    Object(ObjectAssignmentPattern),
    Array(ArrayAssignmentPattern),
}

/// `{ a, b: c, ...d } =`
#[derive(Debug)]
pub struct ObjectAssignmentPattern {
    pub properties: Vec<ObjectAssignmentPatternProperty>,
    pub last_property: Option<ObjectAssignmentPatternLastProperty>,
    pub position: Option<Box<NodePosition>>,
}

/// A property of an object assignment pattern.
#[derive(Debug)]
pub enum ObjectAssignmentPatternProperty {
    Identifier(ObjectAssignmentPatternIdentifierProperty),
    Pattern(ObjectAssignmentPatternPatternProperty),
}

/// The last property of an object assignment pattern, which may be a rest property.
#[derive(Debug)]
pub enum ObjectAssignmentPatternLastProperty {
    Identifier(ObjectAssignmentPatternIdentifierProperty),
    Pattern(ObjectAssignmentPatternPatternProperty),
    Rest(ObjectAssignmentPatternRestProperty),
}

/// `...target`
#[derive(Debug)]
pub struct ObjectAssignmentPatternRestProperty {
    pub pattern: Box<LeftHandSimpleAssign>,
    pub position: Option<Box<NodePosition>>,
}

impl NodeDisplay for ObjectAssignmentPatternRestProperty {
    open spec fn printed(&self, f: FormatterView) -> FormatterView {
        let f = f.with_punctuator(Punctuator::Ellipsis);
        let f = self.pattern.printed(f);
        f
    }

    fn fmt(&self, f: &mut NodeFormatter) -> (r: NodeDisplayResult) {
        f.punctuator(Punctuator::Ellipsis);
        let _ = f.node(&self.pattern);
        Ok(())
    }
}

/// `name` or `name = init`
#[derive(Debug)]
pub struct ObjectAssignmentPatternIdentifierProperty {
    pub id: ReferenceIdentifier,
    pub init: Option<Box<alias::Expression>>,
    pub position: Option<Box<NodePosition>>,
}

impl NodeDisplay for ObjectAssignmentPatternIdentifierProperty {
    open spec fn printed(&self, f: FormatterView) -> FormatterView {
        let f = self.id.printed(f);
        let f = match self.init {
            Some(x) => {
                let f = f.with_punctuator(Punctuator::Eq);
                let f = x.printed(f);
                f
            },
            None => f,
        };
        f
    }

    fn fmt(&self, f: &mut NodeFormatter) -> (r: NodeDisplayResult) {
        let _ = f.node(&self.id);
        match &self.init {
            Some(x) => {
                f.punctuator(Punctuator::Eq);
                let _ = f.node(x);
            },
            None => {},
        }
        Ok(())
    }
}

/// `name: target` or `name: target = init`
#[derive(Debug)]
pub struct ObjectAssignmentPatternPatternProperty {
    pub name: PropertyName,
    pub pattern: Box<LeftHandComplexAssign>,
    pub init: Option<Box<alias::Expression>>,
    pub position: Option<Box<NodePosition>>,
}

/// `[ a, , b, ...c ] =`; a missing item is a hole.
#[derive(Debug)]
pub struct ArrayAssignmentPattern {
    pub items: Vec<Option<ArrayAssignmentPatternElement>>,
    pub last_item: Option<ArrayAssignmentPatternLastElement>,
    pub position: Option<Box<NodePosition>>,
}

/// The last item of an array assignment pattern, which may be a rest item.
#[derive(Debug)]
pub enum ArrayAssignmentPatternLastElement {
    Pattern(ArrayAssignmentPatternElement),
    Rest(ArrayAssignmentRestElement),
}

/// `...target`
#[derive(Debug)]
pub struct ArrayAssignmentRestElement {
    pub pattern: Box<LeftHandComplexAssign>,
    pub position: Option<Box<NodePosition>>,
}

/// `target` or `target = init`
#[derive(Debug)]
pub struct ArrayAssignmentPatternElement {
    pub id: Box<LeftHandComplexAssign>,
    pub init: Option<Box<alias::Expression>>,
    pub position: Option<Box<NodePosition>>,
}

pub open spec fn complex_assign_printed(p: LeftHandComplexAssign, f: FormatterView) -> FormatterView
    decreases p,
{
    match p {
        LeftHandComplexAssign::Parenthesized(x) => x.printed(f),
        LeftHandComplexAssign::Identifier(x) => x.printed(f),
        LeftHandComplexAssign::Object(x) => object_assign_printed(x, f),
        LeftHandComplexAssign::Array(x) => array_assign_printed(x, f),
    }
}

fn print_complex_assign(p: &LeftHandComplexAssign, f: &mut NodeFormatter)
    ensures
        final(f)@ == complex_assign_printed(*p, old(f)@),
    decreases p,
{
    match p {
        LeftHandComplexAssign::Parenthesized(x) => {
            let _ = f.node(x);
        },
        LeftHandComplexAssign::Identifier(x) => {
            let _ = f.node(x);
        },
        LeftHandComplexAssign::Object(x) => {
            print_object_assign(x, f);
        },
        LeftHandComplexAssign::Array(x) => {
            print_array_assign(x, f);
        },
    }
}

pub open spec fn object_assign_printed(p: ObjectAssignmentPattern, f: FormatterView) -> FormatterView
    decreases p,
{
    let (f, lock1) = f.curly_opened();
    let lock2 = LockRelease::Precedence(f.prec);
    let f = FormatterView { prec: Precedence::Assignment, ..f };
    let f = assign_properties_printed(p.properties@, f);
    let f = f.released(lock2);
    let f = match p.last_property {
        Some(x) => {
            let f = if p.properties@.len() > 0 {
                let f = f.with_punctuator(Punctuator::Comma);
                f
            } else {
                f
            };
            let f = assign_last_property_printed(x, f);
            f
        },
        None => f,
    };
    let f = f.released(lock1);
    f
}

#[verifier::rlimit(50)]
fn print_object_assign(p: &ObjectAssignmentPattern, f: &mut NodeFormatter)
    ensures
        final(f)@ == object_assign_printed(*p, old(f)@),
    decreases p,
{
    let lock1 = f.wrap_curly();
    let lock2 = f.require_precedence(Precedence::Assignment);
    print_assign_properties(&p.properties, f);
    f.release(lock2);
    match &p.last_property {
        Some(x) => {
            if p.properties.len() > 0 {
                f.punctuator(Punctuator::Comma);
            }
            print_assign_last_property(x, f);
        },
        None => {},
    }
    f.release(lock1);
}

pub open spec fn assign_properties_printed(items: Seq<ObjectAssignmentPatternProperty>, f: FormatterView) -> FormatterView
    decreases items,
{
    if items.len() == 0 {
        f
    } else if items.len() == 1 {
        assign_property_printed(items[0], f)
    } else {
        assign_property_printed(items.last(), assign_properties_printed(items.drop_last(), f).with_punctuator(Punctuator::Comma))
    }
}

#[verifier::rlimit(50)]
fn print_assign_properties(items: &Vec<ObjectAssignmentPatternProperty>, f: &mut NodeFormatter)
    ensures
        final(f)@ == assign_properties_printed(items@, old(f)@),
    decreases items,
{
    let ghost start = f@;
    let mut i: usize = 0;
    while i < items.len()
        invariant
            i <= items@.len(),
            f@ == assign_properties_printed(items@.take(i as int), start),
        decreases items@.len() - i,
    {
            if i > 0 {
                f.punctuator(Punctuator::Comma);
            }
            print_assign_property(&items[i], f);
            proof {
                assert(items@.take(i + 1).drop_last() =~= items@.take(i as int));
                assert(items@.take(i + 1)[0] == items@[0]);
            }
            i = i + 1;
    }
    proof {
        assert(items@.take(items@.len() as int) =~= items@);
    }
}

pub open spec fn assign_property_printed(p: ObjectAssignmentPatternProperty, f: FormatterView) -> FormatterView
    decreases p,
{
    match p {
        ObjectAssignmentPatternProperty::Identifier(x) => x.printed(f),
        ObjectAssignmentPatternProperty::Pattern(x) => assign_pattern_property_printed(x, f),
    }
}

fn print_assign_property(p: &ObjectAssignmentPatternProperty, f: &mut NodeFormatter)
    ensures
        final(f)@ == assign_property_printed(*p, old(f)@),
    decreases p,
{
    match p {
        ObjectAssignmentPatternProperty::Identifier(x) => {
            let _ = f.node(x);
        },
        ObjectAssignmentPatternProperty::Pattern(x) => {
            print_assign_pattern_property(x, f);
        },
    }
}

pub open spec fn assign_last_property_printed(p: ObjectAssignmentPatternLastProperty, f: FormatterView) -> FormatterView
    decreases p,
{
    match p {
        ObjectAssignmentPatternLastProperty::Identifier(x) => x.printed(f),
        ObjectAssignmentPatternLastProperty::Pattern(x) => assign_pattern_property_printed(x, f),
        ObjectAssignmentPatternLastProperty::Rest(x) => x.printed(f),
    }
}

fn print_assign_last_property(p: &ObjectAssignmentPatternLastProperty, f: &mut NodeFormatter)
    ensures
        final(f)@ == assign_last_property_printed(*p, old(f)@),
    decreases p,
{
    match p {
        ObjectAssignmentPatternLastProperty::Identifier(x) => {
            let _ = f.node(x);
        },
        ObjectAssignmentPatternLastProperty::Pattern(x) => {
            print_assign_pattern_property(x, f);
        },
        ObjectAssignmentPatternLastProperty::Rest(x) => {
            let _ = f.node(x);
        },
    }
}

pub open spec fn assign_pattern_property_printed(p: ObjectAssignmentPatternPatternProperty, f: FormatterView) -> FormatterView
    decreases p,
{
    let f = p.name.printed(f);
    let f = f.with_punctuator(Punctuator::Colon);
    let f = complex_assign_printed(*p.pattern, f);
    let f = match p.init {
        Some(x) => {
            let f = f.with_punctuator(Punctuator::Eq);
            let f = x.printed(f);
            f
        },
        None => f,
    };
    f
}

fn print_assign_pattern_property(p: &ObjectAssignmentPatternPatternProperty, f: &mut NodeFormatter)
    ensures
        final(f)@ == assign_pattern_property_printed(*p, old(f)@),
    decreases p,
{
    let _ = f.node(&p.name);
    f.punctuator(Punctuator::Colon);
    print_complex_assign(&p.pattern, f);
    match &p.init {
        Some(x) => {
            f.punctuator(Punctuator::Eq);
            let _ = f.node(x);
        },
        None => {},
    }
}

pub open spec fn array_assign_printed(p: ArrayAssignmentPattern, f: FormatterView) -> FormatterView
    decreases p,
{
    let (f, lock1) = f.square_opened();
    let lock2 = LockRelease::Precedence(f.prec);
    let f = FormatterView { prec: Precedence::Assignment, ..f };
    let f = assign_items_printed(p.items@, f);
    let f = f.released(lock2);
    let f = match p.last_item {
        Some(x) => {
            let f = if p.items@.len() > 0 {
                let f = f.with_punctuator(Punctuator::Comma);
                f
            } else {
                f
            };
            let f = assign_last_item_printed(x, f);
            f
        },
        None => f,
    };
    let f = f.released(lock1);
    f
}

#[verifier::rlimit(50)]
fn print_array_assign(p: &ArrayAssignmentPattern, f: &mut NodeFormatter)
    ensures
        final(f)@ == array_assign_printed(*p, old(f)@),
    decreases p,
{
    let lock1 = f.wrap_square();
    let lock2 = f.require_precedence(Precedence::Assignment);
    print_assign_items(&p.items, f);
    f.release(lock2);
    match &p.last_item {
        Some(x) => {
            if p.items.len() > 0 {
                f.punctuator(Punctuator::Comma);
            }
            print_assign_last_item(x, f);
        },
        None => {},
    }
    f.release(lock1);
}

pub open spec fn assign_items_printed(items: Seq<Option<ArrayAssignmentPatternElement>>, f: FormatterView) -> FormatterView
    decreases items,
{
    if items.len() == 0 {
        f
    } else if items.len() == 1 {
        assign_item_printed(items[0], f)
    } else {
        assign_item_printed(items.last(), assign_items_printed(items.drop_last(), f).with_punctuator(Punctuator::Comma))
    }
}

fn print_assign_items(items: &Vec<Option<ArrayAssignmentPatternElement>>, f: &mut NodeFormatter)
    ensures
        final(f)@ == assign_items_printed(items@, old(f)@),
    decreases items,
{
    let ghost start = f@;
    let mut i: usize = 0;
    while i < items.len()
        invariant
            i <= items@.len(),
            f@ == assign_items_printed(items@.take(i as int), start),
        decreases items@.len() - i,
    {
            if i > 0 {
                f.punctuator(Punctuator::Comma);
            }
            print_assign_item(&items[i], f);
            proof {
                assert(items@.take(i + 1).drop_last() =~= items@.take(i as int));
                assert(items@.take(i + 1)[0] == items@[0]);
            }
            i = i + 1;
    }
    proof {
        assert(items@.take(items@.len() as int) =~= items@);
    }
}

pub open spec fn assign_item_printed(o: Option<ArrayAssignmentPatternElement>, f: FormatterView) -> FormatterView
    decreases o,
{
    match o {
        Some(e) => assign_element_printed(e, f),
        None => f,
    }
}

fn print_assign_item(o: &Option<ArrayAssignmentPatternElement>, f: &mut NodeFormatter)
    ensures
        final(f)@ == assign_item_printed(*o, old(f)@),
    decreases o,
{
    match o {
        Some(e) => print_assign_element(e, f),
        None => {},
    }
}

pub open spec fn assign_element_printed(p: ArrayAssignmentPatternElement, f: FormatterView) -> FormatterView
    decreases p,
{
    let f = complex_assign_printed(*p.id, f);
    let f = match p.init {
        Some(x) => {
            let f = f.with_punctuator(Punctuator::Eq);
            let f = x.printed(f);
            f
        },
        None => f,
    };
    f
}

fn print_assign_element(p: &ArrayAssignmentPatternElement, f: &mut NodeFormatter)
    ensures
        final(f)@ == assign_element_printed(*p, old(f)@),
    decreases p,
{
    print_complex_assign(&p.id, f);
    match &p.init {
        Some(x) => {
            f.punctuator(Punctuator::Eq);
            let _ = f.node(x);
        },
        None => {},
    }
}

pub open spec fn assign_last_item_printed(p: ArrayAssignmentPatternLastElement, f: FormatterView) -> FormatterView
    decreases p,
{
    match p {
        ArrayAssignmentPatternLastElement::Pattern(x) => assign_element_printed(x, f),
        ArrayAssignmentPatternLastElement::Rest(x) => assign_rest_printed(x, f),
    }
}

fn print_assign_last_item(p: &ArrayAssignmentPatternLastElement, f: &mut NodeFormatter)
    ensures
        final(f)@ == assign_last_item_printed(*p, old(f)@),
    decreases p,
{
    match p {
        ArrayAssignmentPatternLastElement::Pattern(x) => {
            print_assign_element(x, f);
        },
        ArrayAssignmentPatternLastElement::Rest(x) => {
            print_assign_rest(x, f);
        },
    }
}

pub open spec fn assign_rest_printed(p: ArrayAssignmentRestElement, f: FormatterView) -> FormatterView
    decreases p,
{
    let f = f.with_punctuator(Punctuator::Ellipsis);
    let f = complex_assign_printed(*p.pattern, f);
    f
}

fn print_assign_rest(p: &ArrayAssignmentRestElement, f: &mut NodeFormatter)
    ensures
        final(f)@ == assign_rest_printed(*p, old(f)@),
    decreases p,
{
    f.punctuator(Punctuator::Ellipsis);
    print_complex_assign(&p.pattern, f);
}

impl NodeDisplay for LeftHandComplexAssign {
    open spec fn printed(&self, f: FormatterView) -> FormatterView {
        complex_assign_printed(*self, f)
    }

    fn fmt(&self, f: &mut NodeFormatter) -> (r: NodeDisplayResult) {
        print_complex_assign(self, f);
        Ok(())
    }
}

impl NodeDisplay for ObjectAssignmentPattern {
    open spec fn printed(&self, f: FormatterView) -> FormatterView {
        object_assign_printed(*self, f)
    }

    fn fmt(&self, f: &mut NodeFormatter) -> (r: NodeDisplayResult) {
        print_object_assign(self, f);
        Ok(())
    }
}

impl NodeDisplay for ObjectAssignmentPatternProperty {
    open spec fn printed(&self, f: FormatterView) -> FormatterView {
        assign_property_printed(*self, f)
    }

    fn fmt(&self, f: &mut NodeFormatter) -> (r: NodeDisplayResult) {
        print_assign_property(self, f);
        Ok(())
    }
}

impl NodeDisplay for ObjectAssignmentPatternLastProperty {
    open spec fn printed(&self, f: FormatterView) -> FormatterView {
        assign_last_property_printed(*self, f)
    }

    fn fmt(&self, f: &mut NodeFormatter) -> (r: NodeDisplayResult) {
        print_assign_last_property(self, f);
        Ok(())
    }
}

impl NodeDisplay for ObjectAssignmentPatternPatternProperty {
    open spec fn printed(&self, f: FormatterView) -> FormatterView {
        assign_pattern_property_printed(*self, f)
    }

    fn fmt(&self, f: &mut NodeFormatter) -> (r: NodeDisplayResult) {
        print_assign_pattern_property(self, f);
        Ok(())
    }
}

impl NodeDisplay for ArrayAssignmentPattern {
    open spec fn printed(&self, f: FormatterView) -> FormatterView {
        array_assign_printed(*self, f)
    }

    fn fmt(&self, f: &mut NodeFormatter) -> (r: NodeDisplayResult) {
        print_array_assign(self, f);
        Ok(())
    }
}

impl NodeDisplay for ArrayAssignmentPatternLastElement {
    open spec fn printed(&self, f: FormatterView) -> FormatterView {
        assign_last_item_printed(*self, f)
    }

    fn fmt(&self, f: &mut NodeFormatter) -> (r: NodeDisplayResult) {
        print_assign_last_item(self, f);
        Ok(())
    }
}

impl NodeDisplay for ArrayAssignmentRestElement {
    open spec fn printed(&self, f: FormatterView) -> FormatterView {
        assign_rest_printed(*self, f)
    }

    fn fmt(&self, f: &mut NodeFormatter) -> (r: NodeDisplayResult) {
        print_assign_rest(self, f);
        Ok(())
    }
}

impl NodeDisplay for ArrayAssignmentPatternElement {
    open spec fn printed(&self, f: FormatterView) -> FormatterView {
        assign_element_printed(*self, f)
    }

    fn fmt(&self, f: &mut NodeFormatter) -> (r: NodeDisplayResult) {
        print_assign_element(self, f);
        Ok(())
    }
}

impl Default for ObjectBindingPattern {
    fn default() -> (p: ObjectBindingPattern)
        ensures
            p.properties@.len() == 0,
            p.last_property is None,
            p.position is None,
    {
        ObjectBindingPattern { properties: Vec::new(), last_property: None, position: None }
    }
}

impl Default for ArrayBindingPattern {
    fn default() -> (p: ArrayBindingPattern)
        ensures
            p.items@.len() == 0,
            p.last_item is None,
            p.position is None,
    {
        ArrayBindingPattern { items: Vec::new(), last_item: None, position: None }
    }
}

impl Default for ObjectAssignmentPattern {
    fn default() -> (p: ObjectAssignmentPattern)
        ensures
            p.properties@.len() == 0,
            p.last_property is None,
            p.position is None,
    {
        ObjectAssignmentPattern { properties: Vec::new(), last_property: None, position: None }
    }
}

impl Default for ArrayAssignmentPattern {
    fn default() -> (p: ArrayAssignmentPattern)
        ensures
            p.items@.len() == 0,
            p.last_item is None,
            p.position is None,
    {
        ArrayAssignmentPattern { items: Vec::new(), last_item: None, position: None }
    }
}

} // verus!
