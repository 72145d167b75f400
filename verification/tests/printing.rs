use jsparse::ast::alias::Expression;
use jsparse::ast::classes::ExportDefaultClassDeclaration;
use jsparse::ast::display::NodeDisplay;
use jsparse::ast::expression::{ParenthesizedExpression, ThisExpression};
use jsparse::ast::functions::{Directive, DirectiveLiteral, ExportDefaultFunctionDeclaration};
use jsparse::ast::general::BindingIdentifier;
use jsparse::ast::jsx::{
    AttributeName, AttributeValue, Child, Element, ElementName, Empty, Identifier, NamespacedName,
    PairAttribute, StringAttribute, Text,
};
use jsparse::ast::literal;
use jsparse::ast::modules::{
    ExportAllSpecifiers, ExportNamedAndSpecifiers, ExportNamedSpecifier, ExportNamespace,
    ExportSourceSpecifiers, ImportNamedAndNamespaceDeclaration, ImportNamedAndSpecifiersDeclaration,
    ImportNamedDeclaration, ImportNamespaceDeclaration, ImportSpecifier, ImportSpecifiersDeclaration,
    ModuleIdentifier, SourceExportSpecifier,
};
use jsparse::ast::patterns::{
    ArrayAssignmentPattern, ArrayBindingPattern, ObjectAssignmentPattern, ObjectBindingPattern,
};
use jsparse::ast::statement::{ForStatement, TryCatchFinallyStatement, TryCatchStatement};

fn name(s: &str) -> ElementName {
    ElementName::Identifier(Identifier::from(s))
}

fn element(opening: ElementName, children: Vec<Child>, closing: Option<ElementName>) -> Element {
    Element { opening, attributes: Vec::new(), children, closing, position: None }
}

fn source(s: &str) -> literal::String {
    literal::String::from(s)
}

#[test]
fn classes_it_prints_default() {
    assert_eq!(ExportDefaultClassDeclaration::default().to_string(), "export default class{}");
}

#[test]
fn expression_it_prints_default() {
    assert_eq!(ThisExpression::default().to_string(), "this");
}

#[test]
fn expression_it_prints() {
    let p = ParenthesizedExpression::from(Expression::This(ThisExpression::default()));
    assert_eq!(p.to_string(), "(this)");
}

#[test]
fn functions_it_prints_default() {
    assert_eq!(Directive::from("use strict").to_string(), "'use strict';");
    assert_eq!(DirectiveLiteral::from("use strict").to_string(), "'use strict'");
}

#[test]
fn functions_it_prints() {
    assert_eq!(ExportDefaultFunctionDeclaration::default().to_string(), "export default function(){}");
}

#[test]
fn jsx_it_prints() {
    assert_eq!(element(name("foo-bar"), Vec::new(), None).to_string(), "<foo-bar/>");
}

#[test]
fn it_prints_with_namespace() {
    let opening = ElementName::Namespaced(NamespacedName {
        namespace: Identifier::from("foo-bar"),
        name: Identifier::from("baz-bat"),
        position: None,
    });
    assert_eq!(element(opening, Vec::new(), None).to_string(), "<foo-bar:baz-bat/>");
}

#[test]
fn it_prints_with_closing() {
    assert_eq!(
        element(name("foo-bar"), Vec::new(), Some(name("foo-bar"))).to_string(),
        "<foo-bar></foo-bar>"
    );
}

#[test]
fn it_prints_with_children() {
    let children = vec![Child::Text(Text::from("some text"))];
    assert_eq!(element(name("foo-bar"), children, None).to_string(), "<foo-bar>some text</foo-bar>");
}

#[test]
fn it_prints_with_children_and_closing() {
    let children = vec![Child::Text(Text::from("some text"))];
    assert_eq!(
        element(name("foo-bar"), children, Some(name("foo-bar"))).to_string(),
        "<foo-bar>some text</foo-bar>"
    );
}

#[test]
fn it_prints_pair() {
    let pair = PairAttribute {
        name: AttributeName::Identifier(Identifier::from("attrName")),
        value: Some(AttributeValue::String(StringAttribute::from("omg"))),
        position: None,
    };
    assert_eq!(pair.to_string(), "attrName='omg'");
}

#[test]
fn it_prints_pair_namespace() {
    let pair = PairAttribute {
        name: AttributeName::Namespaced(NamespacedName {
            namespace: Identifier::from("attrName"),
            name: Identifier::from("prop"),
            position: None,
        }),
        value: Some(AttributeValue::String(StringAttribute::from("omg"))),
        position: None,
    };
    assert_eq!(pair.to_string(), "attrName:prop='omg'");
}

#[test]
fn it_prints_pair_element() {
    let pair = PairAttribute {
        name: AttributeName::Identifier(Identifier::from("attrName")),
        value: Some(AttributeValue::Element(element(name("div"), Vec::new(), None))),
        position: None,
    };
    assert_eq!(pair.to_string(), "attrName=<div/>");
}

#[test]
fn it_prints_pair_novalue() {
    let pair = PairAttribute {
        name: AttributeName::Identifier(Identifier::from("attrName")),
        value: None,
        position: None,
    };
    assert_eq!(pair.to_string(), "attrName");
}

#[test]
fn jsx_it_prints_empty() {
    let children = vec![Child::Empty(Empty::default())];
    assert_eq!(element(name("div"), children, None).to_string(), "<div>{}</div>");
}

#[test]
fn it_prints_text() {
    let children = vec![Child::Text(Text::from("content"))];
    assert_eq!(element(name("div"), children, None).to_string(), "<div>content</div>");
}

#[test]
fn it_prints_element() {
    let children = vec![
        Child::Text(Text::from("before")),
        Child::Element(element(name("div"), Vec::new(), None)),
        Child::Text(Text::from("after")),
    ];
    assert_eq!(element(name("div"), children, None).to_string(), "<div>before<div/>after</div>");
}

#[test]
fn it_prints_boolean() {
    assert_eq!(literal::Boolean::from(true).to_string(), "true");
    assert_eq!(literal::Boolean::from(false).to_string(), "false");
}

#[test]
fn it_prints_null() {
    assert_eq!(literal::Null::default().to_string(), "null");
}

#[test]
fn it_prints_string() {
    assert_eq!(literal::String::from("hello").to_string(), "'hello'");
}

#[test]
fn it_prints_regexp() {
    let r = literal::RegExp { value: "hello".to_string(), flags: vec!['g', 'u'], position: None };
    assert_eq!(r.to_string(), "/hello/gu");
}

#[test]
fn modules_it_prints() {
    let named = ImportNamedDeclaration {
        default: BindingIdentifier::new("foo"),
        source: source("file.js"),
        position: None,
    };
    assert_eq!(named.to_string(), "import foo from'file.js';");

    let named_ns = ImportNamedAndNamespaceDeclaration {
        default: BindingIdentifier::new("foo"),
        namespace: BindingIdentifier::new("namespaceObj"),
        source: source("file.js"),
        position: None,
    };
    assert_eq!(named_ns.to_string(), "import foo,*as namespaceObj from'file.js';");

    let ns = ImportNamespaceDeclaration {
        namespace: BindingIdentifier::new("namespaceObj"),
        source: source("file.js"),
        position: None,
    };
    assert_eq!(ns.to_string(), "import*as namespaceObj from'file.js';");

    let named_specs = ImportNamedAndSpecifiersDeclaration {
        default: BindingIdentifier::new("foo"),
        specifiers: vec![],
        source: source("file.js"),
        position: None,
    };
    assert_eq!(named_specs.to_string(), "import foo,{}from'file.js';");

    let specs = ImportSpecifiersDeclaration { specifiers: vec![], source: source("file.js"), position: None };
    assert_eq!(specs.to_string(), "import{}from'file.js';");
}

fn export_specifiers() -> Vec<SourceExportSpecifier> {
    vec![
        SourceExportSpecifier { imported: ModuleIdentifier::new("someName"), exported: None, position: None },
        SourceExportSpecifier { imported: ModuleIdentifier::new("someOtherName"), exported: None, position: None },
        SourceExportSpecifier {
            imported: ModuleIdentifier::new("local"),
            exported: Some(ModuleIdentifier::new("exp")),
            position: None,
        },
    ]
}

#[test]
fn modules_it_prints_with_specifiers() {
    let source_specs =
        ExportSourceSpecifiers { specifiers: export_specifiers(), source: source("file.js"), position: None };
    assert_eq!(source_specs.to_string(), "export{someName,someOtherName,local as exp}from'file.js';");

    let all = ExportAllSpecifiers { source: source("file.js"), position: None };
    assert_eq!(all.to_string(), "export*from'file.js';");

    let named = ExportNamedSpecifier {
        default: ModuleIdentifier::new("fooExp"),
        source: source("file.js"),
        position: None,
    };
    assert_eq!(named.to_string(), "export fooExp from'file.js';");

    let named_specs = ExportNamedAndSpecifiers {
        default: ModuleIdentifier::new("foo"),
        specifiers: export_specifiers(),
        source: source("file.js"),
        position: None,
    };
    assert_eq!(named_specs.to_string(), "export foo,{someName,someOtherName,local as exp}from'file.js';");
}

#[test]
fn modules_it_prints_without_specifiers() {
    let ns = ExportNamespace { namespace: ModuleIdentifier::new("foo"), source: source("file.js"), position: None };
    assert_eq!(ns.to_string(), "export*as foo from'file.js';");

    let named_specs = ExportNamedAndSpecifiers {
        default: ModuleIdentifier::new("foo"),
        specifiers: vec![],
        source: source("file.js"),
        position: None,
    };
    assert_eq!(named_specs.to_string(), "export foo,{}from'file.js';");
}

#[test]
fn patterns_it_prints_default() {
    assert_eq!(ObjectAssignmentPattern::default().to_string(), "{}");
    assert_eq!(ArrayAssignmentPattern::default().to_string(), "[]");
    assert_eq!(ObjectBindingPattern::default().to_string(), "{}");
    assert_eq!(ArrayBindingPattern::default().to_string(), "[]");
}

#[test]
fn statement_it_prints_default() {
    assert_eq!(TryCatchStatement::default().to_string(), "try{}catch{}");
    assert_eq!(TryCatchFinallyStatement::default().to_string(), "try{}catch{}finally{}");
    assert_eq!(ForStatement::default().to_string(), "for(;;);");
}

fn import_specifiers() -> Vec<ImportSpecifier> {
    vec![
        ImportSpecifier { local: BindingIdentifier::new("spec1"), imported: None, position: None },
        ImportSpecifier { local: BindingIdentifier::new("spec2"), imported: None, position: None },
        ImportSpecifier {
            local: BindingIdentifier::new("spec3"),
            imported: Some(ModuleIdentifier::new("fooImport")),
            position: None,
        },
    ]
}

#[test]
fn import_declarations_print_with_specifiers() {
    let named_specs = ImportNamedAndSpecifiersDeclaration {
        default: BindingIdentifier::new("foo"),
        specifiers: import_specifiers(),
        source: source("file.js"),
        position: None,
    };
    assert_eq!(named_specs.to_string(), "import foo,{spec1,spec2,spec3 as fooImport}from'file.js';");
    let specs = ImportSpecifiersDeclaration { specifiers: import_specifiers(), source: source("file.js"), position: None };
    assert_eq!(specs.to_string(), "import{spec1,spec2,spec3 as fooImport}from'file.js';");
}
