//! Import and export declarations.

use vstd::prelude::*;
use crate::ast::NodePosition;
use crate::ast::alias;
use crate::ast::declaration::{ConstDeclaration, LetDeclaration, VariableStatement};
use crate::ast::functions::FunctionDeclaration;
use crate::ast::classes::ClassDeclaration;
use crate::ast::general::BindingIdentifier;
use crate::ast::literal::String;
use crate::ast::display::{
    NodeDisplay, NodeFormatter, NodeDisplayResult, FormatterView, Keyword, Punctuator, Precedence,
    LookaheadRestriction, LockRelease, raw_text, raw_str,
};

verus! {

/// An identifier that names an import or an export; it may be `default`.
#[derive(Debug)]
pub struct ModuleIdentifier {
    pub value: std::string::String,
    pub raw: Option<std::string::String>,
    pub position: Option<Box<NodePosition>>,
}

impl ModuleIdentifier {
    pub fn new(s: &str) -> (n: ModuleIdentifier)
        ensures
            n.value@ == s@,
            n.raw is None,
            n.position is None,
    {
        ModuleIdentifier { value: s.to_owned(), raw: None, position: None }
    }
}

impl NodeDisplay for ModuleIdentifier {
    open spec fn printed(&self, f: FormatterView) -> FormatterView {
        f.with_word(raw_text(self.value@, self.raw))
    }

    fn fmt(&self, f: &mut NodeFormatter) -> (r: NodeDisplayResult) {
        f.identifier(self.value.as_str(), raw_str(&self.raw))
    }
}

/// `local` or `local as imported` in an import list.
#[derive(Debug)]
pub struct ImportSpecifier {
    pub local: BindingIdentifier,
    pub imported: Option<ModuleIdentifier>,
    pub position: Option<Box<NodePosition>>,
}

impl NodeDisplay for ImportSpecifier {
    open spec fn printed(&self, f: FormatterView) -> FormatterView {
        let f = self.local.printed(f);
        let f = match self.imported {
            Some(x) => {
                let f = f.with_keyword(Keyword::As);
                let f = x.printed(f);
                f
            },
            None => f,
        };
        f
    }

    fn fmt(&self, f: &mut NodeFormatter) -> (r: NodeDisplayResult) {
        let _ = f.node(&self.local);
        match &self.imported {
            Some(x) => {
                f.keyword(Keyword::As);
                let _ = f.node(x);
            },
            None => {},
        }
        Ok(())
    }
}

/// `import foo from "";`
#[derive(Debug)]
pub struct ImportNamedDeclaration {
    pub default: BindingIdentifier,
    pub source: String,
    pub position: Option<Box<NodePosition>>,
}

impl NodeDisplay for ImportNamedDeclaration {
    open spec fn printed(&self, f: FormatterView) -> FormatterView {
        let f = f.with_keyword(Keyword::Import);
        let f = self.default.printed(f);
        let f = f.with_keyword(Keyword::From);
        let f = self.source.printed(f);
        let f = f.with_punctuator(Punctuator::Semicolon);
        f
    }

    fn fmt(&self, f: &mut NodeFormatter) -> (r: NodeDisplayResult) {
        f.keyword(Keyword::Import);
        let _ = f.node(&self.default);
        f.keyword(Keyword::From);
        let _ = f.node(&self.source);
        f.punctuator(Punctuator::Semicolon);
        Ok(())
    }
}

/// `import foo, * as bar from "";`
#[derive(Debug)]
pub struct ImportNamedAndNamespaceDeclaration {
    pub default: BindingIdentifier,
    pub namespace: BindingIdentifier,
    pub source: String,
    pub position: Option<Box<NodePosition>>,
}

impl NodeDisplay for ImportNamedAndNamespaceDeclaration {
    open spec fn printed(&self, f: FormatterView) -> FormatterView {
        let f = f.with_keyword(Keyword::Import);
        let f = self.default.printed(f);
        let f = f.with_punctuator(Punctuator::Comma);
        let f = f.with_punctuator(Punctuator::Star);
        let f = f.with_keyword(Keyword::As);
        let f = self.namespace.printed(f);
        let f = f.with_keyword(Keyword::From);
        let f = self.source.printed(f);
        let f = f.with_punctuator(Punctuator::Semicolon);
        f
    }

    fn fmt(&self, f: &mut NodeFormatter) -> (r: NodeDisplayResult) {
        f.keyword(Keyword::Import);
        let _ = f.node(&self.default);
        f.punctuator(Punctuator::Comma);
        f.punctuator(Punctuator::Star);
        f.keyword(Keyword::As);
        let _ = f.node(&self.namespace);
        f.keyword(Keyword::From);
        let _ = f.node(&self.source);
        f.punctuator(Punctuator::Semicolon);
        Ok(())
    }
}

/// `import * as bar from "";`
#[derive(Debug)]
pub struct ImportNamespaceDeclaration {
    pub namespace: BindingIdentifier,
    pub source: String,
    pub position: Option<Box<NodePosition>>,
}

impl NodeDisplay for ImportNamespaceDeclaration {
    open spec fn printed(&self, f: FormatterView) -> FormatterView {
        let f = f.with_keyword(Keyword::Import);
        let f = f.with_punctuator(Punctuator::Star);
        let f = f.with_keyword(Keyword::As);
        let f = self.namespace.printed(f);
        let f = f.with_keyword(Keyword::From);
        let f = self.source.printed(f);
        let f = f.with_punctuator(Punctuator::Semicolon);
        f
    }

    fn fmt(&self, f: &mut NodeFormatter) -> (r: NodeDisplayResult) {
        f.keyword(Keyword::Import);
        f.punctuator(Punctuator::Star);
        f.keyword(Keyword::As);
        let _ = f.node(&self.namespace);
        f.keyword(Keyword::From);
        let _ = f.node(&self.source);
        f.punctuator(Punctuator::Semicolon);
        Ok(())
    }
}

/// `import foo, {bar} from "";`
#[derive(Debug)]
pub struct ImportNamedAndSpecifiersDeclaration {
    pub default: BindingIdentifier,
    pub specifiers: Vec<ImportSpecifier>,
    pub source: String,
    pub position: Option<Box<NodePosition>>,
}

impl NodeDisplay for ImportNamedAndSpecifiersDeclaration {
    open spec fn printed(&self, f: FormatterView) -> FormatterView {
        let f = f.with_keyword(Keyword::Import);
        let f = self.default.printed(f);
        let f = f.with_punctuator(Punctuator::Comma);
        let f = f.with_curly_list(self.specifiers@);
        let f = f.with_keyword(Keyword::From);
        let f = self.source.printed(f);
        let f = f.with_punctuator(Punctuator::Semicolon);
        f
    }

    fn fmt(&self, f: &mut NodeFormatter) -> (r: NodeDisplayResult) {
        f.keyword(Keyword::Import);
        let _ = f.node(&self.default);
        f.punctuator(Punctuator::Comma);
        let _ = f.curly_list(self.specifiers.as_slice());
        f.keyword(Keyword::From);
        let _ = f.node(&self.source);
        f.punctuator(Punctuator::Semicolon);
        Ok(())
    }
}

/// `import {bar} from "";`
#[derive(Debug)]
pub struct ImportSpecifiersDeclaration {
    pub specifiers: Vec<ImportSpecifier>,
    pub source: String,
    pub position: Option<Box<NodePosition>>,
}

impl NodeDisplay for ImportSpecifiersDeclaration {
    open spec fn printed(&self, f: FormatterView) -> FormatterView {
        let f = f.with_keyword(Keyword::Import);
        let f = f.with_curly_list(self.specifiers@);
        let f = f.with_keyword(Keyword::From);
        let f = self.source.printed(f);
        let f = f.with_punctuator(Punctuator::Semicolon);
        f
    }

    fn fmt(&self, f: &mut NodeFormatter) -> (r: NodeDisplayResult) {
        f.keyword(Keyword::Import);
        let _ = f.curly_list(self.specifiers.as_slice());
        f.keyword(Keyword::From);
        let _ = f.node(&self.source);
        f.punctuator(Punctuator::Semicolon);
        Ok(())
    }
}

/// `export default expression;`
#[derive(Debug)]
pub struct ExportDefaultExpression {
    pub expression: alias::Expression,
    pub position: Option<Box<NodePosition>>,
}

impl NodeDisplay for ExportDefaultExpression {
    open spec fn printed(&self, f: FormatterView) -> FormatterView {
        let lock1 = LockRelease::InOperator(f.in_operator);
        let f = FormatterView { in_operator: true, ..f };
        let f = f.with_keyword(Keyword::Export);
        let f = f.with_keyword(Keyword::Default);
        let lock2 = LockRelease::Lookahead(f.lookahead_restriction);
        let f = FormatterView { lookahead_restriction: Some(LookaheadRestriction::ExportDefault), ..f };
        let lock3 = LockRelease::Precedence(f.prec);
        let f = FormatterView { prec: Precedence::Assignment, ..f };
        let f = self.expression.printed(f);
        let f = f.released(lock3);
        let f = f.released(lock2);
        let f = f.with_punctuator(Punctuator::Semicolon);
        let f = f.released(lock1);
        f
    }

    fn fmt(&self, f: &mut NodeFormatter) -> (r: NodeDisplayResult) {
        let lock1 = f.allow_in();
        f.keyword(Keyword::Export);
        f.keyword(Keyword::Default);
        let lock2 = f.restrict_lookahead(LookaheadRestriction::ExportDefault);
        let lock3 = f.require_precedence(Precedence::Assignment);
        let _ = f.node(&self.expression);
        f.release(lock3);
        f.release(lock2);
        f.punctuator(Punctuator::Semicolon);
        f.release(lock1);
        Ok(())
    }
}

/// `export {foo, bar as baz};`
#[derive(Debug)]
pub struct ExportLocalBindings {
    pub specifiers: Vec<LocalExportSpecifier>,
    pub position: Option<Box<NodePosition>>,
}

impl NodeDisplay for ExportLocalBindings {
    open spec fn printed(&self, f: FormatterView) -> FormatterView {
        let f = f.with_keyword(Keyword::Export);
        let f = f.with_curly_list(self.specifiers@);
        let f = f.with_punctuator(Punctuator::Semicolon);
        f
    }

    fn fmt(&self, f: &mut NodeFormatter) -> (r: NodeDisplayResult) {
        f.keyword(Keyword::Export);
        let _ = f.curly_list(self.specifiers.as_slice());
        f.punctuator(Punctuator::Semicolon);
        Ok(())
    }
}

/// `local` or `local as exported` in an export list.
#[derive(Debug)]
pub struct LocalExportSpecifier {
    pub local: BindingIdentifier,
    pub exported: Option<ModuleIdentifier>,
    pub position: Option<Box<NodePosition>>,
}

impl NodeDisplay for LocalExportSpecifier {
    open spec fn printed(&self, f: FormatterView) -> FormatterView {
        let f = self.local.printed(f);
        let f = match self.exported {
            Some(x) => {
                let f = f.with_keyword(Keyword::As);
                let f = x.printed(f);
                f
            },
            None => f,
        };
        f
    }

    fn fmt(&self, f: &mut NodeFormatter) -> (r: NodeDisplayResult) {
        let _ = f.node(&self.local);
        match &self.exported {
            Some(x) => {
                f.keyword(Keyword::As);
                let _ = f.node(x);
            },
            None => {},
        }
        Ok(())
    }
}

/// `export {foo} from "";`
#[derive(Debug)]
pub struct ExportSourceSpecifiers {
    pub specifiers: Vec<SourceExportSpecifier>,
    pub source: String,
    pub position: Option<Box<NodePosition>>,
}

impl NodeDisplay for ExportSourceSpecifiers {
    open spec fn printed(&self, f: FormatterView) -> FormatterView {
        let f = f.with_keyword(Keyword::Export);
        let f = f.with_curly_list(self.specifiers@);
        let f = f.with_keyword(Keyword::From);
        let f = self.source.printed(f);
        let f = f.with_punctuator(Punctuator::Semicolon);
        f
    }

    fn fmt(&self, f: &mut NodeFormatter) -> (r: NodeDisplayResult) {
        f.keyword(Keyword::Export);
        let _ = f.curly_list(self.specifiers.as_slice());
        f.keyword(Keyword::From);
        let _ = f.node(&self.source);
        f.punctuator(Punctuator::Semicolon);
        Ok(())
    }
}

/// `imported` or `imported as exported` in a re-export list.
#[derive(Debug)]
pub struct SourceExportSpecifier {
    pub imported: ModuleIdentifier,
    pub exported: Option<ModuleIdentifier>,
    pub position: Option<Box<NodePosition>>,
}

impl NodeDisplay for SourceExportSpecifier {
    open spec fn printed(&self, f: FormatterView) -> FormatterView {
        let f = self.imported.printed(f);
        let f = match self.exported {
            Some(x) => {
                let f = f.with_keyword(Keyword::As);
                let f = x.printed(f);
                f
            },
            None => f,
        };
        f
    }

    fn fmt(&self, f: &mut NodeFormatter) -> (r: NodeDisplayResult) {
        let _ = f.node(&self.imported);
        match &self.exported {
            Some(x) => {
                f.keyword(Keyword::As);
                let _ = f.node(x);
            },
            None => {},
        }
        Ok(())
    }
}

/// `export * from "";`
#[derive(Debug)]
pub struct ExportAllSpecifiers {
    pub source: String,
    pub position: Option<Box<NodePosition>>,
}

impl NodeDisplay for ExportAllSpecifiers {
    open spec fn printed(&self, f: FormatterView) -> FormatterView {
        let f = f.with_keyword(Keyword::Export);
        let f = f.with_punctuator(Punctuator::Star);
        let f = f.with_keyword(Keyword::From);
        let f = self.source.printed(f);
        let f = f.with_punctuator(Punctuator::Semicolon);
        f
    }

    fn fmt(&self, f: &mut NodeFormatter) -> (r: NodeDisplayResult) {
        f.keyword(Keyword::Export);
        f.punctuator(Punctuator::Star);
        f.keyword(Keyword::From);
        let _ = f.node(&self.source);
        f.punctuator(Punctuator::Semicolon);
        Ok(())
    }
}

/// `export foo from "";`
#[derive(Debug)]
pub struct ExportNamedSpecifier {
    pub default: ModuleIdentifier,
    pub source: String,
    pub position: Option<Box<NodePosition>>,
}

impl NodeDisplay for ExportNamedSpecifier {
    open spec fn printed(&self, f: FormatterView) -> FormatterView {
        let f = f.with_keyword(Keyword::Export);
        let f = self.default.printed(f);
        let f = f.with_keyword(Keyword::From);
        let f = self.source.printed(f);
        let f = f.with_punctuator(Punctuator::Semicolon);
        f
    }

    fn fmt(&self, f: &mut NodeFormatter) -> (r: NodeDisplayResult) {
        f.keyword(Keyword::Export);
        let _ = f.node(&self.default);
        f.keyword(Keyword::From);
        let _ = f.node(&self.source);
        f.punctuator(Punctuator::Semicolon);
        Ok(())
    }
}

/// `export foo, * as bar from "";`
#[derive(Debug)]
pub struct ExportNamedAndNamespace {
    pub default: ModuleIdentifier,
    pub namespace: ModuleIdentifier,
    pub source: String,
    pub position: Option<Box<NodePosition>>,
}

impl NodeDisplay for ExportNamedAndNamespace {
    open spec fn printed(&self, f: FormatterView) -> FormatterView {
        let f = f.with_keyword(Keyword::Export);
        let f = self.default.printed(f);
        let f = f.with_punctuator(Punctuator::Comma);
        let f = f.with_punctuator(Punctuator::Star);
        let f = f.with_keyword(Keyword::As);
        let f = self.namespace.printed(f);
        let f = f.with_keyword(Keyword::From);
        let f = self.source.printed(f);
        let f = f.with_punctuator(Punctuator::Semicolon);
        f
    }

    fn fmt(&self, f: &mut NodeFormatter) -> (r: NodeDisplayResult) {
        f.keyword(Keyword::Export);
        let _ = f.node(&self.default);
        f.punctuator(Punctuator::Comma);
        f.punctuator(Punctuator::Star);
        f.keyword(Keyword::As);
        let _ = f.node(&self.namespace);
        f.keyword(Keyword::From);
        let _ = f.node(&self.source);
        f.punctuator(Punctuator::Semicolon);
        Ok(())
    }
}

/// `export * as foo from "";`
#[derive(Debug)]
pub struct ExportNamespace {
    pub namespace: ModuleIdentifier,
    pub source: String,
    pub position: Option<Box<NodePosition>>,
}

impl NodeDisplay for ExportNamespace {
    open spec fn printed(&self, f: FormatterView) -> FormatterView {
        let f = f.with_keyword(Keyword::Export);
        let f = f.with_punctuator(Punctuator::Star);
        let f = f.with_keyword(Keyword::As);
        let f = self.namespace.printed(f);
        let f = f.with_keyword(Keyword::From);
        let f = self.source.printed(f);
        let f = f.with_punctuator(Punctuator::Semicolon);
        f
    }

    fn fmt(&self, f: &mut NodeFormatter) -> (r: NodeDisplayResult) {
        f.keyword(Keyword::Export);
        f.punctuator(Punctuator::Star);
        f.keyword(Keyword::As);
        let _ = f.node(&self.namespace);
        f.keyword(Keyword::From);
        let _ = f.node(&self.source);
        f.punctuator(Punctuator::Semicolon);
        Ok(())
    }
}

/// `export foo, {bar} from "";`
#[derive(Debug)]
pub struct ExportNamedAndSpecifiers {
    pub default: ModuleIdentifier,
    pub specifiers: Vec<SourceExportSpecifier>,
    pub source: String,
    pub position: Option<Box<NodePosition>>,
}

impl NodeDisplay for ExportNamedAndSpecifiers {
    open spec fn printed(&self, f: FormatterView) -> FormatterView {
        let f = f.with_keyword(Keyword::Export);
        let f = self.default.printed(f);
        let f = f.with_punctuator(Punctuator::Comma);
        let f = f.with_curly_list(self.specifiers@);
        let f = f.with_keyword(Keyword::From);
        let f = self.source.printed(f);
        let f = f.with_punctuator(Punctuator::Semicolon);
        f
    }

    fn fmt(&self, f: &mut NodeFormatter) -> (r: NodeDisplayResult) {
        f.keyword(Keyword::Export);
        let _ = f.node(&self.default);
        f.punctuator(Punctuator::Comma);
        let _ = f.curly_list(self.specifiers.as_slice());
        f.keyword(Keyword::From);
        let _ = f.node(&self.source);
        f.punctuator(Punctuator::Semicolon);
        Ok(())
    }
}

/// `export class Foo {}`
#[derive(Debug)]
pub struct ExportClassDeclaration {
    pub exported: ClassDeclaration,
    pub position: Option<Box<NodePosition>>,
}

impl NodeDisplay for ExportClassDeclaration {
    open spec fn printed(&self, f: FormatterView) -> FormatterView {
        self.exported.printed(f.with_keyword(Keyword::Export))
    }

    fn fmt(&self, f: &mut NodeFormatter) -> (r: NodeDisplayResult) {
        f.keyword(Keyword::Export);
        f.node(&self.exported)
    }
}

/// `export function foo() {}`
#[derive(Debug)]
pub struct ExportFunctionDeclaration {
    pub exported: FunctionDeclaration,
    pub position: Option<Box<NodePosition>>,
}

impl NodeDisplay for ExportFunctionDeclaration {
    open spec fn printed(&self, f: FormatterView) -> FormatterView {
        self.exported.printed(f.with_keyword(Keyword::Export))
    }

    fn fmt(&self, f: &mut NodeFormatter) -> (r: NodeDisplayResult) {
        f.keyword(Keyword::Export);
        f.node(&self.exported)
    }
}

/// `export var foo;`
#[derive(Debug)]
pub struct ExportVarStatement {
    pub exported: VariableStatement,
    pub position: Option<Box<NodePosition>>,
}

impl NodeDisplay for ExportVarStatement {
    open spec fn printed(&self, f: FormatterView) -> FormatterView {
        self.exported.printed(f.with_keyword(Keyword::Export))
    }

    fn fmt(&self, f: &mut NodeFormatter) -> (r: NodeDisplayResult) {
        f.keyword(Keyword::Export);
        f.node(&self.exported)
    }
}

/// `export let foo;`
#[derive(Debug)]
pub struct ExportLetDeclaration {
    pub exported: LetDeclaration,
    pub position: Option<Box<NodePosition>>,
}

impl NodeDisplay for ExportLetDeclaration {
    open spec fn printed(&self, f: FormatterView) -> FormatterView {
        self.exported.printed(f.with_keyword(Keyword::Export))
    }

    fn fmt(&self, f: &mut NodeFormatter) -> (r: NodeDisplayResult) {
        f.keyword(Keyword::Export);
        f.node(&self.exported)
    }
}

/// `export const foo = bar;`
#[derive(Debug)]
pub struct ExportConstDeclaration {
    pub exported: ConstDeclaration,
    pub position: Option<Box<NodePosition>>,
}

impl NodeDisplay for ExportConstDeclaration {
    open spec fn printed(&self, f: FormatterView) -> FormatterView {
        self.exported.printed(f.with_keyword(Keyword::Export))
    }

    fn fmt(&self, f: &mut NodeFormatter) -> (r: NodeDisplayResult) {
        f.keyword(Keyword::Export);
        f.node(&self.exported)
    }
}


/// Printing an import ends with `;`, whatever it holds.
pub proof fn law_import_named_declaration_ends_with_semicolon(e: ImportNamedDeclaration, f: FormatterView)
    ensures
        ({
            let out = e.printed(f).output;
            out.len() >= 1 && out[out.len() - 1] == ';'
        }),
{
    reveal_strlit(";");
}

/// Printing an import ends with `;`, whatever it holds.
pub proof fn law_import_namespace_declaration_ends_with_semicolon(e: ImportNamespaceDeclaration, f: FormatterView)
    ensures
        ({
            let out = e.printed(f).output;
            out.len() >= 1 && out[out.len() - 1] == ';'
        }),
{
    reveal_strlit(";");
}

/// Printing an import ends with `;`, whatever it holds.
pub proof fn law_import_named_and_namespace_declaration_ends_with_semicolon(e: ImportNamedAndNamespaceDeclaration, f: FormatterView)
    ensures
        ({
            let out = e.printed(f).output;
            out.len() >= 1 && out[out.len() - 1] == ';'
        }),
{
    reveal_strlit(";");
}

/// Printing an import ends with `;`, whatever it holds.
pub proof fn law_import_named_and_specifiers_declaration_ends_with_semicolon(e: ImportNamedAndSpecifiersDeclaration, f: FormatterView)
    ensures
        ({
            let out = e.printed(f).output;
            out.len() >= 1 && out[out.len() - 1] == ';'
        }),
{
    reveal_strlit(";");
}

/// Printing an import ends with `;`, whatever it holds.
pub proof fn law_import_specifiers_declaration_ends_with_semicolon(e: ImportSpecifiersDeclaration, f: FormatterView)
    ensures
        ({
            let out = e.printed(f).output;
            out.len() >= 1 && out[out.len() - 1] == ';'
        }),
{
    reveal_strlit(";");
}

/// Printing an export ends with `;`, whatever it holds.
pub proof fn law_export_local_bindings_ends_with_semicolon(e: ExportLocalBindings, f: FormatterView)
    ensures
        ({
            let out = e.printed(f).output;
            out.len() >= 1 && out[out.len() - 1] == ';'
        }),
{
    reveal_strlit(";");
}

/// Printing an export ends with `;`, whatever it holds.
pub proof fn law_export_source_specifiers_ends_with_semicolon(e: ExportSourceSpecifiers, f: FormatterView)
    ensures
        ({
            let out = e.printed(f).output;
            out.len() >= 1 && out[out.len() - 1] == ';'
        }),
{
    reveal_strlit(";");
}

/// Printing an export ends with `;`, whatever it holds.
pub proof fn law_export_all_specifiers_ends_with_semicolon(e: ExportAllSpecifiers, f: FormatterView)
    ensures
        ({
            let out = e.printed(f).output;
            out.len() >= 1 && out[out.len() - 1] == ';'
        }),
{
    reveal_strlit(";");
}

/// Printing an export ends with `;`, whatever it holds.
pub proof fn law_export_named_specifier_ends_with_semicolon(e: ExportNamedSpecifier, f: FormatterView)
    ensures
        ({
            let out = e.printed(f).output;
            out.len() >= 1 && out[out.len() - 1] == ';'
        }),
{
    reveal_strlit(";");
}

/// Printing an export ends with `;`, whatever it holds.
pub proof fn law_export_named_and_namespace_ends_with_semicolon(e: ExportNamedAndNamespace, f: FormatterView)
    ensures
        ({
            let out = e.printed(f).output;
            out.len() >= 1 && out[out.len() - 1] == ';'
        }),
{
    reveal_strlit(";");
}

/// Printing an export ends with `;`, whatever it holds.
pub proof fn law_export_namespace_ends_with_semicolon(e: ExportNamespace, f: FormatterView)
    ensures
        ({
            let out = e.printed(f).output;
            out.len() >= 1 && out[out.len() - 1] == ';'
        }),
{
    reveal_strlit(";");
}

/// Printing an export ends with `;`, whatever it holds.
pub proof fn law_export_named_and_specifiers_ends_with_semicolon(e: ExportNamedAndSpecifiers, f: FormatterView)
    ensures
        ({
            let out = e.printed(f).output;
            out.len() >= 1 && out[out.len() - 1] == ';'
        }),
{
    reveal_strlit(";");
}

/// Printing `export default` with an expression ends with `;`, whatever it holds.
pub proof fn law_export_default_expression_ends_with_semicolon(e: ExportDefaultExpression, f: FormatterView)
    ensures
        ({
            let out = e.printed(f).output;
            out.len() >= 1 && out[out.len() - 1] == ';'
        }),
{
    reveal_strlit(";");
}

} // verus!
