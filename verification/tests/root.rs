use jsparse::ast::alias::{Expression, ModuleStatementItem, StatementItem};
use jsparse::ast::display::NodeDisplay;
use jsparse::ast::functions::Directive;
use jsparse::ast::general::BindingIdentifier;
use jsparse::ast::modules::ExportLocalBindings;
use jsparse::ast::root::{Ast, Module, Script};
use jsparse::ast::statement::ExpressionStatement;

fn some_var() -> ExpressionStatement {
    ExpressionStatement { expression: Expression::Binding(BindingIdentifier::new("someVar")), position: None }
}

#[test]
fn root_it_prints() {
    assert_eq!(Script::default().to_string(), "");
    assert_eq!(Module::default().to_string(), "");
}

#[test]
fn root_it_prints_items() {
    let script = Script {
        directives: vec![Directive::from("use strict")],
        body: vec![StatementItem::Expression(some_var())],
        position: None,
    };
    assert_eq!(script.to_string(), "'use strict';someVar;");
    let module = Module {
        directives: vec![Directive::from("use strict")],
        body: vec![
            ModuleStatementItem::Expression(some_var()),
            ModuleStatementItem::ExportLocalBindings(ExportLocalBindings { specifiers: vec![], position: None }),
        ],
        position: None,
    };
    assert_eq!(module.to_string(), "'use strict';someVar;export{};");
    assert_eq!(Ast::Module(module).to_string(), "'use strict';someVar;export{};");
}
