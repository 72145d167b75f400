//! Operators: before a single value, between two, updates and compound
//! assignments of a target, the conditional and the comma. Their printers stand with the other expression printers.

use vstd::prelude::*;
use crate::ast::NodePosition;
use crate::ast::alias::Expression;
use crate::ast::jsx;
use crate::ast::patterns::LeftHandSimpleAssign;
use crate::ast::display::{
    NodeDisplay, NodeFormatter, NodeDisplayResult, FormatterView, LockRelease, Precedence, Punctuator,
};

verus! {

/// `delete value`
#[derive(Debug)]
pub struct DeleteExpression {
    pub value: Box<Expression>,
    pub position: Option<Box<NodePosition>>,
}

/// `void value`
#[derive(Debug)]
pub struct VoidExpression {
    pub value: Box<Expression>,
    pub position: Option<Box<NodePosition>>,
}

/// `typeof value`
#[derive(Debug)]
pub struct TypeofExpression {
    pub value: Box<Expression>,
    pub position: Option<Box<NodePosition>>,
}

/// `+value`
#[derive(Debug)]
pub struct PositiveExpression {
    pub value: Box<Expression>,
    pub position: Option<Box<NodePosition>>,
}

/// The negative of a value, printed with `!` before it
#[derive(Debug)]
pub struct NegativeExpression {
    pub value: Box<Expression>,
    pub position: Option<Box<NodePosition>>,
}

/// `~value`
#[derive(Debug)]
pub struct BitNegateExpression {
    pub value: Box<Expression>,
    pub position: Option<Box<NodePosition>>,
}

/// `!value`
#[derive(Debug)]
pub struct NegateExpression {
    pub value: Box<Expression>,
    pub position: Option<Box<NodePosition>>,
}

/// `await value`
#[derive(Debug)]
pub struct AwaitExpression {
    pub value: Box<Expression>,
    pub position: Option<Box<NodePosition>>,
}

/// `yield value`
#[derive(Debug)]
pub struct YieldExpression {
    pub value: Box<Expression>,
    pub position: Option<Box<NodePosition>>,
}

/// `yield* value`
#[derive(Debug)]
pub struct DelegateYieldExpression {
    pub value: Box<Expression>,
    pub position: Option<Box<NodePosition>>,
}

/// `::value`
#[derive(Debug)]
pub struct BindMemberExpression {
    pub value: Box<Expression>,
    pub position: Option<Box<NodePosition>>,
}

/// `left + right`
#[derive(Debug)]
pub struct AddExpression {
    pub left: Box<Expression>,
    pub right: Box<Expression>,
    pub position: Option<Box<NodePosition>>,
}

/// `left - right`
#[derive(Debug)]
pub struct SubtractExpression {
    pub left: Box<Expression>,
    pub right: Box<Expression>,
    pub position: Option<Box<NodePosition>>,
}

/// `left << right`
#[derive(Debug)]
pub struct LeftShiftExpression {
    pub left: Box<Expression>,
    pub right: Box<Expression>,
    pub position: Option<Box<NodePosition>>,
}

/// `left >> right`
#[derive(Debug)]
pub struct RightShiftExpression {
    pub left: Box<Expression>,
    pub right: Box<Expression>,
    pub position: Option<Box<NodePosition>>,
}

/// `left >>> right`
#[derive(Debug)]
pub struct RightShiftSignedExpression {
    pub left: Box<Expression>,
    pub right: Box<Expression>,
    pub position: Option<Box<NodePosition>>,
}

/// `left / right`
#[derive(Debug)]
pub struct DivideExpression {
    pub left: Box<Expression>,
    pub right: Box<Expression>,
    pub position: Option<Box<NodePosition>>,
}

/// `left * right`
#[derive(Debug)]
pub struct MultiplyExpression {
    pub left: Box<Expression>,
    pub right: Box<Expression>,
    pub position: Option<Box<NodePosition>>,
}

/// `left % right`
#[derive(Debug)]
pub struct ModulusExpression {
    pub left: Box<Expression>,
    pub right: Box<Expression>,
    pub position: Option<Box<NodePosition>>,
}

/// `left & right`
#[derive(Debug)]
pub struct BitAndExpression {
    pub left: Box<Expression>,
    pub right: Box<Expression>,
    pub position: Option<Box<NodePosition>>,
}

/// `left | right`
#[derive(Debug)]
pub struct BitOrExpression {
    pub left: Box<Expression>,
    pub right: Box<Expression>,
    pub position: Option<Box<NodePosition>>,
}

/// `left ^ right`
#[derive(Debug)]
pub struct BitXorExpression {
    pub left: Box<Expression>,
    pub right: Box<Expression>,
    pub position: Option<Box<NodePosition>>,
}

/// `left ** right`
#[derive(Debug)]
pub struct PowerExpression {
    pub left: Box<Expression>,
    pub right: Box<Expression>,
    pub position: Option<Box<NodePosition>>,
}

/// `left == right`
#[derive(Debug)]
pub struct EqualExpression {
    pub left: Box<Expression>,
    pub right: Box<Expression>,
    pub position: Option<Box<NodePosition>>,
}

/// `left === right`
#[derive(Debug)]
pub struct StrictEqualExpression {
    pub left: Box<Expression>,
    pub right: Box<Expression>,
    pub position: Option<Box<NodePosition>>,
}

/// `left != right`
#[derive(Debug)]
pub struct NotEqualExpression {
    pub left: Box<Expression>,
    pub right: Box<Expression>,
    pub position: Option<Box<NodePosition>>,
}

/// `left !== right`
#[derive(Debug)]
pub struct StrictNotEqualExpression {
    pub left: Box<Expression>,
    pub right: Box<Expression>,
    pub position: Option<Box<NodePosition>>,
}

/// `left < right`
#[derive(Debug)]
pub struct LessThanExpression {
    pub left: Box<Expression>,
    pub right: Box<Expression>,
    pub position: Option<Box<NodePosition>>,
}

/// `left <= right`
#[derive(Debug)]
pub struct LessThanEqualExpression {
    pub left: Box<Expression>,
    pub right: Box<Expression>,
    pub position: Option<Box<NodePosition>>,
}

/// `left > right`
#[derive(Debug)]
pub struct GreatherThanExpression {
    pub left: Box<Expression>,
    pub right: Box<Expression>,
    pub position: Option<Box<NodePosition>>,
}

/// `left >= right`
#[derive(Debug)]
pub struct GreaterThanEqualExpression {
    pub left: Box<Expression>,
    pub right: Box<Expression>,
    pub position: Option<Box<NodePosition>>,
}

/// `left in right`, in parentheses where `in` may not stand
#[derive(Debug)]
pub struct InExpression {
    pub left: Box<Expression>,
    pub right: Box<Expression>,
    pub position: Option<Box<NodePosition>>,
}

/// `left instanceof right`
#[derive(Debug)]
pub struct InstanceofExpression {
    pub left: Box<Expression>,
    pub right: Box<Expression>,
    pub position: Option<Box<NodePosition>>,
}

/// `left && right`
#[derive(Debug)]
pub struct AndExpression {
    pub left: Box<Expression>,
    pub right: Box<Expression>,
    pub position: Option<Box<NodePosition>>,
}

/// `left || right`
#[derive(Debug)]
pub struct OrExpression {
    pub left: Box<Expression>,
    pub right: Box<Expression>,
    pub position: Option<Box<NodePosition>>,
}

/// `left::right`
#[derive(Debug)]
pub struct BindExpression {
    pub left: Box<Expression>,
    pub right: Box<Expression>,
    pub position: Option<Box<NodePosition>>,
}

/// `test ? consequent : alternate`
#[derive(Debug)]
pub struct ConditionalExpression {
    pub test: Box<Expression>,
    pub consequent: Box<Expression>,
    pub alternate: Box<Expression>,
    pub position: Option<Box<NodePosition>>,
}

/// `left, right`
#[derive(Debug)]
pub struct SequenceExpression {
    pub left: Box<Expression>,
    pub right: Box<Expression>,
    pub position: Option<Box<NodePosition>>,
}

/// An operator before a single value.
#[derive(Debug)]
pub enum UnaryExpression {
    Delete(DeleteExpression),
    Void(VoidExpression),
    Typeof(TypeofExpression),
    Positive(PositiveExpression),
    Negative(NegativeExpression),
    BitNegate(BitNegateExpression),
    Negate(NegateExpression),
    Await(AwaitExpression),
    Yield(YieldExpression),
    DelegateYield(DelegateYieldExpression),
    BindMember(BindMemberExpression),
}

/// An operator between two values.
#[derive(Debug)]
pub enum BinaryExpression {
    Add(AddExpression),
    Subtract(SubtractExpression),
    LeftShift(LeftShiftExpression),
    RightShift(RightShiftExpression),
    RightShiftSigned(RightShiftSignedExpression),
    Divide(DivideExpression),
    Multiply(MultiplyExpression),
    Modulus(ModulusExpression),
    BitAnd(BitAndExpression),
    BitOr(BitOrExpression),
    BitXor(BitXorExpression),
    Power(PowerExpression),
    Equal(EqualExpression),
    StrictEqual(StrictEqualExpression),
    NotEqual(NotEqualExpression),
    StrictNotEqual(StrictNotEqualExpression),
    LessThan(LessThanExpression),
    LessThanEqual(LessThanEqualExpression),
    GreatherThan(GreatherThanExpression),
    GreaterThanEqual(GreaterThanEqualExpression),
    In(InExpression),
    Instanceof(InstanceofExpression),
    And(AndExpression),
    Or(OrExpression),
    Bind(BindExpression),
}

impl NodeDisplay for DeleteExpression {
    open spec fn printed(&self, f: FormatterView) -> FormatterView {
        jsx::delete_expression_printed(*self, f)
    }

    fn fmt(&self, f: &mut NodeFormatter) -> (r: NodeDisplayResult) {
        jsx::print_delete_expression(self, f);
        Ok(())
    }
}

impl NodeDisplay for VoidExpression {
    open spec fn printed(&self, f: FormatterView) -> FormatterView {
        jsx::void_expression_printed(*self, f)
    }

    fn fmt(&self, f: &mut NodeFormatter) -> (r: NodeDisplayResult) {
        jsx::print_void_expression(self, f);
        Ok(())
    }
}

impl NodeDisplay for TypeofExpression {
    open spec fn printed(&self, f: FormatterView) -> FormatterView {
        jsx::typeof_expression_printed(*self, f)
    }

    fn fmt(&self, f: &mut NodeFormatter) -> (r: NodeDisplayResult) {
        jsx::print_typeof_expression(self, f);
        Ok(())
    }
}

impl NodeDisplay for PositiveExpression {
    open spec fn printed(&self, f: FormatterView) -> FormatterView {
        jsx::positive_expression_printed(*self, f)
    }

    fn fmt(&self, f: &mut NodeFormatter) -> (r: NodeDisplayResult) {
        jsx::print_positive_expression(self, f);
        Ok(())
    }
}

impl NodeDisplay for NegativeExpression {
    open spec fn printed(&self, f: FormatterView) -> FormatterView {
        jsx::negative_expression_printed(*self, f)
    }

    fn fmt(&self, f: &mut NodeFormatter) -> (r: NodeDisplayResult) {
        jsx::print_negative_expression(self, f);
        Ok(())
    }
}

impl NodeDisplay for BitNegateExpression {
    open spec fn printed(&self, f: FormatterView) -> FormatterView {
        jsx::bit_negate_expression_printed(*self, f)
    }

    fn fmt(&self, f: &mut NodeFormatter) -> (r: NodeDisplayResult) {
        jsx::print_bit_negate_expression(self, f);
        Ok(())
    }
}

impl NodeDisplay for NegateExpression {
    open spec fn printed(&self, f: FormatterView) -> FormatterView {
        jsx::negate_expression_printed(*self, f)
    }

    fn fmt(&self, f: &mut NodeFormatter) -> (r: NodeDisplayResult) {
        jsx::print_negate_expression(self, f);
        Ok(())
    }
}

impl NodeDisplay for AwaitExpression {
    open spec fn printed(&self, f: FormatterView) -> FormatterView {
        jsx::await_expression_printed(*self, f)
    }

    fn fmt(&self, f: &mut NodeFormatter) -> (r: NodeDisplayResult) {
        jsx::print_await_expression(self, f);
        Ok(())
    }
}

impl NodeDisplay for YieldExpression {
    open spec fn printed(&self, f: FormatterView) -> FormatterView {
        jsx::yield_expression_printed(*self, f)
    }

    fn fmt(&self, f: &mut NodeFormatter) -> (r: NodeDisplayResult) {
        jsx::print_yield_expression(self, f);
        Ok(())
    }
}

impl NodeDisplay for DelegateYieldExpression {
    open spec fn printed(&self, f: FormatterView) -> FormatterView {
        jsx::delegate_yield_expression_printed(*self, f)
    }

    fn fmt(&self, f: &mut NodeFormatter) -> (r: NodeDisplayResult) {
        jsx::print_delegate_yield_expression(self, f);
        Ok(())
    }
}

impl NodeDisplay for BindMemberExpression {
    open spec fn printed(&self, f: FormatterView) -> FormatterView {
        jsx::bind_member_expression_printed(*self, f)
    }

    fn fmt(&self, f: &mut NodeFormatter) -> (r: NodeDisplayResult) {
        jsx::print_bind_member_expression(self, f);
        Ok(())
    }
}

impl NodeDisplay for AddExpression {
    open spec fn printed(&self, f: FormatterView) -> FormatterView {
        jsx::add_expression_printed(*self, f)
    }

    fn fmt(&self, f: &mut NodeFormatter) -> (r: NodeDisplayResult) {
        jsx::print_add_expression(self, f);
        Ok(())
    }
}

impl NodeDisplay for SubtractExpression {
    open spec fn printed(&self, f: FormatterView) -> FormatterView {
        jsx::subtract_expression_printed(*self, f)
    }

    fn fmt(&self, f: &mut NodeFormatter) -> (r: NodeDisplayResult) {
        jsx::print_subtract_expression(self, f);
        Ok(())
    }
}

impl NodeDisplay for LeftShiftExpression {
    open spec fn printed(&self, f: FormatterView) -> FormatterView {
        jsx::left_shift_expression_printed(*self, f)
    }

    fn fmt(&self, f: &mut NodeFormatter) -> (r: NodeDisplayResult) {
        jsx::print_left_shift_expression(self, f);
        Ok(())
    }
}

impl NodeDisplay for RightShiftExpression {
    open spec fn printed(&self, f: FormatterView) -> FormatterView {
        jsx::right_shift_expression_printed(*self, f)
    }

    fn fmt(&self, f: &mut NodeFormatter) -> (r: NodeDisplayResult) {
        jsx::print_right_shift_expression(self, f);
        Ok(())
    }
}

impl NodeDisplay for RightShiftSignedExpression {
    open spec fn printed(&self, f: FormatterView) -> FormatterView {
        jsx::right_shift_signed_expression_printed(*self, f)
    }

    fn fmt(&self, f: &mut NodeFormatter) -> (r: NodeDisplayResult) {
        jsx::print_right_shift_signed_expression(self, f);
        Ok(())
    }
}

impl NodeDisplay for DivideExpression {
    open spec fn printed(&self, f: FormatterView) -> FormatterView {
        jsx::divide_expression_printed(*self, f)
    }

    fn fmt(&self, f: &mut NodeFormatter) -> (r: NodeDisplayResult) {
        jsx::print_divide_expression(self, f);
        Ok(())
    }
}

impl NodeDisplay for MultiplyExpression {
    open spec fn printed(&self, f: FormatterView) -> FormatterView {
        jsx::multiply_expression_printed(*self, f)
    }

    fn fmt(&self, f: &mut NodeFormatter) -> (r: NodeDisplayResult) {
        jsx::print_multiply_expression(self, f);
        Ok(())
    }
}

impl NodeDisplay for ModulusExpression {
    open spec fn printed(&self, f: FormatterView) -> FormatterView {
        jsx::modulus_expression_printed(*self, f)
    }

    fn fmt(&self, f: &mut NodeFormatter) -> (r: NodeDisplayResult) {
        jsx::print_modulus_expression(self, f);
        Ok(())
    }
}

impl NodeDisplay for BitAndExpression {
    open spec fn printed(&self, f: FormatterView) -> FormatterView {
        jsx::bit_and_expression_printed(*self, f)
    }

    fn fmt(&self, f: &mut NodeFormatter) -> (r: NodeDisplayResult) {
        jsx::print_bit_and_expression(self, f);
        Ok(())
    }
}

impl NodeDisplay for BitOrExpression {
    open spec fn printed(&self, f: FormatterView) -> FormatterView {
        jsx::bit_or_expression_printed(*self, f)
    }

    fn fmt(&self, f: &mut NodeFormatter) -> (r: NodeDisplayResult) {
        jsx::print_bit_or_expression(self, f);
        Ok(())
    }
}

impl NodeDisplay for BitXorExpression {
    open spec fn printed(&self, f: FormatterView) -> FormatterView {
        jsx::bit_xor_expression_printed(*self, f)
    }

    fn fmt(&self, f: &mut NodeFormatter) -> (r: NodeDisplayResult) {
        jsx::print_bit_xor_expression(self, f);
        Ok(())
    }
}

impl NodeDisplay for PowerExpression {
    open spec fn printed(&self, f: FormatterView) -> FormatterView {
        jsx::power_expression_printed(*self, f)
    }

    fn fmt(&self, f: &mut NodeFormatter) -> (r: NodeDisplayResult) {
        jsx::print_power_expression(self, f);
        Ok(())
    }
}

impl NodeDisplay for EqualExpression {
    open spec fn printed(&self, f: FormatterView) -> FormatterView {
        jsx::equal_expression_printed(*self, f)
    }

    fn fmt(&self, f: &mut NodeFormatter) -> (r: NodeDisplayResult) {
        jsx::print_equal_expression(self, f);
        Ok(())
    }
}

impl NodeDisplay for StrictEqualExpression {
    open spec fn printed(&self, f: FormatterView) -> FormatterView {
        jsx::strict_equal_expression_printed(*self, f)
    }

    fn fmt(&self, f: &mut NodeFormatter) -> (r: NodeDisplayResult) {
        jsx::print_strict_equal_expression(self, f);
        Ok(())
    }
}

impl NodeDisplay for NotEqualExpression {
    open spec fn printed(&self, f: FormatterView) -> FormatterView {
        jsx::not_equal_expression_printed(*self, f)
    }

    fn fmt(&self, f: &mut NodeFormatter) -> (r: NodeDisplayResult) {
        jsx::print_not_equal_expression(self, f);
        Ok(())
    }
}

impl NodeDisplay for StrictNotEqualExpression {
    open spec fn printed(&self, f: FormatterView) -> FormatterView {
        jsx::strict_not_equal_expression_printed(*self, f)
    }

    fn fmt(&self, f: &mut NodeFormatter) -> (r: NodeDisplayResult) {
        jsx::print_strict_not_equal_expression(self, f);
        Ok(())
    }
}

impl NodeDisplay for LessThanExpression {
    open spec fn printed(&self, f: FormatterView) -> FormatterView {
        jsx::less_than_expression_printed(*self, f)
    }

    fn fmt(&self, f: &mut NodeFormatter) -> (r: NodeDisplayResult) {
        jsx::print_less_than_expression(self, f);
        Ok(())
    }
}

impl NodeDisplay for LessThanEqualExpression {
    open spec fn printed(&self, f: FormatterView) -> FormatterView {
        jsx::less_than_equal_expression_printed(*self, f)
    }

    fn fmt(&self, f: &mut NodeFormatter) -> (r: NodeDisplayResult) {
        jsx::print_less_than_equal_expression(self, f);
        Ok(())
    }
}

impl NodeDisplay for GreatherThanExpression {
    open spec fn printed(&self, f: FormatterView) -> FormatterView {
        jsx::greather_than_expression_printed(*self, f)
    }

    fn fmt(&self, f: &mut NodeFormatter) -> (r: NodeDisplayResult) {
        jsx::print_greather_than_expression(self, f);
        Ok(())
    }
}

impl NodeDisplay for GreaterThanEqualExpression {
    open spec fn printed(&self, f: FormatterView) -> FormatterView {
        jsx::greater_than_equal_expression_printed(*self, f)
    }

    fn fmt(&self, f: &mut NodeFormatter) -> (r: NodeDisplayResult) {
        jsx::print_greater_than_equal_expression(self, f);
        Ok(())
    }
}

impl NodeDisplay for InExpression {
    open spec fn printed(&self, f: FormatterView) -> FormatterView {
        jsx::in_expression_printed(*self, f)
    }

    fn fmt(&self, f: &mut NodeFormatter) -> (r: NodeDisplayResult) {
        jsx::print_in_expression(self, f);
        Ok(())
    }
}

impl NodeDisplay for InstanceofExpression {
    open spec fn printed(&self, f: FormatterView) -> FormatterView {
        jsx::instanceof_expression_printed(*self, f)
    }

    fn fmt(&self, f: &mut NodeFormatter) -> (r: NodeDisplayResult) {
        jsx::print_instanceof_expression(self, f);
        Ok(())
    }
}

impl NodeDisplay for AndExpression {
    open spec fn printed(&self, f: FormatterView) -> FormatterView {
        jsx::and_expression_printed(*self, f)
    }

    fn fmt(&self, f: &mut NodeFormatter) -> (r: NodeDisplayResult) {
        jsx::print_and_expression(self, f);
        Ok(())
    }
}

impl NodeDisplay for OrExpression {
    open spec fn printed(&self, f: FormatterView) -> FormatterView {
        jsx::or_expression_printed(*self, f)
    }

    fn fmt(&self, f: &mut NodeFormatter) -> (r: NodeDisplayResult) {
        jsx::print_or_expression(self, f);
        Ok(())
    }
}

impl NodeDisplay for BindExpression {
    open spec fn printed(&self, f: FormatterView) -> FormatterView {
        jsx::bind_expression_printed(*self, f)
    }

    fn fmt(&self, f: &mut NodeFormatter) -> (r: NodeDisplayResult) {
        jsx::print_bind_expression(self, f);
        Ok(())
    }
}

impl NodeDisplay for ConditionalExpression {
    open spec fn printed(&self, f: FormatterView) -> FormatterView {
        jsx::conditional_expression_printed(*self, f)
    }

    fn fmt(&self, f: &mut NodeFormatter) -> (r: NodeDisplayResult) {
        jsx::print_conditional_expression(self, f);
        Ok(())
    }
}

impl NodeDisplay for SequenceExpression {
    open spec fn printed(&self, f: FormatterView) -> FormatterView {
        jsx::sequence_expression_printed(*self, f)
    }

    fn fmt(&self, f: &mut NodeFormatter) -> (r: NodeDisplayResult) {
        jsx::print_sequence_expression(self, f);
        Ok(())
    }
}

impl NodeDisplay for UnaryExpression {
    open spec fn printed(&self, f: FormatterView) -> FormatterView {
        jsx::unary_expression_printed(*self, f)
    }

    fn fmt(&self, f: &mut NodeFormatter) -> (r: NodeDisplayResult) {
        jsx::print_unary_expression(self, f);
        Ok(())
    }
}

impl NodeDisplay for BinaryExpression {
    open spec fn printed(&self, f: FormatterView) -> FormatterView {
        jsx::binary_expression_printed(*self, f)
    }

    fn fmt(&self, f: &mut NodeFormatter) -> (r: NodeDisplayResult) {
        jsx::print_binary_expression(self, f);
        Ok(())
    }
}

/// `value++`
#[derive(Debug)]
pub struct PostIncrementExpression {
    pub value: LeftHandSimpleAssign,
    pub position: Option<Box<NodePosition>>,
}

/// `value--`
#[derive(Debug)]
pub struct PostDecrementExpression {
    pub value: LeftHandSimpleAssign,
    pub position: Option<Box<NodePosition>>,
}

/// `++value`
#[derive(Debug)]
pub struct PreIncrementExpression {
    pub value: LeftHandSimpleAssign,
    pub position: Option<Box<NodePosition>>,
}

/// `--value`
#[derive(Debug)]
pub struct PreDecrementExpression {
    pub value: LeftHandSimpleAssign,
    pub position: Option<Box<NodePosition>>,
}

/// `++` or `--` before or after a target.
#[derive(Debug)]
pub enum UpdateExpression {
    PostIncrement(PostIncrementExpression),
    PostDecrement(PostDecrementExpression),
    PreIncrement(PreIncrementExpression),
    PreDecrement(PreDecrementExpression),
}

/// `target += value`
#[derive(Debug)]
pub struct AddAssignExpression {
    pub left: Box<LeftHandSimpleAssign>,
    pub right: Box<Expression>,
    pub position: Option<Box<NodePosition>>,
}

/// `target -= value`
#[derive(Debug)]
pub struct SubtractAssignExpression {
    pub left: Box<LeftHandSimpleAssign>,
    pub right: Box<Expression>,
    pub position: Option<Box<NodePosition>>,
}

/// `target <<= value`
#[derive(Debug)]
pub struct LeftShiftAssignExpression {
    pub left: Box<LeftHandSimpleAssign>,
    pub right: Box<Expression>,
    pub position: Option<Box<NodePosition>>,
}

/// `target >>= value`
#[derive(Debug)]
pub struct RightShiftAssignExpression {
    pub left: Box<LeftHandSimpleAssign>,
    pub right: Box<Expression>,
    pub position: Option<Box<NodePosition>>,
}

/// `target >>>= value`
#[derive(Debug)]
pub struct RightShiftSignedAssignExpression {
    pub left: Box<LeftHandSimpleAssign>,
    pub right: Box<Expression>,
    pub position: Option<Box<NodePosition>>,
}

/// `target /= value`
#[derive(Debug)]
pub struct DivideAssignExpression {
    pub left: Box<LeftHandSimpleAssign>,
    pub right: Box<Expression>,
    pub position: Option<Box<NodePosition>>,
}

/// `target *= value`
#[derive(Debug)]
pub struct MultipleAssignExpression {
    pub left: Box<LeftHandSimpleAssign>,
    pub right: Box<Expression>,
    pub position: Option<Box<NodePosition>>,
}

/// `target %= value`
#[derive(Debug)]
pub struct ModulusAssignExpression {
    pub left: Box<LeftHandSimpleAssign>,
    pub right: Box<Expression>,
    pub position: Option<Box<NodePosition>>,
}

/// `target &= value`
#[derive(Debug)]
pub struct BitAndAssignExpression {
    pub left: Box<LeftHandSimpleAssign>,
    pub right: Box<Expression>,
    pub position: Option<Box<NodePosition>>,
}

/// `target |= value`
#[derive(Debug)]
pub struct BitOrAssignExpression {
    pub left: Box<LeftHandSimpleAssign>,
    pub right: Box<Expression>,
    pub position: Option<Box<NodePosition>>,
}

/// `target ^= value`
#[derive(Debug)]
pub struct BitXorAssignExpression {
    pub left: Box<LeftHandSimpleAssign>,
    pub right: Box<Expression>,
    pub position: Option<Box<NodePosition>>,
}

/// `target **= value`
#[derive(Debug)]
pub struct PowerAssignExpression {
    pub left: Box<LeftHandSimpleAssign>,
    pub right: Box<Expression>,
    pub position: Option<Box<NodePosition>>,
}

/// An assignment that combines the target with the value.
#[derive(Debug)]
pub enum AssignmentUpdateExpression {
    Add(AddAssignExpression),
    Subtract(SubtractAssignExpression),
    LeftShift(LeftShiftAssignExpression),
    RightShift(RightShiftAssignExpression),
    RightShiftSigned(RightShiftSignedAssignExpression),
    Divide(DivideAssignExpression),
    Multiple(MultipleAssignExpression),
    Modulus(ModulusAssignExpression),
    BitAnd(BitAndAssignExpression),
    BitOr(BitOrAssignExpression),
    BitXor(BitXorAssignExpression),
    Power(PowerAssignExpression),
}

impl NodeDisplay for PostIncrementExpression {
    open spec fn printed(&self, f: FormatterView) -> FormatterView {
        let lock = LockRelease::Precedence(f.prec);
        self.value.printed(FormatterView { prec: Precedence::LeftHand, ..f }).released(lock).with_punctuator(Punctuator::PlusPlus)
    }

    fn fmt(&self, f: &mut NodeFormatter) -> (r: NodeDisplayResult) {
        let lock = f.require_precedence(Precedence::LeftHand);
        let _ = f.node(&self.value);
        f.release(lock);
        f.punctuator(Punctuator::PlusPlus);
        Ok(())
    }
}

impl NodeDisplay for PostDecrementExpression {
    open spec fn printed(&self, f: FormatterView) -> FormatterView {
        let lock = LockRelease::Precedence(f.prec);
        self.value.printed(FormatterView { prec: Precedence::LeftHand, ..f }).released(lock).with_punctuator(Punctuator::MinusMinus)
    }

    fn fmt(&self, f: &mut NodeFormatter) -> (r: NodeDisplayResult) {
        let lock = f.require_precedence(Precedence::LeftHand);
        let _ = f.node(&self.value);
        f.release(lock);
        f.punctuator(Punctuator::MinusMinus);
        Ok(())
    }
}

impl NodeDisplay for PreIncrementExpression {
    open spec fn printed(&self, f: FormatterView) -> FormatterView {
        let f = f.with_punctuator(Punctuator::PlusPlus);
        let lock = LockRelease::Precedence(f.prec);
        self.value.printed(FormatterView { prec: Precedence::Unary, ..f }).released(lock)
    }

    fn fmt(&self, f: &mut NodeFormatter) -> (r: NodeDisplayResult) {
        f.punctuator(Punctuator::PlusPlus);
        let lock = f.require_precedence(Precedence::Unary);
        let _ = f.node(&self.value);
        f.release(lock);
        Ok(())
    }
}

impl NodeDisplay for PreDecrementExpression {
    open spec fn printed(&self, f: FormatterView) -> FormatterView {
        let f = f.with_punctuator(Punctuator::MinusMinus);
        let lock = LockRelease::Precedence(f.prec);
        self.value.printed(FormatterView { prec: Precedence::Unary, ..f }).released(lock)
    }

    fn fmt(&self, f: &mut NodeFormatter) -> (r: NodeDisplayResult) {
        f.punctuator(Punctuator::MinusMinus);
        let lock = f.require_precedence(Precedence::Unary);
        let _ = f.node(&self.value);
        f.release(lock);
        Ok(())
    }
}

impl NodeDisplay for UpdateExpression {
    open spec fn printed(&self, f: FormatterView) -> FormatterView {
        match self {
            UpdateExpression::PostIncrement(x) => x.printed(f),
            UpdateExpression::PostDecrement(x) => x.printed(f),
            UpdateExpression::PreIncrement(x) => x.printed(f),
            UpdateExpression::PreDecrement(x) => x.printed(f),
        }
    }

    fn fmt(&self, f: &mut NodeFormatter) -> (r: NodeDisplayResult) {
        match self {
            UpdateExpression::PostIncrement(x) => x.fmt(f),
            UpdateExpression::PostDecrement(x) => x.fmt(f),
            UpdateExpression::PreIncrement(x) => x.fmt(f),
            UpdateExpression::PreDecrement(x) => x.fmt(f),
        }
    }
}

impl NodeDisplay for AddAssignExpression {
    open spec fn printed(&self, f: FormatterView) -> FormatterView {
        jsx::add_assign_expression_printed(*self, f)
    }

    fn fmt(&self, f: &mut NodeFormatter) -> (r: NodeDisplayResult) {
        jsx::print_add_assign_expression(self, f);
        Ok(())
    }
}

impl NodeDisplay for SubtractAssignExpression {
    open spec fn printed(&self, f: FormatterView) -> FormatterView {
        jsx::subtract_assign_expression_printed(*self, f)
    }

    fn fmt(&self, f: &mut NodeFormatter) -> (r: NodeDisplayResult) {
        jsx::print_subtract_assign_expression(self, f);
        Ok(())
    }
}

impl NodeDisplay for LeftShiftAssignExpression {
    open spec fn printed(&self, f: FormatterView) -> FormatterView {
        jsx::left_shift_assign_expression_printed(*self, f)
    }

    fn fmt(&self, f: &mut NodeFormatter) -> (r: NodeDisplayResult) {
        jsx::print_left_shift_assign_expression(self, f);
        Ok(())
    }
}

impl NodeDisplay for RightShiftAssignExpression {
    open spec fn printed(&self, f: FormatterView) -> FormatterView {
        jsx::right_shift_assign_expression_printed(*self, f)
    }

    fn fmt(&self, f: &mut NodeFormatter) -> (r: NodeDisplayResult) {
        jsx::print_right_shift_assign_expression(self, f);
        Ok(())
    }
}

impl NodeDisplay for RightShiftSignedAssignExpression {
    open spec fn printed(&self, f: FormatterView) -> FormatterView {
        jsx::right_shift_signed_assign_expression_printed(*self, f)
    }

    fn fmt(&self, f: &mut NodeFormatter) -> (r: NodeDisplayResult) {
        jsx::print_right_shift_signed_assign_expression(self, f);
        Ok(())
    }
}

impl NodeDisplay for DivideAssignExpression {
    open spec fn printed(&self, f: FormatterView) -> FormatterView {
        jsx::divide_assign_expression_printed(*self, f)
    }

    fn fmt(&self, f: &mut NodeFormatter) -> (r: NodeDisplayResult) {
        jsx::print_divide_assign_expression(self, f);
        Ok(())
    }
}

impl NodeDisplay for MultipleAssignExpression {
    open spec fn printed(&self, f: FormatterView) -> FormatterView {
        jsx::multiple_assign_expression_printed(*self, f)
    }

    fn fmt(&self, f: &mut NodeFormatter) -> (r: NodeDisplayResult) {
        jsx::print_multiple_assign_expression(self, f);
        Ok(())
    }
}

impl NodeDisplay for ModulusAssignExpression {
    open spec fn printed(&self, f: FormatterView) -> FormatterView {
        jsx::modulus_assign_expression_printed(*self, f)
    }

    fn fmt(&self, f: &mut NodeFormatter) -> (r: NodeDisplayResult) {
        jsx::print_modulus_assign_expression(self, f);
        Ok(())
    }
}

impl NodeDisplay for BitAndAssignExpression {
    open spec fn printed(&self, f: FormatterView) -> FormatterView {
        jsx::bit_and_assign_expression_printed(*self, f)
    }

    fn fmt(&self, f: &mut NodeFormatter) -> (r: NodeDisplayResult) {
        jsx::print_bit_and_assign_expression(self, f);
        Ok(())
    }
}

impl NodeDisplay for BitOrAssignExpression {
    open spec fn printed(&self, f: FormatterView) -> FormatterView {
        jsx::bit_or_assign_expression_printed(*self, f)
    }

    fn fmt(&self, f: &mut NodeFormatter) -> (r: NodeDisplayResult) {
        jsx::print_bit_or_assign_expression(self, f);
        Ok(())
    }
}

impl NodeDisplay for BitXorAssignExpression {
    open spec fn printed(&self, f: FormatterView) -> FormatterView {
        jsx::bit_xor_assign_expression_printed(*self, f)
    }

    fn fmt(&self, f: &mut NodeFormatter) -> (r: NodeDisplayResult) {
        jsx::print_bit_xor_assign_expression(self, f);
        Ok(())
    }
}

impl NodeDisplay for PowerAssignExpression {
    open spec fn printed(&self, f: FormatterView) -> FormatterView {
        jsx::power_assign_expression_printed(*self, f)
    }

    fn fmt(&self, f: &mut NodeFormatter) -> (r: NodeDisplayResult) {
        jsx::print_power_assign_expression(self, f);
        Ok(())
    }
}

impl NodeDisplay for AssignmentUpdateExpression {
    open spec fn printed(&self, f: FormatterView) -> FormatterView {
        jsx::assignment_update_expression_printed(*self, f)
    }

    fn fmt(&self, f: &mut NodeFormatter) -> (r: NodeDisplayResult) {
        jsx::print_assignment_update_expression(self, f);
        Ok(())
    }
}

/// Printing `value++` ends with the two characters `++` after what came
/// before, whatever the target prints.
pub proof fn law_post_increment_ends_with_plus_plus(e: PostIncrementExpression, f: FormatterView)
    ensures
        ({
            let out = e.printed(f).output;
            out.len() >= 2 && out[out.len() - 2] == '+' && out[out.len() - 1] == '+'
        }),
{
    reveal_strlit("++");
}

/// Printing `value--` ends with the two characters `--` after what came
/// before, whatever the target prints.
pub proof fn law_post_decrement_ends_with_minus_minus(e: PostDecrementExpression, f: FormatterView)
    ensures
        ({
            let out = e.printed(f).output;
            out.len() >= 2 && out[out.len() - 2] == '-' && out[out.len() - 1] == '-'
        }),
{
    reveal_strlit("--");
}

} // verus!
