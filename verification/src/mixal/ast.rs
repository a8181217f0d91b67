//! The tree that the parser builds: statements, W-values and expressions.

use vstd::prelude::*;

use super::lexer::Token;

verus! {

/// A number as it stands in the source.
#[derive(Debug, Clone)]
pub struct Number {
    pub value: usize,
}

/// The asterisk as an atom: the value of the location counter.
#[derive(Debug, Clone)]
pub struct Asterisk {}

/// A symbol by its name.
#[derive(Debug, Clone)]
pub struct Symbol {
    pub name: String,
}

/// A literal constant: an expression between two `=`.
#[derive(Debug)]
pub struct LiteralConstant {
    pub value: Box<Node>,
}

/// An operator applied to what stands left of it, if anything does, and to
/// the atom right of it.
#[derive(Debug)]
pub struct Expression {
    pub left: Option<Box<Node>>,
    pub operator: Token,
    pub right: Box<Node>,
}

/// A node of an expression.
#[derive(Debug)]
pub enum Node {
    Number(Number),
    Asterisk(Asterisk),
    Symbol(Symbol),
    LiteralConstant(LiteralConstant),
    Expression(Expression),
}

/// One part of a W-value: an expression and, in parentheses, the field that
/// it fills.
#[derive(Debug)]
pub struct WValuePart {
    pub expression: Box<Node>,
    pub f_part: Option<Box<Node>>,
}

/// A W-value: one or more parts between commas.
#[derive(Debug)]
pub struct WValue {
    pub parts: Vec<WValuePart>,
}

/// A statement for an operation of the machine.
#[derive(Debug)]
pub struct MixStatement {
    pub symbol: Option<Symbol>,
    pub op: String,
    pub a_part: Option<Box<Node>>,
    pub index_part: Option<Box<Node>>,
    pub f_part: Option<Box<Node>>,
}

/// EQU: the symbol stands for the W-value.
#[derive(Debug)]
pub struct EquStatement {
    pub symbol: Option<Symbol>,
    pub address: WValue,
}

/// ORIG: the location counter takes the W-value.
#[derive(Debug)]
pub struct OrigStatement {
    pub symbol: Option<Symbol>,
    pub address: WValue,
}

/// CON: a word with the W-value.
#[derive(Debug)]
pub struct ConStatement {
    pub symbol: Option<Symbol>,
    pub address: WValue,
}

/// ALF: a word of five characters. `char_code` is the string literal with
/// its quotes.
#[derive(Debug)]
pub struct AlfStatement {
    pub symbol: Option<Symbol>,
    pub char_code: String,
}

/// END: the end of the program; the W-value is where it starts.
#[derive(Debug)]
pub struct EndStatement {
    pub symbol: Option<Symbol>,
    pub address: WValue,
}

/// A statement.
#[derive(Debug)]
pub enum Statement {
    Mix(MixStatement),
    Equ(EquStatement),
    Orig(OrigStatement),
    Con(ConStatement),
    Alf(AlfStatement),
    End(EndStatement),
}

/// A program: its statements in the order of the source.
#[derive(Debug)]
pub struct Program {
    pub statements: Vec<Statement>,
}

/// A node of an expression as plain values.
pub enum NodeView {
    Number(nat),
    Asterisk,
    Symbol(Seq<char>),
    LiteralConstant(Box<NodeView>),
    Expression(Option<Box<NodeView>>, Token, Box<NodeView>),
}

/// One part of a W-value as plain values.
pub struct WValuePartView {
    pub expression: NodeView,
    pub f_part: Option<NodeView>,
}

/// A statement as plain values.
pub enum StatementView {
    Mix {
        symbol: Option<Seq<char>>,
        op: Seq<char>,
        a_part: Option<NodeView>,
        index_part: Option<NodeView>,
        f_part: Option<NodeView>,
    },
    Equ { symbol: Option<Seq<char>>, address: Seq<WValuePartView> },
    Orig { symbol: Option<Seq<char>>, address: Seq<WValuePartView> },
    Con { symbol: Option<Seq<char>>, address: Seq<WValuePartView> },
    Alf { symbol: Option<Seq<char>>, char_code: Seq<char> },
    End { symbol: Option<Seq<char>>, address: Seq<WValuePartView> },
}

/// The view of a node that may be absent.
pub open spec fn spec_optional_node(node: Option<Box<Node>>) -> Option<NodeView> {
    match node {
        Some(n) => Some(n@),
        None => None,
    }
}

/// The name of a symbol that may be absent.
pub open spec fn spec_optional_symbol(symbol: Option<Symbol>) -> Option<Seq<char>> {
    match symbol {
        Some(s) => Some(s.name@),
        None => None,
    }
}

/// A node as plain values.
pub open spec fn spec_node_view(node: Node) -> NodeView
    decreases node,
{
    match node {
        Node::Number(n) => NodeView::Number(n.value as nat),
        Node::Asterisk(_) => NodeView::Asterisk,
        Node::Symbol(s) => NodeView::Symbol(s.name@),
        Node::LiteralConstant(l) => NodeView::LiteralConstant(Box::new(spec_node_view(*l.value))),
        Node::Expression(e) => NodeView::Expression(
            match e.left {
                Some(left) => Some(Box::new(spec_node_view(*left))),
                None => None,
            },
            e.operator,
            Box::new(spec_node_view(*e.right)),
        ),
    }
}

impl View for Node {
    type V = NodeView;

    open spec fn view(&self) -> NodeView {
        spec_node_view(*self)
    }
}

impl View for WValuePart {
    type V = WValuePartView;

    open spec fn view(&self) -> WValuePartView {
        WValuePartView { expression: self.expression@, f_part: spec_optional_node(self.f_part) }
    }
}

impl View for WValue {
    type V = Seq<WValuePartView>;

    open spec fn view(&self) -> Seq<WValuePartView> {
        Seq::new(self.parts@.len(), |i: int| self.parts@[i]@)
    }
}

impl View for Statement {
    type V = StatementView;

    open spec fn view(&self) -> StatementView {
        match self {
            Statement::Mix(s) => StatementView::Mix {
                symbol: spec_optional_symbol(s.symbol),
                op: s.op@,
                a_part: spec_optional_node(s.a_part),
                index_part: spec_optional_node(s.index_part),
                f_part: spec_optional_node(s.f_part),
            },
            Statement::Equ(s) => StatementView::Equ {
                symbol: spec_optional_symbol(s.symbol),
                address: s.address@,
            },
            Statement::Orig(s) => StatementView::Orig {
                symbol: spec_optional_symbol(s.symbol),
                address: s.address@,
            },
            Statement::Con(s) => StatementView::Con {
                symbol: spec_optional_symbol(s.symbol),
                address: s.address@,
            },
            Statement::Alf(s) => StatementView::Alf {
                symbol: spec_optional_symbol(s.symbol),
                char_code: s.char_code@,
            },
            Statement::End(s) => StatementView::End {
                symbol: spec_optional_symbol(s.symbol),
                address: s.address@,
            },
        }
    }
}

impl View for Program {
    type V = Seq<StatementView>;

    open spec fn view(&self) -> Seq<StatementView> {
        Seq::new(self.statements@.len(), |i: int| self.statements@[i]@)
    }
}

} // verus!
