//! The abstract syntax tree built by the parser, and its mathematical views.
use vstd::prelude::*;
use crate::token::Span;

verus! {

/// A byte range as a pair of integers.
pub type SpanV = (int, int);

pub open spec fn span_v(s: Span) -> SpanV {
    (s.start as int, s.end as int)
}

#[derive(Debug)]
pub struct Program {
    pub imports: Vec<Import>,
    pub functions: Vec<Function>,
    pub structs: Vec<StructDef>,
    pub enums: Vec<EnumDef>,
    pub traits: Vec<TraitDef>,
    pub impls: Vec<ImplBlock>,
    pub globals: Vec<GlobalDef>,
}

/// A global variable definition: `global name = value`.
#[derive(Debug)]
pub struct GlobalDef {
    pub name: String,
    pub value: Expr,
    pub span: Span,
}

#[derive(Debug)]
pub struct Import {
    pub path: String,
    pub module_name: String,
    pub span: Span,
}

#[derive(Debug)]
pub struct TypeName {
    pub name: String,
    pub span: Span,
}

#[derive(Debug)]
pub struct TypeParam {
    pub name: String,
    pub bound: Option<String>,
    pub span: Span,
}

#[derive(Debug)]
pub struct Param {
    pub name: String,
    pub ty_name: TypeName,
    pub span: Span,
}

#[derive(Debug)]
pub struct Function {
    pub name: String,
    pub type_params: Vec<TypeParam>,
    pub params: Vec<Param>,
    pub return_type: TypeName,
    pub body: Vec<Stmt>,
    pub span: Span,
}

#[derive(Debug)]
pub struct StructField {
    pub name: String,
    pub ty_name: TypeName,
    pub span: Span,
}

#[derive(Debug)]
pub struct StructDef {
    pub name: String,
    pub fields: Vec<StructField>,
    pub span: Span,
}

#[derive(Debug)]
pub struct EnumVariant {
    pub name: String,
    pub fields: Vec<TypeName>,
    pub span: Span,
}

#[derive(Debug)]
pub struct EnumDef {
    pub name: String,
    pub variants: Vec<EnumVariant>,
    pub span: Span,
}

#[derive(Debug)]
pub struct TraitMethodSig {
    pub name: String,
    pub type_params: Vec<TypeParam>,
    pub params: Vec<Param>,
    pub return_type: TypeName,
    pub span: Span,
}

#[derive(Debug)]
pub struct TraitDef {
    pub name: String,
    pub methods: Vec<TraitMethodSig>,
    pub span: Span,
}

#[derive(Debug)]
pub struct ImplBlock {
    pub trait_name: Option<String>,
    pub target_type: String,
    pub methods: Vec<Function>,
    pub span: Span,
}

#[derive(Debug, Clone, Copy, PartialEq, Eq, Structural)]
pub enum BinOp {
    Add,
    Sub,
    Mul,
    Div,
    Mod,
    Eq,
    NotEq,
    Lt,
    Gt,
    LtEq,
    GtEq,
    And,
    Or,
}

#[derive(Debug, Clone, Copy, PartialEq, Eq, Structural)]
pub enum UnaryOp {
    Not,
    Neg,
}

#[derive(Debug)]
pub enum Pattern {
    EnumVariant { enum_name: String, variant_name: String, bindings: Vec<String>, span: Span },
}

#[derive(Debug)]
pub struct MatchArm {
    pub pattern: Pattern,
    pub body: Expr,
    pub span: Span,
}

#[derive(Debug)]
pub enum Stmt {
    Let { name: String, mutable: bool, ty_name: Option<TypeName>, value: Expr, span: Span },
    Expr(Expr),
    While { condition: Expr, body: Vec<Stmt>, span: Span },
    Return { value: Expr, span: Span },
    Assign { name: String, value: Expr, span: Span },
    If { condition: Expr, body: Vec<Stmt>, span: Span },
    LetDestructure { names: Vec<String>, value: Expr, span: Span },
    ForIn { var: String, iterable: Expr, body: Vec<Stmt>, span: Span },
    Break { span: Span },
    Continue { span: Span },
}

/// An expression.  `FloatLiteral` holds the literal's text as written.
#[derive(Debug)]
pub enum Expr {
    IntLiteral { value: i64, span: Span },
    FloatLiteral { value: String, span: Span },
    BoolLiteral { value: bool, span: Span },
    StringLiteral { value: String, span: Span },
    Identifier { name: String, span: Span },
    BinaryOp { left: Box<Expr>, op: BinOp, right: Box<Expr>, span: Span },
    Call { function: String, args: Vec<Expr>, span: Span },
    If {
        condition: Box<Expr>,
        then_body: Vec<Stmt>,
        then_expr: Box<Expr>,
        else_body: Vec<Stmt>,
        else_expr: Box<Expr>,
        span: Span,
    },
    UnaryOp { op: UnaryOp, operand: Box<Expr>, span: Span },
    StructLiteral { name: String, fields: Vec<(String, Expr)>, span: Span },
    FieldAccess { object: Box<Expr>, field: String, span: Span },
    EnumVariant { enum_name: String, variant_name: String, args: Vec<Expr>, span: Span },
    Match { scrutinee: Box<Expr>, arms: Vec<MatchArm>, span: Span },
    MethodCall { object: Box<Expr>, method: String, args: Vec<Expr>, span: Span },
    Spawn { function: String, args: Vec<Expr>, span: Span },
    ChannelCreate { element_type: TypeName, capacity: Option<Box<Expr>>, span: Span },
    MutexCreate { value: Box<Expr>, span: Span },
    ArrayCreate { element_type: TypeName, span: Span },
    ArrayLiteral { elements: Vec<Expr>, span: Span },
    TupleLiteral { elements: Vec<Expr>, span: Span },
    Lambda { params: Vec<Param>, return_type: TypeName, body: Vec<Stmt>, span: Span },
}

// ─── Views ─────────────────────────────────────────────────────────────────

pub struct TypeNameV {
    pub name: Seq<char>,
    pub span: SpanV,
}

pub struct TypeParamV {
    pub name: Seq<char>,
    pub bound: Option<Seq<char>>,
    pub span: SpanV,
}

pub struct ParamV {
    pub name: Seq<char>,
    pub ty_name: TypeNameV,
    pub span: SpanV,
}

pub struct ImportV {
    pub path: Seq<char>,
    pub module_name: Seq<char>,
    pub span: SpanV,
}

pub struct StructFieldV {
    pub name: Seq<char>,
    pub ty_name: TypeNameV,
    pub span: SpanV,
}

pub struct StructDefV {
    pub name: Seq<char>,
    pub fields: Seq<StructFieldV>,
    pub span: SpanV,
}

pub struct EnumVariantV {
    pub name: Seq<char>,
    pub fields: Seq<TypeNameV>,
    pub span: SpanV,
}

pub struct EnumDefV {
    pub name: Seq<char>,
    pub variants: Seq<EnumVariantV>,
    pub span: SpanV,
}

pub struct TraitMethodSigV {
    pub name: Seq<char>,
    pub type_params: Seq<TypeParamV>,
    pub params: Seq<ParamV>,
    pub return_type: TypeNameV,
    pub span: SpanV,
}

pub struct TraitDefV {
    pub name: Seq<char>,
    pub methods: Seq<TraitMethodSigV>,
    pub span: SpanV,
}

pub struct PatternV {
    pub enum_name: Seq<char>,
    pub variant_name: Seq<char>,
    pub bindings: Seq<Seq<char>>,
    pub span: SpanV,
}

pub enum ExprV {
    IntLiteral { value: i64, span: SpanV },
    FloatLiteral { value: Seq<char>, span: SpanV },
    BoolLiteral { value: bool, span: SpanV },
    StringLiteral { value: Seq<char>, span: SpanV },
    Identifier { name: Seq<char>, span: SpanV },
    BinaryOp { left: Box<ExprV>, op: BinOp, right: Box<ExprV>, span: SpanV },
    Call { function: Seq<char>, args: Seq<ExprV>, span: SpanV },
    If {
        condition: Box<ExprV>,
        then_body: Seq<StmtV>,
        then_expr: Box<ExprV>,
        else_body: Seq<StmtV>,
        else_expr: Box<ExprV>,
        span: SpanV,
    },
    UnaryOp { op: UnaryOp, operand: Box<ExprV>, span: SpanV },
    StructLiteral { name: Seq<char>, fields: Seq<(Seq<char>, ExprV)>, span: SpanV },
    FieldAccess { object: Box<ExprV>, field: Seq<char>, span: SpanV },
    EnumVariant {
        enum_name: Seq<char>,
        variant_name: Seq<char>,
        args: Seq<ExprV>,
        span: SpanV,
    },
    Match { scrutinee: Box<ExprV>, arms: Seq<MatchArmV>, span: SpanV },
    MethodCall { object: Box<ExprV>, method: Seq<char>, args: Seq<ExprV>, span: SpanV },
    Spawn { function: Seq<char>, args: Seq<ExprV>, span: SpanV },
    ChannelCreate { element_type: TypeNameV, capacity: Option<Box<ExprV>>, span: SpanV },
    MutexCreate { value: Box<ExprV>, span: SpanV },
    ArrayCreate { element_type: TypeNameV, span: SpanV },
    ArrayLiteral { elements: Seq<ExprV>, span: SpanV },
    TupleLiteral { elements: Seq<ExprV>, span: SpanV },
    Lambda { params: Seq<ParamV>, return_type: TypeNameV, body: Seq<StmtV>, span: SpanV },
}

pub struct MatchArmV {
    pub pattern: PatternV,
    pub body: ExprV,
    pub span: SpanV,
}

pub enum StmtV {
    Let {
        name: Seq<char>,
        mutable: bool,
        ty_name: Option<TypeNameV>,
        value: ExprV,
        span: SpanV,
    },
    Expr(ExprV),
    While { condition: ExprV, body: Seq<StmtV>, span: SpanV },
    Return { value: ExprV, span: SpanV },
    Assign { name: Seq<char>, value: ExprV, span: SpanV },
    If { condition: ExprV, body: Seq<StmtV>, span: SpanV },
    LetDestructure { names: Seq<Seq<char>>, value: ExprV, span: SpanV },
    ForIn { var: Seq<char>, iterable: ExprV, body: Seq<StmtV>, span: SpanV },
    Break { span: SpanV },
    Continue { span: SpanV },
}

pub struct FunctionV {
    pub name: Seq<char>,
    pub type_params: Seq<TypeParamV>,
    pub params: Seq<ParamV>,
    pub return_type: TypeNameV,
    pub body: Seq<StmtV>,
    pub span: SpanV,
}

pub struct ImplBlockV {
    pub trait_name: Option<Seq<char>>,
    pub target_type: Seq<char>,
    pub methods: Seq<FunctionV>,
    pub span: SpanV,
}

pub struct ProgramV {
    pub imports: Seq<ImportV>,
    pub functions: Seq<FunctionV>,
    pub structs: Seq<StructDefV>,
    pub enums: Seq<EnumDefV>,
    pub traits: Seq<TraitDefV>,
    pub impls: Seq<ImplBlockV>,
    pub globals: Seq<GlobalDefV>,
}

pub struct GlobalDefV {
    pub name: Seq<char>,
    pub value: ExprV,
    pub span: SpanV,
}

pub open spec fn strings_v(s: Seq<String>) -> Seq<Seq<char>> {
    s.map_values(|x: String| x@)
}

pub open spec fn opt_string_v(s: Option<String>) -> Option<Seq<char>> {
    match s {
        Some(x) => Some(x@),
        None => None,
    }
}

impl View for TypeName {
    type V = TypeNameV;

    open spec fn view(&self) -> TypeNameV {
        TypeNameV { name: self.name@, span: span_v(self.span) }
    }
}

impl View for TypeParam {
    type V = TypeParamV;

    open spec fn view(&self) -> TypeParamV {
        TypeParamV { name: self.name@, bound: opt_string_v(self.bound), span: span_v(self.span) }
    }
}

impl View for Param {
    type V = ParamV;

    open spec fn view(&self) -> ParamV {
        ParamV { name: self.name@, ty_name: self.ty_name@, span: span_v(self.span) }
    }
}

impl View for GlobalDef {
    type V = GlobalDefV;

    open spec fn view(&self) -> GlobalDefV {
        GlobalDefV { name: self.name@, value: expr_v(self.value), span: span_v(self.span) }
    }
}

impl View for Import {
    type V = ImportV;

    open spec fn view(&self) -> ImportV {
        ImportV { path: self.path@, module_name: self.module_name@, span: span_v(self.span) }
    }
}

impl View for StructField {
    type V = StructFieldV;

    open spec fn view(&self) -> StructFieldV {
        StructFieldV { name: self.name@, ty_name: self.ty_name@, span: span_v(self.span) }
    }
}

impl View for StructDef {
    type V = StructDefV;

    open spec fn view(&self) -> StructDefV {
        StructDefV {
            name: self.name@,
            fields: self.fields@.map_values(|f: StructField| f@),
            span: span_v(self.span),
        }
    }
}

impl View for EnumVariant {
    type V = EnumVariantV;

    open spec fn view(&self) -> EnumVariantV {
        EnumVariantV {
            name: self.name@,
            fields: self.fields@.map_values(|f: TypeName| f@),
            span: span_v(self.span),
        }
    }
}

impl View for EnumDef {
    type V = EnumDefV;

    open spec fn view(&self) -> EnumDefV {
        EnumDefV {
            name: self.name@,
            variants: self.variants@.map_values(|v: EnumVariant| v@),
            span: span_v(self.span),
        }
    }
}

impl View for TraitMethodSig {
    type V = TraitMethodSigV;

    open spec fn view(&self) -> TraitMethodSigV {
        TraitMethodSigV {
            name: self.name@,
            type_params: self.type_params@.map_values(|p: TypeParam| p@),
            params: self.params@.map_values(|p: Param| p@),
            return_type: self.return_type@,
            span: span_v(self.span),
        }
    }
}

impl View for TraitDef {
    type V = TraitDefV;

    open spec fn view(&self) -> TraitDefV {
        TraitDefV {
            name: self.name@,
            methods: self.methods@.map_values(|m: TraitMethodSig| m@),
            span: span_v(self.span),
        }
    }
}

impl View for Pattern {
    type V = PatternV;

    open spec fn view(&self) -> PatternV {
        match self {
            Pattern::EnumVariant { enum_name, variant_name, bindings, span } => PatternV {
                enum_name: enum_name@,
                variant_name: variant_name@,
                bindings: strings_v(bindings@),
                span: span_v(*span),
            },
        }
    }
}

pub open spec fn expr_v(e: Expr) -> ExprV
    decreases e,
{
    match e {
        Expr::IntLiteral { value, span } => ExprV::IntLiteral { value, span: span_v(span) },
        Expr::FloatLiteral { value, span } => ExprV::FloatLiteral {
            value: value@,
            span: span_v(span),
        },
        Expr::BoolLiteral { value, span } => ExprV::BoolLiteral { value, span: span_v(span) },
        Expr::StringLiteral { value, span } => ExprV::StringLiteral {
            value: value@,
            span: span_v(span),
        },
        Expr::Identifier { name, span } => ExprV::Identifier { name: name@, span: span_v(span) },
        Expr::BinaryOp { left, op, right, span } => ExprV::BinaryOp {
            left: Box::new(expr_v(*left)),
            op,
            right: Box::new(expr_v(*right)),
            span: span_v(span),
        },
        Expr::Call { function, args, span } => ExprV::Call {
            function: function@,
            args: exprs_v(args@),
            span: span_v(span),
        },
        Expr::If { condition, then_body, then_expr, else_body, else_expr, span } => ExprV::If {
            condition: Box::new(expr_v(*condition)),
            then_body: stmts_v(then_body@),
            then_expr: Box::new(expr_v(*then_expr)),
            else_body: stmts_v(else_body@),
            else_expr: Box::new(expr_v(*else_expr)),
            span: span_v(span),
        },
        Expr::UnaryOp { op, operand, span } => ExprV::UnaryOp {
            op,
            operand: Box::new(expr_v(*operand)),
            span: span_v(span),
        },
        Expr::StructLiteral { name, fields, span } => ExprV::StructLiteral {
            name: name@,
            fields: fields_v(fields@),
            span: span_v(span),
        },
        Expr::FieldAccess { object, field, span } => ExprV::FieldAccess {
            object: Box::new(expr_v(*object)),
            field: field@,
            span: span_v(span),
        },
        Expr::EnumVariant { enum_name, variant_name, args, span } => ExprV::EnumVariant {
            enum_name: enum_name@,
            variant_name: variant_name@,
            args: exprs_v(args@),
            span: span_v(span),
        },
        Expr::Match { scrutinee, arms, span } => ExprV::Match {
            scrutinee: Box::new(expr_v(*scrutinee)),
            arms: arms_v(arms@),
            span: span_v(span),
        },
        Expr::MethodCall { object, method, args, span } => ExprV::MethodCall {
            object: Box::new(expr_v(*object)),
            method: method@,
            args: exprs_v(args@),
            span: span_v(span),
        },
        Expr::Spawn { function, args, span } => ExprV::Spawn {
            function: function@,
            args: exprs_v(args@),
            span: span_v(span),
        },
        Expr::ChannelCreate { element_type, capacity, span } => ExprV::ChannelCreate {
            element_type: element_type@,
            capacity: match capacity {
                Some(c) => Some(Box::new(expr_v(*c))),
                None => None,
            },
            span: span_v(span),
        },
        Expr::MutexCreate { value, span } => ExprV::MutexCreate {
            value: Box::new(expr_v(*value)),
            span: span_v(span),
        },
        Expr::ArrayCreate { element_type, span } => ExprV::ArrayCreate {
            element_type: element_type@,
            span: span_v(span),
        },
        Expr::ArrayLiteral { elements, span } => ExprV::ArrayLiteral {
            elements: exprs_v(elements@),
            span: span_v(span),
        },
        Expr::TupleLiteral { elements, span } => ExprV::TupleLiteral {
            elements: exprs_v(elements@),
            span: span_v(span),
        },
        Expr::Lambda { params, return_type, body, span } => ExprV::Lambda {
            params: params@.map_values(|p: Param| p@),
            return_type: return_type@,
            body: stmts_v(body@),
            span: span_v(span),
        },
    }
}

pub open spec fn exprs_v(s: Seq<Expr>) -> Seq<ExprV>
    decreases s,
{
    if s.len() == 0 {
        Seq::empty()
    } else {
        exprs_v(s.drop_last()).push(expr_v(s.last()))
    }
}

pub open spec fn fields_v(s: Seq<(String, Expr)>) -> Seq<(Seq<char>, ExprV)>
    decreases s,
{
    if s.len() == 0 {
        Seq::empty()
    } else {
        fields_v(s.drop_last()).push((s.last().0@, expr_v(s.last().1)))
    }
}

pub open spec fn arms_v(s: Seq<MatchArm>) -> Seq<MatchArmV>
    decreases s,
{
    if s.len() == 0 {
        Seq::empty()
    } else {
        arms_v(s.drop_last()).push(
            MatchArmV {
                pattern: s.last().pattern@,
                body: expr_v(s.last().body),
                span: span_v(s.last().span),
            },
        )
    }
}

pub open spec fn stmt_v(st: Stmt) -> StmtV
    decreases st,
{
    match st {
        Stmt::Let { name, mutable, ty_name, value, span } => StmtV::Let {
            name: name@,
            mutable,
            ty_name: match ty_name {
                Some(t) => Some(t@),
                None => None,
            },
            value: expr_v(value),
            span: span_v(span),
        },
        Stmt::Expr(e) => StmtV::Expr(expr_v(e)),
        Stmt::While { condition, body, span } => StmtV::While {
            condition: expr_v(condition),
            body: stmts_v(body@),
            span: span_v(span),
        },
        Stmt::Return { value, span } => StmtV::Return { value: expr_v(value), span: span_v(span) },
        Stmt::Assign { name, value, span } => StmtV::Assign {
            name: name@,
            value: expr_v(value),
            span: span_v(span),
        },
        Stmt::If { condition, body, span } => StmtV::If {
            condition: expr_v(condition),
            body: stmts_v(body@),
            span: span_v(span),
        },
        Stmt::LetDestructure { names, value, span } => StmtV::LetDestructure {
            names: strings_v(names@),
            value: expr_v(value),
            span: span_v(span),
        },
        Stmt::ForIn { var, iterable, body, span } => StmtV::ForIn {
            var: var@,
            iterable: expr_v(iterable),
            body: stmts_v(body@),
            span: span_v(span),
        },
        Stmt::Break { span } => StmtV::Break { span: span_v(span) },
        Stmt::Continue { span } => StmtV::Continue { span: span_v(span) },
    }
}

pub open spec fn stmts_v(s: Seq<Stmt>) -> Seq<StmtV>
    decreases s,
{
    if s.len() == 0 {
        Seq::empty()
    } else {
        stmts_v(s.drop_last()).push(stmt_v(s.last()))
    }
}

impl View for Expr {
    type V = ExprV;

    open spec fn view(&self) -> ExprV {
        expr_v(*self)
    }
}

impl View for Stmt {
    type V = StmtV;

    open spec fn view(&self) -> StmtV {
        stmt_v(*self)
    }
}

impl View for MatchArm {
    type V = MatchArmV;

    open spec fn view(&self) -> MatchArmV {
        MatchArmV { pattern: self.pattern@, body: expr_v(self.body), span: span_v(self.span) }
    }
}

impl View for Function {
    type V = FunctionV;

    open spec fn view(&self) -> FunctionV {
        FunctionV {
            name: self.name@,
            type_params: self.type_params@.map_values(|p: TypeParam| p@),
            params: self.params@.map_values(|p: Param| p@),
            return_type: self.return_type@,
            body: stmts_v(self.body@),
            span: span_v(self.span),
        }
    }
}

impl View for ImplBlock {
    type V = ImplBlockV;

    open spec fn view(&self) -> ImplBlockV {
        ImplBlockV {
            trait_name: opt_string_v(self.trait_name),
            target_type: self.target_type@,
            methods: self.methods@.map_values(|m: Function| m@),
            span: span_v(self.span),
        }
    }
}

impl View for Program {
    type V = ProgramV;

    open spec fn view(&self) -> ProgramV {
        ProgramV {
            imports: self.imports@.map_values(|i: Import| i@),
            functions: self.functions@.map_values(|f: Function| f@),
            structs: self.structs@.map_values(|s: StructDef| s@),
            enums: self.enums@.map_values(|e: EnumDef| e@),
            traits: self.traits@.map_values(|t: TraitDef| t@),
            impls: self.impls@.map_values(|i: ImplBlock| i@),
            globals: self.globals@.map_values(|g: GlobalDef| g@),
        }
    }
}


/// The view of a list of expressions has its length and, at each index,
/// the view of the expression there.
pub proof fn lemma_exprs_v(s: Seq<Expr>)
    ensures
        exprs_v(s).len() == s.len(),
        forall|i: int| 0 <= i < s.len() ==> #[trigger] exprs_v(s)[i] == expr_v(s[i]),
    decreases s.len(),
{
    if s.len() > 0 {
        lemma_exprs_v(s.drop_last());
        assert forall|i: int| 0 <= i < s.len() implies #[trigger] exprs_v(s)[i] == expr_v(s[i]) by {
            if i < s.len() - 1 {
                assert(s.drop_last()[i] == s[i]);
            }
        }
    }
}

/// The view of struct literal fields has their length and, at each index,
/// the name and the view of the expression there.
pub proof fn lemma_fields_v(s: Seq<(String, Expr)>)
    ensures
        fields_v(s).len() == s.len(),
        forall|i: int| 0 <= i < s.len() ==> #[trigger] fields_v(s)[i] == (s[i].0@, expr_v(s[i].1)),
    decreases s.len(),
{
    if s.len() > 0 {
        lemma_fields_v(s.drop_last());
        assert forall|i: int| 0 <= i < s.len() implies #[trigger] fields_v(s)[i] == (s[i].0@, expr_v(s[i].1)) by {
            if i < s.len() - 1 {
                assert(s.drop_last()[i] == s[i]);
            }
        }
    }
}

/// The view of match arms has their length and, at each index, the view of
/// the arm there.
pub proof fn lemma_arms_v(s: Seq<MatchArm>)
    ensures
        arms_v(s).len() == s.len(),
        forall|i: int| 0 <= i < s.len() ==> #[trigger] arms_v(s)[i] == s[i]@,
    decreases s.len(),
{
    if s.len() > 0 {
        lemma_arms_v(s.drop_last());
        assert forall|i: int| 0 <= i < s.len() implies #[trigger] arms_v(s)[i] == s[i]@ by {
            if i < s.len() - 1 {
                assert(s.drop_last()[i] == s[i]);
            }
        }
    }
}

/// The view of a list of statements has its length and, at each index, the
/// view of the statement there.
pub proof fn lemma_stmts_v(s: Seq<Stmt>)
    ensures
        stmts_v(s).len() == s.len(),
        forall|i: int| 0 <= i < s.len() ==> #[trigger] stmts_v(s)[i] == stmt_v(s[i]),
    decreases s.len(),
{
    if s.len() > 0 {
        lemma_stmts_v(s.drop_last());
        assert forall|i: int| 0 <= i < s.len() implies #[trigger] stmts_v(s)[i] == stmt_v(s[i]) by {
            if i < s.len() - 1 {
                assert(s.drop_last()[i] == s[i]);
            }
        }
    }
}

} // verus!
