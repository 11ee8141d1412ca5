//! The abstract syntax tree the parser produces.
//!
//! Nodes reference one another through handles into the arenas owned by
//! the [`TranslationUnit`]; names that could not be resolved during
//! parsing are recorded as [`Dependency`] entries for a later pass.

use vstd::prelude::*;

use crate::arena::{Arena, Handle, Span};
use crate::diag::DiagnosticFilterNode;
use crate::token::Number;

verus! {

/// A name together with the span where it was written.
#[derive(Debug, PartialEq, Eq)]
pub struct Ident {
    pub name: Vec<u8>,
    pub span: Span,
}

/// An identifier used by a global declaration that had no local
/// definition; resolved against other globals in a later pass.
#[derive(Debug, PartialEq, Eq)]
pub struct Dependency {
    pub ident: Vec<u8>,
    pub usage: Span,
}

/// A scalar's kind.
#[derive(Clone, Copy, Debug, PartialEq, Eq, Structural)]
pub enum ScalarKind {
    Sint,
    Uint,
    Float,
    Bool,
}

/// A scalar type: kind plus byte width.
#[derive(Clone, Copy, Debug, PartialEq, Eq, Structural)]
pub struct Scalar {
    pub kind: ScalarKind,
    pub width: u8,
}

/// Number of components of a vector, or of a matrix axis.
#[derive(Clone, Copy, Debug, PartialEq, Eq, Structural)]
pub enum VectorSize {
    Bi,
    Tri,
    Quad,
}

/// What access a storage resource allows.
#[derive(Clone, Copy, Debug, PartialEq, Eq, Structural)]
pub enum StorageAccess {
    Read,
    Write,
    ReadWrite,
}

/// The address space a pointer or variable lives in.
#[derive(Clone, Copy, Debug, PartialEq, Eq, Structural)]
pub enum AddressSpace {
    Function,
    Private,
    WorkGroup,
    Uniform,
    Storage { access: StorageAccess },
    Handle,
    PushConstant,
}

/// Dimensionality of an image type.
#[derive(Clone, Copy, Debug, PartialEq, Eq, Structural)]
pub enum ImageDimension {
    D1,
    D2,
    D3,
    Cube,
}

/// A texel format of a storage texture.
#[derive(Clone, Copy, Debug, PartialEq, Eq, Structural)]
pub enum StorageFormat {
    R8Unorm,
    R8Snorm,
    R8Uint,
    R8Sint,
    R16Uint,
    R16Sint,
    R16Float,
    Rg8Unorm,
    Rg8Snorm,
    Rg8Uint,
    Rg8Sint,
    R32Uint,
    R32Sint,
    R32Float,
    Rg16Uint,
    Rg16Sint,
    Rg16Float,
    Rgba8Unorm,
    Rgba8Snorm,
    Rgba8Uint,
    Rgba8Sint,
    Bgra8Unorm,
    Rgb10a2Uint,
    Rgb10a2Unorm,
    Rg11b10Float,
    Rg32Uint,
    Rg32Sint,
    Rg32Float,
    Rgba16Uint,
    Rgba16Sint,
    Rgba16Float,
    Rgba32Uint,
    Rgba32Sint,
    Rgba32Float,
    R16Unorm,
    R16Snorm,
    Rg16Unorm,
    Rg16Snorm,
    Rgba16Unorm,
    Rgba16Snorm,
}

/// What an image type holds and how it is accessed.
#[derive(Clone, Copy, Debug, PartialEq, Eq, Structural)]
pub enum ImageClass {
    Sampled { kind: ScalarKind, multi: bool },
    Depth { multi: bool },
    Storage { format: StorageFormat, access: StorageAccess },
}

/// Whether an array's size is a constant expression or decided at run
/// time.
#[derive(Clone, Copy, Debug, PartialEq, Eq, Structural)]
pub enum ArraySize {
    Constant(Handle),
    Dynamic,
}

/// A type as written in the source; type handles index the translation
/// unit's type arena.
#[derive(Debug, PartialEq, Eq)]
pub enum Type {
    Scalar(Scalar),
    Vector { size: VectorSize, ty: Handle, ty_span: Span },
    Matrix { columns: VectorSize, rows: VectorSize, ty: Handle, ty_span: Span },
    Atomic(Scalar),
    Pointer { base: Handle, space: AddressSpace },
    Array { base: Handle, size: ArraySize },
    BindingArray { base: Handle, size: ArraySize },
    Sampler { comparison: bool },
    Image { dim: ImageDimension, arrayed: bool, class: ImageClass },
    AccelerationStructure,
    RayQuery,
    RayDesc,
    RayIntersection,
    /// A name that matched no predeclared type; recorded as a
    /// [`Dependency`] and resolved in a later pass.
    User(Ident),
}

/// A unary operator written before its operand.
#[derive(Clone, Copy, Debug, PartialEq, Eq, Structural)]
pub enum UnaryOperator {
    Negate,
    LogicalNot,
    BitwiseNot,
}

/// A binary operator, one per precedence table entry.
#[derive(Clone, Copy, Debug, PartialEq, Eq, Structural)]
pub enum BinaryOperator {
    Add,
    Subtract,
    Multiply,
    Divide,
    Modulo,
    Equal,
    NotEqual,
    Less,
    LessEqual,
    Greater,
    GreaterEqual,
    And,
    ExclusiveOr,
    InclusiveOr,
    LogicalAnd,
    LogicalOr,
    ShiftLeft,
    ShiftRight,
}

/// A literal value in an expression.
#[derive(Debug, PartialEq, Eq)]
pub enum Literal {
    Bool(bool),
    Number(Number),
}

/// What a plain identifier expression refers to.
#[derive(Debug, PartialEq, Eq)]
pub enum IdentExpr {
    /// A local variable or function argument, by its handle in the
    /// owning function's locals arena.
    Local(Handle),
    /// A name with no local definition, deferred for global resolution.
    Unresolved(Vec<u8>),
}

/// The type being built by a construction expression such as
/// `vec3<f32>(...)`.
#[derive(Debug, PartialEq, Eq)]
pub enum ConstructorType {
    Scalar(Scalar),
    /// `vec2(...)` and friends: the component type is inferred from the
    /// arguments.
    PartialVector { size: VectorSize },
    Vector { size: VectorSize, ty: Handle, ty_span: Span },
    /// `mat2x2(...)` and friends.
    PartialMatrix { columns: VectorSize, rows: VectorSize },
    Matrix { columns: VectorSize, rows: VectorSize, ty: Handle, ty_span: Span },
    /// `array(...)`: base type and size inferred.
    PartialArray,
    Array { base: Handle, size: ArraySize },
}

/// An expression node; expression handles index the translation unit's
/// expression arena.
#[derive(Debug, PartialEq, Eq)]
pub enum Expression {
    Literal(Literal),
    Ident(IdentExpr),
    Construct { ty: ConstructorType, ty_span: Span, components: Vec<Handle> },
    Unary { op: UnaryOperator, expr: Handle },
    AddrOf(Handle),
    Deref(Handle),
    Binary { op: BinaryOperator, left: Handle, right: Handle },
    Call { function: Ident, arguments: Vec<Handle> },
    Bitcast { expr: Handle, to: Handle, ty_span: Span },
    Member { base: Handle, field: Ident },
    Index { base: Handle, index: Handle },
}

/// A zero-sized marker; its handle in a function's locals arena stands
/// for one local variable or argument, whose details live in the
/// statement that declared it.
#[derive(Debug, PartialEq, Eq)]
pub struct Local {}

/// A `let` declaration in a function body.
#[derive(Debug, PartialEq, Eq)]
pub struct LetDecl {
    pub name: Ident,
    pub ty: Option<Handle>,
    pub init: Handle,
    pub handle: Handle,
}

/// A `const` declaration in a function body.
#[derive(Debug, PartialEq, Eq)]
pub struct LocalConst {
    pub name: Ident,
    pub ty: Option<Handle>,
    pub init: Handle,
    pub handle: Handle,
}

/// A `var` declaration in a function body.
#[derive(Debug, PartialEq, Eq)]
pub struct LocalVariable {
    pub name: Ident,
    pub ty: Option<Handle>,
    pub init: Option<Handle>,
    pub handle: Handle,
}

/// One local declaration statement.
#[derive(Debug, PartialEq, Eq)]
pub enum LocalDecl {
    Let(LetDecl),
    Const(LocalConst),
    Var(LocalVariable),
}

/// One `case` or `default` selector of a `switch` statement.
#[derive(Debug, PartialEq, Eq)]
pub enum SwitchValue {
    Expr(Handle),
    Default,
}

/// One arm of a `switch` statement.  A selector list `case a, b:`
/// produces empty-bodied arms marked `fall_through` for all but the
/// last selector.
#[derive(Debug, PartialEq, Eq)]
pub struct SwitchCase {
    pub value: SwitchValue,
    pub body: Block,
    pub fall_through: bool,
}

/// A brace-enclosed statement list.
#[derive(Debug, PartialEq, Eq)]
pub struct Block {
    pub stmts: Vec<Statement>,
}

impl Block {
    pub fn new() -> (r: Block)
        ensures
            r.stmts@ =~= Seq::<Statement>::empty(),
    {
        Block { stmts: Vec::new() }
    }
}

/// A statement with the span of the text that produced it.
#[derive(Debug, PartialEq, Eq)]
pub struct Statement {
    pub kind: StatementKind,
    pub span: Span,
}

/// The statement grammar.  `while` and `for` never appear here: the
/// parser desugars both into `Loop`.
#[derive(Debug, PartialEq, Eq)]
pub enum StatementKind {
    Block(Block),
    LocalDecl(LocalDecl),
    If { condition: Handle, accept: Block, reject: Block },
    Switch { selector: Handle, cases: Vec<SwitchCase> },
    Loop { body: Block, continuing: Block, break_if: Option<Handle> },
    Break,
    Continue,
    Return { value: Option<Handle> },
    Kill,
    Call { function: Ident, arguments: Vec<Handle> },
    Assign { target: Handle, op: Option<BinaryOperator>, value: Handle },
    Increment(Handle),
    Decrement(Handle),
    Phony(Handle),
    ConstAssert(Handle),
}

/// How a varying is interpolated across a primitive.
#[derive(Clone, Copy, Debug, PartialEq, Eq, Structural)]
pub enum Interpolation {
    Perspective,
    Linear,
    Flat,
}

/// Where a varying is sampled within a pixel.
#[derive(Clone, Copy, Debug, PartialEq, Eq, Structural)]
pub enum Sampling {
    Center,
    Centroid,
    Sample,
    First,
    Either,
}

/// A value supplied by or to the pipeline rather than by user code.
#[derive(Clone, Copy, Debug, PartialEq, Eq, Structural)]
pub enum BuiltIn {
    Position { invariant: bool },
    ViewIndex,
    InstanceIndex,
    VertexIndex,
    FragDepth,
    FrontFacing,
    PrimitiveIndex,
    SampleIndex,
    SampleMask,
    GlobalInvocationId,
    LocalInvocationId,
    LocalInvocationIndex,
    WorkGroupId,
    NumWorkGroups,
    SubgroupId,
    SubgroupSize,
    SubgroupInvocationId,
}

/// How a function parameter, result, or struct member binds to the
/// pipeline: either a numbered location with interpolation choices, or a
/// single built-in value.
#[derive(Debug, PartialEq, Eq)]
pub enum Binding {
    BuiltIn(BuiltIn),
    Location {
        location: Handle,
        interpolation: Option<Interpolation>,
        sampling: Option<Sampling>,
        second_blend_source: bool,
    },
}

/// The `@group` / `@binding` pair attached to a resource variable.
#[derive(Debug, PartialEq, Eq)]
pub struct ResourceBinding {
    pub group: Handle,
    pub binding: Handle,
}

/// A pipeline stage a function can be an entry point for.
#[derive(Clone, Copy, Debug, PartialEq, Eq, Structural)]
pub enum ShaderStage {
    Vertex,
    Fragment,
    Compute,
}

/// How conservatively an early depth test may run.
#[derive(Clone, Copy, Debug, PartialEq, Eq, Structural)]
pub enum ConservativeDepth {
    GreaterEqual,
    LessEqual,
    Unchanged,
}

/// The `@early_depth_test` attribute's payload.
#[derive(Clone, Copy, Debug, PartialEq, Eq, Structural)]
pub struct EarlyDepthTest {
    pub conservative: Option<ConservativeDepth>,
}

/// Entry-point metadata carried by a stage-annotated function.
#[derive(Debug, PartialEq, Eq)]
pub struct EntryPoint {
    pub stage: ShaderStage,
    pub early_depth_test: Option<EarlyDepthTest>,
    pub workgroup_size: Option<[Option<Handle>; 3]>,
}

/// One parameter of a function.
#[derive(Debug, PartialEq, Eq)]
pub struct FunctionArgument {
    pub name: Ident,
    pub ty: Handle,
    pub binding: Option<Binding>,
    pub handle: Handle,
}

/// A function's return type with its optional pipeline binding.
#[derive(Debug, PartialEq, Eq)]
pub struct FunctionResult {
    pub ty: Handle,
    pub binding: Option<Binding>,
}

/// A function declaration.
#[derive(Debug, PartialEq, Eq)]
pub struct Function {
    pub entry_point: Option<EntryPoint>,
    pub name: Ident,
    pub arguments: Vec<FunctionArgument>,
    pub result: Option<FunctionResult>,
    pub body: Block,
    pub locals: Arena<Local>,
    pub diagnostic_filter_leaf: Option<Handle>,
}

/// One member of a struct declaration.
#[derive(Debug, PartialEq, Eq)]
pub struct StructMember {
    pub name: Ident,
    pub ty: Handle,
    pub binding: Option<Binding>,
    pub size: Option<Handle>,
    pub align: Option<Handle>,
}

/// A struct declaration.
#[derive(Debug, PartialEq, Eq)]
pub struct StructDecl {
    pub name: Ident,
    pub members: Vec<StructMember>,
}

/// An `alias` declaration.
#[derive(Debug, PartialEq, Eq)]
pub struct TypeAlias {
    pub name: Ident,
    pub ty: Handle,
}

/// A module-scope `const` declaration.
#[derive(Debug, PartialEq, Eq)]
pub struct ConstDecl {
    pub name: Ident,
    pub ty: Option<Handle>,
    pub init: Handle,
}

/// An `override` declaration.
#[derive(Debug, PartialEq, Eq)]
pub struct OverrideDecl {
    pub name: Ident,
    pub id: Option<Handle>,
    pub ty: Option<Handle>,
    pub init: Option<Handle>,
}

/// A module-scope `var` declaration.
#[derive(Debug, PartialEq, Eq)]
pub struct GlobalVariable {
    pub name: Ident,
    pub space: AddressSpace,
    pub binding: Option<ResourceBinding>,
    pub ty: Option<Handle>,
    pub init: Option<Handle>,
}

/// The kind of one global declaration.
#[derive(Debug, PartialEq, Eq)]
pub enum GlobalDeclKind {
    Fn(Function),
    Var(GlobalVariable),
    Const(ConstDecl),
    Override(OverrideDecl),
    Struct(StructDecl),
    Type(TypeAlias),
    ConstAssert(Handle),
}

/// One global declaration with the dependency set gathered while
/// parsing it.
#[derive(Debug, PartialEq, Eq)]
pub struct GlobalDecl {
    pub kind: GlobalDeclKind,
    pub dependencies: Vec<Dependency>,
}

/// The language extensions an `enable` directive can switch on here.
#[derive(Clone, Copy, Debug, PartialEq, Eq, Structural, Default)]
pub struct EnableExtensions {
    pub dual_source_blending: bool,
    pub clip_distances: bool,
}

/// A diagnostic the parser reports without aborting.
#[derive(Debug, PartialEq, Eq)]
pub enum WarningKind {
    /// A `diagnostic(...)` directive named a rule this implementation
    /// does not know; the filter is kept under an opaque key.
    UnknownDiagnosticRuleName,
}

/// A non-fatal report produced during parsing.
#[derive(Debug, PartialEq, Eq)]
pub struct Warning {
    pub kind: WarningKind,
    pub span: Span,
}

/// Everything one parse produces: the arenas, the ordered global
/// declarations, the diagnostic-filter tree, the enabled extensions,
/// and any non-fatal warnings.
#[derive(Debug, PartialEq, Eq)]
pub struct TranslationUnit {
    pub expressions: Arena<Expression>,
    pub types: Arena<Type>,
    pub decls: Arena<GlobalDecl>,
    pub diagnostic_filters: Arena<DiagnosticFilterNode>,
    pub diagnostic_filter_leaf: Option<Handle>,
    pub enable_extensions: EnableExtensions,
    pub warnings: Vec<Warning>,
}

impl TranslationUnit {
    pub fn new() -> (r: TranslationUnit)
        ensures
            r.expressions.wf(),
            r.types.wf(),
            r.decls.wf(),
            r.diagnostic_filters.wf(),
            r.expressions.view() =~= Seq::<Expression>::empty(),
            r.types.view() =~= Seq::<Type>::empty(),
            r.decls.view() =~= Seq::<GlobalDecl>::empty(),
            r.diagnostic_filters.view() =~= Seq::<DiagnosticFilterNode>::empty(),
            r.diagnostic_filter_leaf is None,
            r.warnings@.len() == 0,
    {
        TranslationUnit {
            expressions: Arena::new(),
            types: Arena::new(),
            decls: Arena::new(),
            diagnostic_filters: Arena::new(),
            diagnostic_filter_leaf: None,
            enable_extensions: EnableExtensions { dual_source_blending: false, clip_distances: false },
            warnings: Vec::new(),
        }
    }
}

} // verus!
