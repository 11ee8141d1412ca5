//! The type declarator: resolves type keywords into AST type nodes —
//! scalars, vectors, matrices, atomics, pointers, arrays, samplers,
//! textures and opaque types — and records any other name as an
//! unresolved user type for a later resolution pass.

use vstd::prelude::*;
use vstd::string::StringSliceAdditionalSpecFns;

use crate::arena::{Handle, Span};
use crate::ast::{
    AddressSpace, ArraySize, ConstructorType, Ident, ImageClass, ImageDimension, Scalar,
    ScalarKind, StorageAccess, TranslationUnit, Type, VectorSize,
};
use crate::conv;
use crate::error::{Error, ExpectedToken};
use crate::expr::{fx_extends, tu_extends, tu_wf, FnCtx};
use crate::parser::Parser;
use crate::rules::Rule;
use crate::stream::TokenStream;
use crate::token::{bytes_eq, Token};

verus! {

/// A sampled texture's component type must be a 4-byte float, signed or
/// unsigned integer.
pub open spec fn texture_sample_ok(scalar: Scalar) -> bool {
    scalar.width == 4 && (scalar.kind is Float || scalar.kind is Sint || scalar.kind is Uint)
}

/// Decides [`texture_sample_ok`], reporting the offending scalar.
pub fn check_texture_sample_type(scalar: Scalar, span: Span) -> (r: Result<(), Error>)
    ensures
        match r {
            Ok(()) => texture_sample_ok(scalar),
            Err(e) => !texture_sample_ok(scalar) && e == (Error::BadTextureSampleType {
                span,
                scalar,
            }),
        },
{
    let kind_ok = match scalar.kind {
        ScalarKind::Float => true,
        ScalarKind::Sint => true,
        ScalarKind::Uint => true,
        ScalarKind::Bool => false,
    };
    if scalar.width == 4 && kind_ok {
        Ok(())
    } else {
        Err(Error::BadTextureSampleType { span, scalar })
    }
}

/// The translation unit with only its type arena possibly changed.
pub open spec fn tu_unchanged_except_types(post: TranslationUnit, pre: TranslationUnit) -> bool {
    &&& post.expressions == pre.expressions
    &&& post.decls == pre.decls
    &&& post.diagnostic_filters == pre.diagnostic_filters
    &&& post.diagnostic_filter_leaf == pre.diagnostic_filter_leaf
    &&& post.enable_extensions == pre.enable_extensions
    &&& post.warnings == pre.warnings
}

/// The scalar named by a `<scalar>` generic argument starting at `p`,
/// if the three tokens there form one.
pub open spec fn scalar_generic_at(toks: Seq<Token>, p: int) -> Option<Scalar> {
    if 0 <= p && p + 2 < toks.len() {
        match (toks[p], toks[p + 1], toks[p + 2]) {
            (Token::Paren(o), Token::Word(w), Token::Paren(c)) => if o == 60 && c == 62 {
                conv::scalar_kw_spec(w@)
            } else {
                None
            },
            _ => None,
        }
    } else {
        None
    }
}

/// Type keywords that name opaque resources and cannot be written as
/// value constructors.
pub open spec fn not_constructible_spec(w: Seq<u8>) -> bool {
    ||| w == "atomic".spec_bytes()
    ||| w == "binding_array".spec_bytes()
    ||| w == "sampler".spec_bytes()
    ||| w == "sampler_comparison".spec_bytes()
    ||| w == "texture_1d".spec_bytes()
    ||| w == "texture_1d_array".spec_bytes()
    ||| w == "texture_2d".spec_bytes()
    ||| w == "texture_2d_array".spec_bytes()
    ||| w == "texture_3d".spec_bytes()
    ||| w == "texture_cube".spec_bytes()
    ||| w == "texture_cube_array".spec_bytes()
    ||| w == "texture_multisampled_2d".spec_bytes()
    ||| w == "texture_multisampled_2d_array".spec_bytes()
    ||| w == "texture_depth_2d".spec_bytes()
    ||| w == "texture_depth_2d_array".spec_bytes()
    ||| w == "texture_depth_cube".spec_bytes()
    ||| w == "texture_depth_cube_array".spec_bytes()
    ||| w == "texture_depth_multisampled_2d".spec_bytes()
    ||| w == "texture_storage_1d".spec_bytes()
    ||| w == "texture_storage_1d_array".spec_bytes()
    ||| w == "texture_storage_2d".spec_bytes()
    ||| w == "texture_storage_2d_array".spec_bytes()
    ||| w == "texture_storage_3d".spec_bytes()
}

/// Decides [`not_constructible_spec`].
fn is_not_constructible(w: &[u8]) -> (r: bool)
    ensures
        r == not_constructible_spec(w@),
{
    bytes_eq(w, "atomic".as_bytes()) || bytes_eq(w, "binding_array".as_bytes()) || bytes_eq(
        w,
        "sampler".as_bytes(),
    ) || bytes_eq(w, "sampler_comparison".as_bytes()) || bytes_eq(w, "texture_1d".as_bytes())
        || bytes_eq(w, "texture_1d_array".as_bytes()) || bytes_eq(w, "texture_2d".as_bytes())
        || bytes_eq(w, "texture_2d_array".as_bytes()) || bytes_eq(w, "texture_3d".as_bytes())
        || bytes_eq(w, "texture_cube".as_bytes()) || bytes_eq(w, "texture_cube_array".as_bytes())
        || bytes_eq(w, "texture_multisampled_2d".as_bytes()) || bytes_eq(
        w,
        "texture_multisampled_2d_array".as_bytes(),
    ) || bytes_eq(w, "texture_depth_2d".as_bytes()) || bytes_eq(
        w,
        "texture_depth_2d_array".as_bytes(),
    ) || bytes_eq(w, "texture_depth_cube".as_bytes()) || bytes_eq(
        w,
        "texture_depth_cube_array".as_bytes(),
    ) || bytes_eq(w, "texture_depth_multisampled_2d".as_bytes()) || bytes_eq(
        w,
        "texture_storage_1d".as_bytes(),
    ) || bytes_eq(w, "texture_storage_1d_array".as_bytes()) || bytes_eq(
        w,
        "texture_storage_2d".as_bytes(),
    ) || bytes_eq(w, "texture_storage_2d_array".as_bytes()) || bytes_eq(
        w,
        "texture_storage_3d".as_bytes(),
    )
}

/// The format and access named by a `<format, access>` generic argument
/// starting at `p`, if the five tokens there form one.
pub open spec fn format_generic_at(toks: Seq<Token>, p: int) -> Option<
    (crate::ast::StorageFormat, StorageAccess),
> {
    if 0 <= p && p + 4 < toks.len() {
        match (toks[p], toks[p + 1], toks[p + 2], toks[p + 3], toks[p + 4]) {
            (
                Token::Paren(o),
                Token::Word(w1),
                Token::Separator(m),
                Token::Word(w2),
                Token::Paren(c),
            ) => if o == 60 && m == 44 && c == 62 {
                match (conv::storage_format_spec(w1@), conv::storage_access_spec(w2@)) {
                    (Some(f), Some(a)) => Some((f, a)),
                    _ => None,
                }
            } else {
                None
            },
            _ => None,
        }
    } else {
        None
    }
}

/// How a word classifies for a construction expression, in the order
/// the dispatch tests it; the following tokens then decide between the
/// partial and the fully generic constructors.
#[derive(Clone, Copy, Debug, PartialEq, Eq, Structural)]
pub enum CtorKw {
    Scalar(Scalar),
    VectorSuffixed(VectorSize, Scalar),
    MatrixSuffixed(VectorSize, VectorSize),
    Unconstructible,
    Vector(VectorSize),
    Matrix(VectorSize, VectorSize),
    ArrayKw,
    Other,
}

/// The construction-keyword table.
pub open spec fn ctor_kw_spec(w: Seq<u8>) -> CtorKw {
    if conv::scalar_kw_spec(w) is Some {
        CtorKw::Scalar(conv::scalar_kw_spec(w)->Some_0)
    } else if vector_suffixed_kw_spec(w) is Some {
        CtorKw::VectorSuffixed(
            vector_suffixed_kw_spec(w)->Some_0.0,
            vector_suffixed_kw_spec(w)->Some_0.1,
        )
    } else if matrix_suffixed_kw_spec(w) is Some {
        CtorKw::MatrixSuffixed(
            matrix_suffixed_kw_spec(w)->Some_0.0,
            matrix_suffixed_kw_spec(w)->Some_0.1,
        )
    } else if not_constructible_spec(w) {
        CtorKw::Unconstructible
    } else if vector_kw_spec(w) is Some {
        CtorKw::Vector(vector_kw_spec(w)->Some_0)
    } else if matrix_kw_spec(w) is Some {
        CtorKw::Matrix(matrix_kw_spec(w)->Some_0.0, matrix_kw_spec(w)->Some_0.1)
    } else if w == "array".spec_bytes() {
        CtorKw::ArrayKw
    } else {
        CtorKw::Other
    }
}

/// The bare vector keywords.
pub open spec fn vector_kw_spec(w: Seq<u8>) -> Option<VectorSize> {
    if w == "vec2".spec_bytes() {
        Some(VectorSize::Bi)
    } else if w == "vec3".spec_bytes() {
        Some(VectorSize::Tri)
    } else if w == "vec4".spec_bytes() {
        Some(VectorSize::Quad)
    } else {
        None
    }
}

/// Decides [`vector_kw_spec`].
fn vector_kw(w: &[u8]) -> (r: Option<VectorSize>)
    ensures
        r == vector_kw_spec(w@),
{
    if bytes_eq(w, "vec2".as_bytes()) {
        Some(VectorSize::Bi)
    } else if bytes_eq(w, "vec3".as_bytes()) {
        Some(VectorSize::Tri)
    } else if bytes_eq(w, "vec4".as_bytes()) {
        Some(VectorSize::Quad)
    } else {
        None
    }
}

/// The suffixed vector keywords such as `vec3f`, fixing the component
/// scalar.
pub open spec fn vector_suffixed_kw_spec(w: Seq<u8>) -> Option<(VectorSize, Scalar)> {
    let sint = Scalar { kind: ScalarKind::Sint, width: 4 };
    let uint = Scalar { kind: ScalarKind::Uint, width: 4 };
    let float = Scalar { kind: ScalarKind::Float, width: 4 };
    if w == "vec2i".spec_bytes() {
        Some((VectorSize::Bi, sint))
    } else if w == "vec2u".spec_bytes() {
        Some((VectorSize::Bi, uint))
    } else if w == "vec2f".spec_bytes() {
        Some((VectorSize::Bi, float))
    } else if w == "vec3i".spec_bytes() {
        Some((VectorSize::Tri, sint))
    } else if w == "vec3u".spec_bytes() {
        Some((VectorSize::Tri, uint))
    } else if w == "vec3f".spec_bytes() {
        Some((VectorSize::Tri, float))
    } else if w == "vec4i".spec_bytes() {
        Some((VectorSize::Quad, sint))
    } else if w == "vec4u".spec_bytes() {
        Some((VectorSize::Quad, uint))
    } else if w == "vec4f".spec_bytes() {
        Some((VectorSize::Quad, float))
    } else {
        None
    }
}

/// Decides [`vector_suffixed_kw_spec`].
fn vector_suffixed_kw(w: &[u8]) -> (r: Option<(VectorSize, Scalar)>)
    ensures
        r == vector_suffixed_kw_spec(w@),
{
    let sint = Scalar { kind: ScalarKind::Sint, width: 4 };
    let uint = Scalar { kind: ScalarKind::Uint, width: 4 };
    let float = Scalar { kind: ScalarKind::Float, width: 4 };
    if bytes_eq(w, "vec2i".as_bytes()) {
        Some((VectorSize::Bi, sint))
    } else if bytes_eq(w, "vec2u".as_bytes()) {
        Some((VectorSize::Bi, uint))
    } else if bytes_eq(w, "vec2f".as_bytes()) {
        Some((VectorSize::Bi, float))
    } else if bytes_eq(w, "vec3i".as_bytes()) {
        Some((VectorSize::Tri, sint))
    } else if bytes_eq(w, "vec3u".as_bytes()) {
        Some((VectorSize::Tri, uint))
    } else if bytes_eq(w, "vec3f".as_bytes()) {
        Some((VectorSize::Tri, float))
    } else if bytes_eq(w, "vec4i".as_bytes()) {
        Some((VectorSize::Quad, sint))
    } else if bytes_eq(w, "vec4u".as_bytes()) {
        Some((VectorSize::Quad, uint))
    } else if bytes_eq(w, "vec4f".as_bytes()) {
        Some((VectorSize::Quad, float))
    } else {
        None
    }
}

/// The bare matrix keywords, by column and row counts.
pub open spec fn matrix_kw_spec(w: Seq<u8>) -> Option<(VectorSize, VectorSize)> {
    if w == "mat2x2".spec_bytes() {
        Some((VectorSize::Bi, VectorSize::Bi))
    } else if w == "mat2x3".spec_bytes() {
        Some((VectorSize::Bi, VectorSize::Tri))
    } else if w == "mat2x4".spec_bytes() {
        Some((VectorSize::Bi, VectorSize::Quad))
    } else if w == "mat3x2".spec_bytes() {
        Some((VectorSize::Tri, VectorSize::Bi))
    } else if w == "mat3x3".spec_bytes() {
        Some((VectorSize::Tri, VectorSize::Tri))
    } else if w == "mat3x4".spec_bytes() {
        Some((VectorSize::Tri, VectorSize::Quad))
    } else if w == "mat4x2".spec_bytes() {
        Some((VectorSize::Quad, VectorSize::Bi))
    } else if w == "mat4x3".spec_bytes() {
        Some((VectorSize::Quad, VectorSize::Tri))
    } else if w == "mat4x4".spec_bytes() {
        Some((VectorSize::Quad, VectorSize::Quad))
    } else {
        None
    }
}

/// Decides [`matrix_kw_spec`].
fn matrix_kw(w: &[u8]) -> (r: Option<(VectorSize, VectorSize)>)
    ensures
        r == matrix_kw_spec(w@),
{
    if bytes_eq(w, "mat2x2".as_bytes()) {
        Some((VectorSize::Bi, VectorSize::Bi))
    } else if bytes_eq(w, "mat2x3".as_bytes()) {
        Some((VectorSize::Bi, VectorSize::Tri))
    } else if bytes_eq(w, "mat2x4".as_bytes()) {
        Some((VectorSize::Bi, VectorSize::Quad))
    } else if bytes_eq(w, "mat3x2".as_bytes()) {
        Some((VectorSize::Tri, VectorSize::Bi))
    } else if bytes_eq(w, "mat3x3".as_bytes()) {
        Some((VectorSize::Tri, VectorSize::Tri))
    } else if bytes_eq(w, "mat3x4".as_bytes()) {
        Some((VectorSize::Tri, VectorSize::Quad))
    } else if bytes_eq(w, "mat4x2".as_bytes()) {
        Some((VectorSize::Quad, VectorSize::Bi))
    } else if bytes_eq(w, "mat4x3".as_bytes()) {
        Some((VectorSize::Quad, VectorSize::Tri))
    } else if bytes_eq(w, "mat4x4".as_bytes()) {
        Some((VectorSize::Quad, VectorSize::Quad))
    } else {
        None
    }
}

/// The `f`-suffixed matrix keywords such as `mat4x4f`.
pub open spec fn matrix_suffixed_kw_spec(w: Seq<u8>) -> Option<(VectorSize, VectorSize)> {
    if w == "mat2x2f".spec_bytes() {
        Some((VectorSize::Bi, VectorSize::Bi))
    } else if w == "mat2x3f".spec_bytes() {
        Some((VectorSize::Bi, VectorSize::Tri))
    } else if w == "mat2x4f".spec_bytes() {
        Some((VectorSize::Bi, VectorSize::Quad))
    } else if w == "mat3x2f".spec_bytes() {
        Some((VectorSize::Tri, VectorSize::Bi))
    } else if w == "mat3x3f".spec_bytes() {
        Some((VectorSize::Tri, VectorSize::Tri))
    } else if w == "mat3x4f".spec_bytes() {
        Some((VectorSize::Tri, VectorSize::Quad))
    } else if w == "mat4x2f".spec_bytes() {
        Some((VectorSize::Quad, VectorSize::Bi))
    } else if w == "mat4x3f".spec_bytes() {
        Some((VectorSize::Quad, VectorSize::Tri))
    } else if w == "mat4x4f".spec_bytes() {
        Some((VectorSize::Quad, VectorSize::Quad))
    } else {
        None
    }
}

/// Decides [`matrix_suffixed_kw_spec`].
fn matrix_suffixed_kw(w: &[u8]) -> (r: Option<(VectorSize, VectorSize)>)
    ensures
        r == matrix_suffixed_kw_spec(w@),
{
    if bytes_eq(w, "mat2x2f".as_bytes()) {
        Some((VectorSize::Bi, VectorSize::Bi))
    } else if bytes_eq(w, "mat2x3f".as_bytes()) {
        Some((VectorSize::Bi, VectorSize::Tri))
    } else if bytes_eq(w, "mat2x4f".as_bytes()) {
        Some((VectorSize::Bi, VectorSize::Quad))
    } else if bytes_eq(w, "mat3x2f".as_bytes()) {
        Some((VectorSize::Tri, VectorSize::Bi))
    } else if bytes_eq(w, "mat3x3f".as_bytes()) {
        Some((VectorSize::Tri, VectorSize::Tri))
    } else if bytes_eq(w, "mat3x4f".as_bytes()) {
        Some((VectorSize::Tri, VectorSize::Quad))
    } else if bytes_eq(w, "mat4x2f".as_bytes()) {
        Some((VectorSize::Quad, VectorSize::Bi))
    } else if bytes_eq(w, "mat4x3f".as_bytes()) {
        Some((VectorSize::Quad, VectorSize::Tri))
    } else if bytes_eq(w, "mat4x4f".as_bytes()) {
        Some((VectorSize::Quad, VectorSize::Quad))
    } else {
        None
    }
}

/// Appends a scalar type node with no source span, for the shorthand
/// type keywords that imply one.
fn new_scalar(tu: &mut TranslationUnit, scalar: Scalar) -> (r: Handle)
    requires
        tu_wf(*old(tu)),
    ensures
        tu_wf(*final(tu)),
        tu_extends(*final(tu), *old(tu)),
        r.index < final(tu).types.view().len(),
        final(tu).types.view() =~= old(tu).types.view().push(Type::Scalar(scalar)),
        final(tu).expressions == old(tu).expressions,
        final(tu).decls == old(tu).decls,
        final(tu).diagnostic_filters == old(tu).diagnostic_filters,
        final(tu).diagnostic_filter_leaf == old(tu).diagnostic_filter_leaf,
    decreases 0int,
{
    tu.types.append(Type::Scalar(scalar), Span::undefined())
}

impl Parser {
    /// Parses `<scalar>`, returning the scalar and its span.
    fn next_scalar_generic(&mut self, ts: &mut TokenStream) -> (r: Result<(Scalar, Span), Error>)
        requires
            old(ts).wf(),
        ensures
            final(ts).wf(),
            TokenStream::stepped_from(*final(ts), *old(ts)),
            final(self).rules.view() == old(self).rules.view(),
            r is Ok ==> final(ts).pos() > old(ts).pos(),
            scalar_generic_at(old(ts).tokens(), old(ts).pos()) matches Some(s) ==> r == Ok::<
                (Scalar, Span),
                Error,
            >((s, old(ts).spans()[old(ts).pos() + 1])) && final(ts).pos() == old(ts).pos() + 3
                && final(ts).tokens() == old(ts).tokens(),
        decreases old(ts).remaining(), 6int,
    {
        match ts.expect_generic_open() {
            Ok(()) => (),
            Err(e) => {
                return Err(e);
            },
        }
        let (word, span) = match ts.next_ident_with_span() {
            Ok(p) => p,
            Err(e) => {
                return Err(e);
            },
        };
        let scalar = match conv::get_scalar_type(word.as_slice()) {
            Some(s) => s,
            None => {
                return Err(Error::UnknownScalarType(span));
            },
        };
        match ts.expect_generic_close() {
            Ok(()) => (),
            Err(e) => {
                return Err(e);
            },
        }
        Ok((scalar, span))
    }

    /// Parses `<format, access>` for a storage texture.
    fn next_format_generic(&mut self, ts: &mut TokenStream) -> (r: Result<
        (crate::ast::StorageFormat, StorageAccess),
        Error,
    >)
        requires
            old(ts).wf(),
        ensures
            final(ts).wf(),
            TokenStream::stepped_from(*final(ts), *old(ts)),
            final(self).rules.view() == old(self).rules.view(),
            r is Ok ==> final(ts).pos() > old(ts).pos(),
            format_generic_at(old(ts).tokens(), old(ts).pos()) matches Some(fa) ==> r == Ok::<
                (crate::ast::StorageFormat, StorageAccess),
                Error,
            >(fa) && final(ts).pos() == old(ts).pos() + 5 && final(ts).tokens() == old(ts).tokens(),
        decreases old(ts).remaining(), 6int,
    {
        match ts.expect_generic_open() {
            Ok(()) => (),
            Err(e) => {
                return Err(e);
            },
        }
        let (word, span) = match ts.next_ident_with_span() {
            Ok(p) => p,
            Err(e) => {
                return Err(e);
            },
        };
        let format = match conv::map_storage_format(word.as_slice()) {
            Some(f) => f,
            None => {
                return Err(Error::UnknownStorageFormat(span));
            },
        };
        match ts.expect(&Token::Separator(44)) {
            Ok(()) => (),
            Err(e) => {
                return Err(e);
            },
        }
        let (aword, aspan) = match ts.next_ident_with_span() {
            Ok(p) => p,
            Err(e) => {
                return Err(e);
            },
        };
        let access = match conv::map_storage_access(aword.as_slice()) {
            Some(a) => a,
            None => {
                return Err(Error::UnknownStorageAccess(aspan));
            },
        };
        match ts.expect_generic_close() {
            Ok(()) => (),
            Err(e) => {
                return Err(e);
            },
        }
        Ok((format, access))
    }

    /// Parses `<T>`, returning the type and the span of `T`.
    pub fn singular_generic(
        &mut self,
        ts: &mut TokenStream,
        tu: &mut TranslationUnit,
        fx: &mut FnCtx,
    ) -> (r: Result<(Handle, Span), Error>)
        requires
            old(ts).wf(),
            tu_wf(*old(tu)),
            old(fx).wf(),
        ensures
            final(ts).wf(),
            tu_wf(*final(tu)),
            final(fx).wf(),
            TokenStream::stepped_from(*final(ts), *old(ts)),
            tu_extends(*final(tu), *old(tu)),
            fx_extends(*final(fx), *old(fx)),
            final(fx).table.view() == old(fx).table.view(),
            r is Ok ==> final(ts).pos() > old(ts).pos(),
            r is Ok ==> final(self).rules.view() == old(self).rules.view(),
            match r {
                Ok(p) => p.0.index < final(tu).types.view().len(),
                Err(_) => true,
            },
            scalar_generic_at(old(ts).tokens(), old(ts).pos()) matches Some(s) ==> (r matches Ok(p)
                && p.0 == Handle { index: old(tu).types.view().len() as usize } && p.1 == old(
                ts,
            ).spans()[old(ts).pos() + 1]) && final(tu).types.view() =~= old(tu).types.view().push(
                Type::Scalar(s),
            ) && tu_unchanged_except_types(*final(tu), *old(tu)) && final(ts).pos() == old(ts).pos()
                + 3 && final(ts).tokens() == old(ts).tokens() && *final(fx) == *old(fx),
        decreases old(ts).remaining(), 8int,
    {
        match ts.expect_generic_open() {
            Ok(()) => (),
            Err(e) => {
                return Err(e);
            },
        }
        let start = ts.start_byte_offset();
        let ty = match self.type_decl(ts, tu, fx) {
            Ok(h) => h,
            Err(e) => {
                return Err(e);
            },
        };
        let span = ts.span_from(start);
        match ts.expect_generic_close() {
            Ok(()) => (),
            Err(e) => {
                return Err(e);
            },
        }
        Ok((ty, span))
    }

    /// Parses the `<T>` of a matrix type keyword.
    fn matrix_with_type(
        &mut self,
        columns: VectorSize,
        rows: VectorSize,
        ts: &mut TokenStream,
        tu: &mut TranslationUnit,
        fx: &mut FnCtx,
    ) -> (r: Result<Type, Error>)
        requires
            old(ts).wf(),
            tu_wf(*old(tu)),
            old(fx).wf(),
        ensures
            final(ts).wf(),
            tu_wf(*final(tu)),
            final(fx).wf(),
            TokenStream::stepped_from(*final(ts), *old(ts)),
            tu_extends(*final(tu), *old(tu)),
            fx_extends(*final(fx), *old(fx)),
            final(fx).table.view() == old(fx).table.view(),
            r is Ok ==> final(ts).pos() > old(ts).pos(),
            r is Ok ==> final(self).rules.view() == old(self).rules.view(),
            scalar_generic_at(old(ts).tokens(), old(ts).pos()) matches Some(s) ==> r == Ok::<
                Type,
                Error,
            >(
                Type::Matrix {
                    columns,
                    rows,
                    ty: Handle { index: old(tu).types.view().len() as usize },
                    ty_span: old(ts).spans()[old(ts).pos() + 1],
                },
            ) && final(tu).types.view() =~= old(tu).types.view().push(
                Type::Scalar(s),
            ) && tu_unchanged_except_types(*final(tu), *old(tu)) && final(ts).pos() == old(ts).pos()
                + 3 && final(ts).tokens() == old(ts).tokens() && *final(fx) == *old(fx),
        decreases old(ts).remaining(), 9int,
    {
        let (ty, ty_span) = match self.singular_generic(ts, tu, fx) {
            Ok(p) => p,
            Err(e) => {
                return Err(e);
            },
        };
        Ok(Type::Matrix { columns, rows, ty, ty_span })
    }

    /// Recognizes one type keyword, parsing whatever generic arguments
    /// it requires; a word that is no type keyword yields nothing and
    /// consumes nothing.
    fn type_decl_impl(
        &mut self,
        word: &[u8],
        span: Span,
        ts: &mut TokenStream,
        tu: &mut TranslationUnit,
        fx: &mut FnCtx,
    ) -> (r: Result<Option<Type>, Error>)
        requires
            old(ts).wf(),
            tu_wf(*old(tu)),
            old(fx).wf(),
        ensures
            final(ts).wf(),
            tu_wf(*final(tu)),
            final(fx).wf(),
            TokenStream::stepped_from(*final(ts), *old(ts)),
            tu_extends(*final(tu), *old(tu)),
            fx_extends(*final(fx), *old(fx)),
            final(fx).table.view() == old(fx).table.view(),
            r is Ok ==> final(self).rules.view() == old(self).rules.view(),
            conv::scalar_kw_spec(word@) matches Some(s) ==> r == Ok::<Option<Type>, Error>(
                Some(Type::Scalar(s)),
            ) && *final(ts) == *old(ts) && *final(tu) == *old(tu) && *final(fx) == *old(fx),
        decreases old(ts).remaining(), 23int,
    {
        if let Some(scalar) = conv::get_scalar_type(word) {
            return Ok(Some(Type::Scalar(scalar)));
        }
        if let Some(size) = vector_kw(word) {
            let (ty, ty_span) = match self.singular_generic(ts, tu, fx) {
                Ok(p) => p,
                Err(e) => {
                    return Err(e);
                },
            };
            return Ok(Some(Type::Vector { size, ty, ty_span }));
        }
        if let Some((size, scalar)) = vector_suffixed_kw(word) {
            let ty = new_scalar(tu, scalar);
            return Ok(Some(Type::Vector { size, ty, ty_span: Span::undefined() }));
        }
        if let Some((columns, rows)) = matrix_kw(word) {
            let m = match self.matrix_with_type(columns, rows, ts, tu, fx) {
                Ok(m) => m,
                Err(e) => {
                    return Err(e);
                },
            };
            return Ok(Some(m));
        }
        if let Some((columns, rows)) = matrix_suffixed_kw(word) {
            let ty = new_scalar(tu, Scalar { kind: ScalarKind::Float, width: 4 });
            return Ok(
                Some(Type::Matrix { columns, rows, ty, ty_span: Span::undefined() }),
            );
        }
        if bytes_eq(word, "atomic".as_bytes()) {
            let (scalar, _span) = match self.next_scalar_generic(ts) {
                Ok(p) => p,
                Err(e) => {
                    return Err(e);
                },
            };
            return Ok(Some(Type::Atomic(scalar)));
        }
        if bytes_eq(word, "ptr".as_bytes()) {
            match ts.expect_generic_open() {
                Ok(()) => (),
                Err(e) => {
                    return Err(e);
                },
            }
            let (sword, sspan) = match ts.next_ident_with_span() {
                Ok(p) => p,
                Err(e) => {
                    return Err(e);
                },
            };
            let space = match conv::map_address_space(sword.as_slice()) {
                Some(s) => s,
                None => {
                    return Err(Error::UnknownAddressSpace(sspan));
                },
            };
            match ts.expect(&Token::Separator(44)) {
                Ok(()) => (),
                Err(e) => {
                    return Err(e);
                },
            }
            let base = match self.type_decl(ts, tu, fx) {
                Ok(h) => h,
                Err(e) => {
                    return Err(e);
                },
            };
            let is_storage = match space {
                AddressSpace::Storage { .. } => true,
                _ => false,
            };
            let space = if is_storage {
                // only the storage space takes an optional access mode,
                // defaulting to read-only
                if ts.skip(&Token::Separator(44)) {
                    let (aword, aspan) = match ts.next_ident_with_span() {
                        Ok(p) => p,
                        Err(e) => {
                            return Err(e);
                        },
                    };
                    match conv::map_storage_access(aword.as_slice()) {
                        Some(a) => AddressSpace::Storage { access: a },
                        None => {
                            return Err(Error::UnknownStorageAccess(aspan));
                        },
                    }
                } else {
                    AddressSpace::Storage { access: StorageAccess::Read }
                }
            } else {
                space
            };
            match ts.expect_generic_close() {
                Ok(()) => (),
                Err(e) => {
                    return Err(e);
                },
            }
            return Ok(Some(Type::Pointer { base, space }));
        }
        if bytes_eq(word, "array".as_bytes()) {
            match ts.expect_generic_open() {
                Ok(()) => (),
                Err(e) => {
                    return Err(e);
                },
            }
            let base = match self.type_decl(ts, tu, fx) {
                Ok(h) => h,
                Err(e) => {
                    return Err(e);
                },
            };
            let size = if ts.skip(&Token::Separator(44)) {
                let expr = match self.const_generic_expression(ts, tu, fx) {
                    Ok(h) => h,
                    Err(e) => {
                        return Err(e);
                    },
                };
                ArraySize::Constant(expr)
            } else {
                ArraySize::Dynamic
            };
            match ts.expect_generic_close() {
                Ok(()) => (),
                Err(e) => {
                    return Err(e);
                },
            }
            return Ok(Some(Type::Array { base, size }));
        }
        if bytes_eq(word, "binding_array".as_bytes()) {
            match ts.expect_generic_open() {
                Ok(()) => (),
                Err(e) => {
                    return Err(e);
                },
            }
            let base = match self.type_decl(ts, tu, fx) {
                Ok(h) => h,
                Err(e) => {
                    return Err(e);
                },
            };
            let size = if ts.skip(&Token::Separator(44)) {
                let expr = match self.unary_expression(crate::expr::ExprMode::Generic, ts, tu, fx) {
                    Ok(h) => h,
                    Err(e) => {
                        return Err(e);
                    },
                };
                ArraySize::Constant(expr)
            } else {
                ArraySize::Dynamic
            };
            match ts.expect_generic_close() {
                Ok(()) => (),
                Err(e) => {
                    return Err(e);
                },
            }
            return Ok(Some(Type::BindingArray { base, size }));
        }
        if bytes_eq(word, "sampler".as_bytes()) {
            return Ok(Some(Type::Sampler { comparison: false }));
        }
        if bytes_eq(word, "sampler_comparison".as_bytes()) {
            return Ok(Some(Type::Sampler { comparison: true }));
        }
        if let Some((dim, arrayed)) = sampled_texture_kw(word) {
            let (scalar, sspan) = match self.next_scalar_generic(ts) {
                Ok(p) => p,
                Err(e) => {
                    return Err(e);
                },
            };
            match check_texture_sample_type(scalar, sspan) {
                Ok(()) => (),
                Err(e) => {
                    return Err(e);
                },
            }
            let multi = is_multisampled_kw(word);
            return Ok(
                Some(
                    Type::Image { dim, arrayed, class: ImageClass::Sampled { kind: scalar.kind, multi } },
                ),
            );
        }
        if let Some((dim, arrayed, multi)) = depth_texture_kw(word) {
            return Ok(Some(Type::Image { dim, arrayed, class: ImageClass::Depth { multi } }));
        }
        if let Some((dim, arrayed)) = storage_texture_kw(word) {
            let (format, access) = match self.next_format_generic(ts) {
                Ok(p) => p,
                Err(e) => {
                    return Err(e);
                },
            };
            return Ok(
                Some(Type::Image { dim, arrayed, class: ImageClass::Storage { format, access } }),
            );
        }
        if bytes_eq(word, "acceleration_structure".as_bytes()) {
            return Ok(Some(Type::AccelerationStructure));
        }
        if bytes_eq(word, "ray_query".as_bytes()) {
            return Ok(Some(Type::RayQuery));
        }
        if bytes_eq(word, "RayDesc".as_bytes()) {
            return Ok(Some(Type::RayDesc));
        }
        if bytes_eq(word, "RayIntersection".as_bytes()) {
            return Ok(Some(Type::RayIntersection));
        }
        Ok(None)
    }

    /// Parses a type written at the current position.  A name that is no
    /// predeclared type becomes a `User` type and is recorded as a
    /// dependency: forward references to later declarations are legal.
    pub fn type_decl(
        &mut self,
        ts: &mut TokenStream,
        tu: &mut TranslationUnit,
        fx: &mut FnCtx,
    ) -> (r: Result<Handle, Error>)
        requires
            old(ts).wf(),
            tu_wf(*old(tu)),
            old(fx).wf(),
        ensures
            final(ts).wf(),
            tu_wf(*final(tu)),
            final(fx).wf(),
            TokenStream::stepped_from(*final(ts), *old(ts)),
            tu_extends(*final(tu), *old(tu)),
            fx_extends(*final(fx), *old(fx)),
            final(fx).table.view() == old(fx).table.view(),
            r is Ok ==> final(ts).pos() > old(ts).pos(),
            r is Ok ==> final(self).rules.view() == old(self).rules.view(),
            match r {
                Ok(h) => h.index < final(tu).types.view().len(),
                Err(_) => true,
            },
            (old(ts).cur() matches Token::Word(w) && conv::scalar_kw_spec(w@) is Some) ==> r
                == Ok::<Handle, Error>(
                Handle { index: old(tu).types.view().len() as usize },
            ) && (old(ts).cur() matches Token::Word(w) && final(tu).types.view() =~= old(
                tu,
            ).types.view().push(Type::Scalar(conv::scalar_kw_spec(w@)->Some_0))) && final(ts).pos()
                == old(ts).pos() + 1 && final(ts).tokens() == old(ts).tokens() && final(ts).spans()
                == old(ts).spans() && tu_unchanged_except_types(*final(tu), *old(tu)) && *final(fx)
                == *old(fx),
        decreases old(ts).remaining(), 24int,
    {
        self.push_rule_span(Rule::TypeDecl, ts);
        let (name, span) = match ts.next_ident_with_span() {
            Ok(p) => p,
            Err(e) => {
                return Err(e);
            },
        };
        let found = match self.type_decl_impl(name.as_slice(), span, ts, tu, fx) {
            Ok(t) => t,
            Err(e) => {
                return Err(e);
            },
        };
        let ty = match found {
            Some(t) => t,
            None => {
                let kept = crate::token::clone_bytes(name.as_slice());
                fx.record_dependency(kept, span);
                Type::User(Ident { name, span })
            },
        };
        let _ = self.pop_rule_span(ts);
        let handle = tu.types.append(ty, Span::undefined());
        proof {
            assert(final(self).rules.view() =~= old(self).rules.view());
        }
        Ok(handle)
    }

    /// Decides whether `word` opens a construction expression, returning
    /// the type to build; a keyword that names an unconstructible type is
    /// an error, and a word that is no type keyword yields nothing and
    /// consumes nothing.
    pub fn constructor_type(
        &mut self,
        word: &[u8],
        span: Span,
        ts: &mut TokenStream,
        tu: &mut TranslationUnit,
        fx: &mut FnCtx,
    ) -> (r: Result<Option<ConstructorType>, Error>)
        requires
            old(ts).wf(),
            tu_wf(*old(tu)),
            old(fx).wf(),
        ensures
            final(ts).wf(),
            tu_wf(*final(tu)),
            final(fx).wf(),
            TokenStream::stepped_from(*final(ts), *old(ts)),
            tu_extends(*final(tu), *old(tu)),
            fx_extends(*final(fx), *old(fx)),
            final(fx).table.view() == old(fx).table.view(),
            r is Ok ==> final(self).rules.view() == old(self).rules.view(),
            ctor_kw_spec(word@) is Scalar ==> r == Ok::<Option<ConstructorType>, Error>(
                Some(ConstructorType::Scalar(ctor_kw_spec(word@)->Scalar_0)),
            ) && *final(ts) == *old(ts) && *final(tu) == *old(tu) && *final(fx) == *old(fx),
            ctor_kw_spec(word@) is Unconstructible ==> r == Err::<Option<ConstructorType>, Error>(
                Error::TypeNotConstructible(span),
            ) && *final(ts) == *old(ts) && *final(tu) == *old(tu) && *final(fx) == *old(fx),
            (ctor_kw_spec(word@) is Vector && !(old(ts).cur() matches Token::Paren(c) && c == 60))
                ==> r == Ok::<Option<ConstructorType>, Error>(
                Some(ConstructorType::PartialVector { size: ctor_kw_spec(word@)->Vector_0 }),
            ) && *final(ts) == *old(ts) && *final(tu) == *old(tu) && *final(fx) == *old(fx),
            ctor_kw_spec(word@) is Other ==> r == Ok::<Option<ConstructorType>, Error>(None)
                && *final(ts) == *old(ts) && *final(tu) == *old(tu) && *final(fx) == *old(fx),
        decreases old(ts).remaining(), 11int,
    {
        if let Some(scalar) = conv::get_scalar_type(word) {
            return Ok(Some(ConstructorType::Scalar(scalar)));
        }
        if let Some((size, scalar)) = vector_suffixed_kw(word) {
            let ty = new_scalar(tu, scalar);
            return Ok(
                Some(ConstructorType::Vector { size, ty, ty_span: Span::undefined() }),
            );
        }
        if let Some((columns, rows)) = matrix_suffixed_kw(word) {
            let ty = new_scalar(tu, Scalar { kind: ScalarKind::Float, width: 4 });
            return Ok(
                Some(
                    ConstructorType::Matrix { columns, rows, ty, ty_span: Span::undefined() },
                ),
            );
        }
        if is_not_constructible(word) {
            return Err(Error::TypeNotConstructible(span));
        }
        let next_is_generic = match ts.peek() {
            Token::Paren(c) => *c == 60,
            _ => false,
        };
        if let Some(size) = vector_kw(word) {
            if next_is_generic {
                let (ty, ty_span) = match self.singular_generic(ts, tu, fx) {
                    Ok(p) => p,
                    Err(e) => {
                        return Err(e);
                    },
                };
                return Ok(Some(ConstructorType::Vector { size, ty, ty_span }));
            }
            return Ok(Some(ConstructorType::PartialVector { size }));
        }
        if let Some((columns, rows)) = matrix_kw(word) {
            if next_is_generic {
                let (ty, ty_span) = match self.singular_generic(ts, tu, fx) {
                    Ok(p) => p,
                    Err(e) => {
                        return Err(e);
                    },
                };
                return Ok(Some(ConstructorType::Matrix { columns, rows, ty, ty_span }));
            }
            return Ok(Some(ConstructorType::PartialMatrix { columns, rows }));
        }
        if bytes_eq(word, "array".as_bytes()) {
            if next_is_generic {
                match ts.expect_generic_open() {
                    Ok(()) => (),
                    Err(e) => {
                        return Err(e);
                    },
                }
                let base = match self.type_decl(ts, tu, fx) {
                    Ok(h) => h,
                    Err(e) => {
                        return Err(e);
                    },
                };
                let size = if ts.skip(&Token::Separator(44)) {
                    let expr = match self.const_generic_expression(ts, tu, fx) {
                        Ok(h) => h,
                        Err(e) => {
                            return Err(e);
                        },
                    };
                    ArraySize::Constant(expr)
                } else {
                    ArraySize::Dynamic
                };
                match ts.expect_generic_close() {
                    Ok(()) => (),
                    Err(e) => {
                        return Err(e);
                    },
                }
                return Ok(Some(ConstructorType::Array { base, size }));
            }
            return Ok(Some(ConstructorType::PartialArray));
        }
        Ok(None)
    }
}

/// Matches a sampled-texture keyword to its dimension and arrayedness.
fn sampled_texture_kw(w: &[u8]) -> (r: Option<(ImageDimension, bool)>)
{
    if bytes_eq(w, "texture_1d".as_bytes()) {
        Some((ImageDimension::D1, false))
    } else if bytes_eq(w, "texture_1d_array".as_bytes()) {
        Some((ImageDimension::D1, true))
    } else if bytes_eq(w, "texture_2d".as_bytes()) {
        Some((ImageDimension::D2, false))
    } else if bytes_eq(w, "texture_2d_array".as_bytes()) {
        Some((ImageDimension::D2, true))
    } else if bytes_eq(w, "texture_3d".as_bytes()) {
        Some((ImageDimension::D3, false))
    } else if bytes_eq(w, "texture_cube".as_bytes()) {
        Some((ImageDimension::Cube, false))
    } else if bytes_eq(w, "texture_cube_array".as_bytes()) {
        Some((ImageDimension::Cube, true))
    } else if bytes_eq(w, "texture_multisampled_2d".as_bytes()) {
        Some((ImageDimension::D2, false))
    } else if bytes_eq(w, "texture_multisampled_2d_array".as_bytes()) {
        Some((ImageDimension::D2, true))
    } else {
        None
    }
}

/// Whether a sampled-texture keyword is the multisampled variant.
fn is_multisampled_kw(w: &[u8]) -> (r: bool)
{
    bytes_eq(w, "texture_multisampled_2d".as_bytes()) || bytes_eq(
        w,
        "texture_multisampled_2d_array".as_bytes(),
    )
}

/// Matches a depth-texture keyword to dimension, arrayedness and
/// multisampling.
fn depth_texture_kw(w: &[u8]) -> (r: Option<(ImageDimension, bool, bool)>)
{
    if bytes_eq(w, "texture_depth_2d".as_bytes()) {
        Some((ImageDimension::D2, false, false))
    } else if bytes_eq(w, "texture_depth_2d_array".as_bytes()) {
        Some((ImageDimension::D2, true, false))
    } else if bytes_eq(w, "texture_depth_cube".as_bytes()) {
        Some((ImageDimension::Cube, false, false))
    } else if bytes_eq(w, "texture_depth_cube_array".as_bytes()) {
        Some((ImageDimension::Cube, true, false))
    } else if bytes_eq(w, "texture_depth_multisampled_2d".as_bytes()) {
        Some((ImageDimension::D2, false, true))
    } else {
        None
    }
}

/// Matches a storage-texture keyword to its dimension and arrayedness.
fn storage_texture_kw(w: &[u8]) -> (r: Option<(ImageDimension, bool)>)
{
    if bytes_eq(w, "texture_storage_1d".as_bytes()) {
        Some((ImageDimension::D1, false))
    } else if bytes_eq(w, "texture_storage_1d_array".as_bytes()) {
        Some((ImageDimension::D1, true))
    } else if bytes_eq(w, "texture_storage_2d".as_bytes()) {
        Some((ImageDimension::D2, false))
    } else if bytes_eq(w, "texture_storage_2d_array".as_bytes()) {
        Some((ImageDimension::D2, true))
    } else if bytes_eq(w, "texture_storage_3d".as_bytes()) {
        Some((ImageDimension::D3, false))
    } else {
        None
    }
}

} // verus!
