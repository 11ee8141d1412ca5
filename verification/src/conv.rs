//! Keyword tables: the closed maps from source words to scalar types,
//! address spaces, built-ins, texel formats, directive kinds and
//! extension names.  Each table is a spec function mirrored exactly by
//! an executable decider.

use vstd::prelude::*;
use vstd::string::StringSliceAdditionalSpecFns;

use crate::ast::{
    AddressSpace, BuiltIn, ConservativeDepth, Interpolation, Sampling, Scalar, ScalarKind,
    StorageAccess, StorageFormat,
};
use crate::diag::{Severity, StandardRule};
use crate::token::bytes_eq;

verus! {

/// The scalar-type keywords.
pub open spec fn scalar_kw_spec(w: Seq<u8>) -> Option<Scalar> {
    if w == "bool".spec_bytes() {
        Some(Scalar { kind: ScalarKind::Bool, width: 1 })
    } else if w == "i32".spec_bytes() {
        Some(Scalar { kind: ScalarKind::Sint, width: 4 })
    } else if w == "u32".spec_bytes() {
        Some(Scalar { kind: ScalarKind::Uint, width: 4 })
    } else if w == "f32".spec_bytes() {
        Some(Scalar { kind: ScalarKind::Float, width: 4 })
    } else if w == "f64".spec_bytes() {
        Some(Scalar { kind: ScalarKind::Float, width: 8 })
    } else if w == "f16".spec_bytes() {
        Some(Scalar { kind: ScalarKind::Float, width: 2 })
    } else {
        None
    }
}

/// Decides [`scalar_kw_spec`].
pub fn get_scalar_type(w: &[u8]) -> (r: Option<Scalar>)
    ensures
        r == scalar_kw_spec(w@),
{
    if bytes_eq(w, "bool".as_bytes()) {
        Some(Scalar { kind: ScalarKind::Bool, width: 1 })
    } else if bytes_eq(w, "i32".as_bytes()) {
        Some(Scalar { kind: ScalarKind::Sint, width: 4 })
    } else if bytes_eq(w, "u32".as_bytes()) {
        Some(Scalar { kind: ScalarKind::Uint, width: 4 })
    } else if bytes_eq(w, "f32".as_bytes()) {
        Some(Scalar { kind: ScalarKind::Float, width: 4 })
    } else if bytes_eq(w, "f64".as_bytes()) {
        Some(Scalar { kind: ScalarKind::Float, width: 8 })
    } else if bytes_eq(w, "f16".as_bytes()) {
        Some(Scalar { kind: ScalarKind::Float, width: 2 })
    } else {
        None
    }
}

/// The address-space keywords; `storage` starts with read-only access,
/// which the caller may widen from a following access mode.
pub open spec fn address_space_spec(w: Seq<u8>) -> Option<AddressSpace> {
    if w == "function".spec_bytes() {
        Some(AddressSpace::Function)
    } else if w == "private".spec_bytes() {
        Some(AddressSpace::Private)
    } else if w == "workgroup".spec_bytes() {
        Some(AddressSpace::WorkGroup)
    } else if w == "uniform".spec_bytes() {
        Some(AddressSpace::Uniform)
    } else if w == "storage".spec_bytes() {
        Some(AddressSpace::Storage { access: StorageAccess::Read })
    } else if w == "push_constant".spec_bytes() {
        Some(AddressSpace::PushConstant)
    } else {
        None
    }
}

/// Decides [`address_space_spec`].
pub fn map_address_space(w: &[u8]) -> (r: Option<AddressSpace>)
    ensures
        r == address_space_spec(w@),
{
    if bytes_eq(w, "function".as_bytes()) {
        Some(AddressSpace::Function)
    } else if bytes_eq(w, "private".as_bytes()) {
        Some(AddressSpace::Private)
    } else if bytes_eq(w, "workgroup".as_bytes()) {
        Some(AddressSpace::WorkGroup)
    } else if bytes_eq(w, "uniform".as_bytes()) {
        Some(AddressSpace::Uniform)
    } else if bytes_eq(w, "storage".as_bytes()) {
        Some(AddressSpace::Storage { access: StorageAccess::Read })
    } else if bytes_eq(w, "push_constant".as_bytes()) {
        Some(AddressSpace::PushConstant)
    } else {
        None
    }
}

/// The access-mode keywords.
pub open spec fn storage_access_spec(w: Seq<u8>) -> Option<StorageAccess> {
    if w == "read".spec_bytes() {
        Some(StorageAccess::Read)
    } else if w == "write".spec_bytes() {
        Some(StorageAccess::Write)
    } else if w == "read_write".spec_bytes() {
        Some(StorageAccess::ReadWrite)
    } else {
        None
    }
}

/// Decides [`storage_access_spec`].
pub fn map_storage_access(w: &[u8]) -> (r: Option<StorageAccess>)
    ensures
        r == storage_access_spec(w@),
{
    if bytes_eq(w, "read".as_bytes()) {
        Some(StorageAccess::Read)
    } else if bytes_eq(w, "write".as_bytes()) {
        Some(StorageAccess::Write)
    } else if bytes_eq(w, "read_write".as_bytes()) {
        Some(StorageAccess::ReadWrite)
    } else {
        None
    }
}

/// The built-in value names.
pub open spec fn built_in_spec(w: Seq<u8>) -> Option<BuiltIn> {
    if w == "position".spec_bytes() {
        Some(BuiltIn::Position { invariant: false })
    } else if w == "view_index".spec_bytes() {
        Some(BuiltIn::ViewIndex)
    } else if w == "instance_index".spec_bytes() {
        Some(BuiltIn::InstanceIndex)
    } else if w == "vertex_index".spec_bytes() {
        Some(BuiltIn::VertexIndex)
    } else if w == "frag_depth".spec_bytes() {
        Some(BuiltIn::FragDepth)
    } else if w == "front_facing".spec_bytes() {
        Some(BuiltIn::FrontFacing)
    } else if w == "primitive_index".spec_bytes() {
        Some(BuiltIn::PrimitiveIndex)
    } else if w == "sample_index".spec_bytes() {
        Some(BuiltIn::SampleIndex)
    } else if w == "sample_mask".spec_bytes() {
        Some(BuiltIn::SampleMask)
    } else if w == "global_invocation_id".spec_bytes() {
        Some(BuiltIn::GlobalInvocationId)
    } else if w == "local_invocation_id".spec_bytes() {
        Some(BuiltIn::LocalInvocationId)
    } else if w == "local_invocation_index".spec_bytes() {
        Some(BuiltIn::LocalInvocationIndex)
    } else if w == "workgroup_id".spec_bytes() {
        Some(BuiltIn::WorkGroupId)
    } else if w == "num_workgroups".spec_bytes() {
        Some(BuiltIn::NumWorkGroups)
    } else if w == "subgroup_id".spec_bytes() {
        Some(BuiltIn::SubgroupId)
    } else if w == "subgroup_size".spec_bytes() {
        Some(BuiltIn::SubgroupSize)
    } else if w == "subgroup_invocation_id".spec_bytes() {
        Some(BuiltIn::SubgroupInvocationId)
    } else {
        None
    }
}

/// Decides [`built_in_spec`].
pub fn map_built_in(w: &[u8]) -> (r: Option<BuiltIn>)
    ensures
        r == built_in_spec(w@),
{
    if bytes_eq(w, "position".as_bytes()) {
        Some(BuiltIn::Position { invariant: false })
    } else if bytes_eq(w, "view_index".as_bytes()) {
        Some(BuiltIn::ViewIndex)
    } else if bytes_eq(w, "instance_index".as_bytes()) {
        Some(BuiltIn::InstanceIndex)
    } else if bytes_eq(w, "vertex_index".as_bytes()) {
        Some(BuiltIn::VertexIndex)
    } else if bytes_eq(w, "frag_depth".as_bytes()) {
        Some(BuiltIn::FragDepth)
    } else if bytes_eq(w, "front_facing".as_bytes()) {
        Some(BuiltIn::FrontFacing)
    } else if bytes_eq(w, "primitive_index".as_bytes()) {
        Some(BuiltIn::PrimitiveIndex)
    } else if bytes_eq(w, "sample_index".as_bytes()) {
        Some(BuiltIn::SampleIndex)
    } else if bytes_eq(w, "sample_mask".as_bytes()) {
        Some(BuiltIn::SampleMask)
    } else if bytes_eq(w, "global_invocation_id".as_bytes()) {
        Some(BuiltIn::GlobalInvocationId)
    } else if bytes_eq(w, "local_invocation_id".as_bytes()) {
        Some(BuiltIn::LocalInvocationId)
    } else if bytes_eq(w, "local_invocation_index".as_bytes()) {
        Some(BuiltIn::LocalInvocationIndex)
    } else if bytes_eq(w, "workgroup_id".as_bytes()) {
        Some(BuiltIn::WorkGroupId)
    } else if bytes_eq(w, "num_workgroups".as_bytes()) {
        Some(BuiltIn::NumWorkGroups)
    } else if bytes_eq(w, "subgroup_id".as_bytes()) {
        Some(BuiltIn::SubgroupId)
    } else if bytes_eq(w, "subgroup_size".as_bytes()) {
        Some(BuiltIn::SubgroupSize)
    } else if bytes_eq(w, "subgroup_invocation_id".as_bytes()) {
        Some(BuiltIn::SubgroupInvocationId)
    } else {
        None
    }
}

/// The interpolation keywords.
pub open spec fn interpolation_spec(w: Seq<u8>) -> Option<Interpolation> {
    if w == "perspective".spec_bytes() {
        Some(Interpolation::Perspective)
    } else if w == "linear".spec_bytes() {
        Some(Interpolation::Linear)
    } else if w == "flat".spec_bytes() {
        Some(Interpolation::Flat)
    } else {
        None
    }
}

/// Decides [`interpolation_spec`].
pub fn map_interpolation(w: &[u8]) -> (r: Option<Interpolation>)
    ensures
        r == interpolation_spec(w@),
{
    if bytes_eq(w, "perspective".as_bytes()) {
        Some(Interpolation::Perspective)
    } else if bytes_eq(w, "linear".as_bytes()) {
        Some(Interpolation::Linear)
    } else if bytes_eq(w, "flat".as_bytes()) {
        Some(Interpolation::Flat)
    } else {
        None
    }
}

/// The sampling keywords.
pub open spec fn sampling_spec(w: Seq<u8>) -> Option<Sampling> {
    if w == "center".spec_bytes() {
        Some(Sampling::Center)
    } else if w == "centroid".spec_bytes() {
        Some(Sampling::Centroid)
    } else if w == "sample".spec_bytes() {
        Some(Sampling::Sample)
    } else if w == "first".spec_bytes() {
        Some(Sampling::First)
    } else if w == "either".spec_bytes() {
        Some(Sampling::Either)
    } else {
        None
    }
}

/// Decides [`sampling_spec`].
pub fn map_sampling(w: &[u8]) -> (r: Option<Sampling>)
    ensures
        r == sampling_spec(w@),
{
    if bytes_eq(w, "center".as_bytes()) {
        Some(Sampling::Center)
    } else if bytes_eq(w, "centroid".as_bytes()) {
        Some(Sampling::Centroid)
    } else if bytes_eq(w, "sample".as_bytes()) {
        Some(Sampling::Sample)
    } else if bytes_eq(w, "first".as_bytes()) {
        Some(Sampling::First)
    } else if bytes_eq(w, "either".as_bytes()) {
        Some(Sampling::Either)
    } else {
        None
    }
}

/// The conservative-depth keywords of `@early_depth_test`.
pub open spec fn conservative_depth_spec(w: Seq<u8>) -> Option<ConservativeDepth> {
    if w == "greater_equal".spec_bytes() {
        Some(ConservativeDepth::GreaterEqual)
    } else if w == "less_equal".spec_bytes() {
        Some(ConservativeDepth::LessEqual)
    } else if w == "unchanged".spec_bytes() {
        Some(ConservativeDepth::Unchanged)
    } else {
        None
    }
}

/// Decides [`conservative_depth_spec`].
pub fn map_conservative_depth(w: &[u8]) -> (r: Option<ConservativeDepth>)
    ensures
        r == conservative_depth_spec(w@),
{
    if bytes_eq(w, "greater_equal".as_bytes()) {
        Some(ConservativeDepth::GreaterEqual)
    } else if bytes_eq(w, "less_equal".as_bytes()) {
        Some(ConservativeDepth::LessEqual)
    } else if bytes_eq(w, "unchanged".as_bytes()) {
        Some(ConservativeDepth::Unchanged)
    } else {
        None
    }
}

/// The severity names a `diagnostic(...)` directive may use.
pub open spec fn severity_spec(w: Seq<u8>) -> Option<Severity> {
    if w == "off".spec_bytes() {
        Some(Severity::Off)
    } else if w == "info".spec_bytes() {
        Some(Severity::Info)
    } else if w == "warning".spec_bytes() {
        Some(Severity::Warning)
    } else if w == "error".spec_bytes() {
        Some(Severity::Error)
    } else {
        None
    }
}

/// Decides [`severity_spec`].
pub fn map_severity(w: &[u8]) -> (r: Option<Severity>)
    ensures
        r == severity_spec(w@),
{
    if bytes_eq(w, "off".as_bytes()) {
        Some(Severity::Off)
    } else if bytes_eq(w, "info".as_bytes()) {
        Some(Severity::Info)
    } else if bytes_eq(w, "warning".as_bytes()) {
        Some(Severity::Warning)
    } else if bytes_eq(w, "error".as_bytes()) {
        Some(Severity::Error)
    } else {
        None
    }
}

/// The diagnostic rule names this implementation knows.
pub open spec fn standard_rule_spec(w: Seq<u8>) -> Option<StandardRule> {
    if w == "derivative_uniformity".spec_bytes() {
        Some(StandardRule::DerivativeUniformity)
    } else if w == "subgroup_uniformity".spec_bytes() {
        Some(StandardRule::SubgroupUniformity)
    } else {
        None
    }
}

/// Decides [`standard_rule_spec`].
pub fn map_standard_rule(w: &[u8]) -> (r: Option<StandardRule>)
    ensures
        r == standard_rule_spec(w@),
{
    if bytes_eq(w, "derivative_uniformity".as_bytes()) {
        Some(StandardRule::DerivativeUniformity)
    } else if bytes_eq(w, "subgroup_uniformity".as_bytes()) {
        Some(StandardRule::SubgroupUniformity)
    } else {
        None
    }
}

/// The kinds of directive that may open a translation unit.
#[derive(Clone, Copy, Debug, PartialEq, Eq, Structural)]
pub enum DirectiveKind {
    Diagnostic,
    Enable,
    Requires,
}

/// The directive keywords.
pub open spec fn directive_kind_spec(w: Seq<u8>) -> Option<DirectiveKind> {
    if w == "diagnostic".spec_bytes() {
        Some(DirectiveKind::Diagnostic)
    } else if w == "enable".spec_bytes() {
        Some(DirectiveKind::Enable)
    } else if w == "requires".spec_bytes() {
        Some(DirectiveKind::Requires)
    } else {
        None
    }
}

/// Decides [`directive_kind_spec`].
pub fn map_directive_kind(w: &[u8]) -> (r: Option<DirectiveKind>)
    ensures
        r == directive_kind_spec(w@),
{
    if bytes_eq(w, "diagnostic".as_bytes()) {
        Some(DirectiveKind::Diagnostic)
    } else if bytes_eq(w, "enable".as_bytes()) {
        Some(DirectiveKind::Enable)
    } else if bytes_eq(w, "requires".as_bytes()) {
        Some(DirectiveKind::Requires)
    } else {
        None
    }
}

/// How an `enable` extension name is handled.
#[derive(Clone, Copy, Debug, PartialEq, Eq, Structural)]
pub enum EnableExtensionKind {
    DualSourceBlending,
    ClipDistances,
    /// `f16` is a known name whose support is not implemented.
    UnimplementedF16,
}

/// The `enable` extension names.
pub open spec fn enable_extension_spec(w: Seq<u8>) -> Option<EnableExtensionKind> {
    if w == "f16".spec_bytes() {
        Some(EnableExtensionKind::UnimplementedF16)
    } else if w == "dual_source_blending".spec_bytes() {
        Some(EnableExtensionKind::DualSourceBlending)
    } else if w == "clip_distances".spec_bytes() {
        Some(EnableExtensionKind::ClipDistances)
    } else {
        None
    }
}

/// Decides [`enable_extension_spec`].
pub fn map_enable_extension(w: &[u8]) -> (r: Option<EnableExtensionKind>)
    ensures
        r == enable_extension_spec(w@),
{
    if bytes_eq(w, "f16".as_bytes()) {
        Some(EnableExtensionKind::UnimplementedF16)
    } else if bytes_eq(w, "dual_source_blending".as_bytes()) {
        Some(EnableExtensionKind::DualSourceBlending)
    } else if bytes_eq(w, "clip_distances".as_bytes()) {
        Some(EnableExtensionKind::ClipDistances)
    } else {
        None
    }
}

/// Whether `w` names a `requires` language extension this grammar
/// accepts.
pub open spec fn language_extension_spec(w: Seq<u8>) -> bool {
    ||| w == "readonly_and_readwrite_storage_textures".spec_bytes()
    ||| w == "packed_4x8_integer_dot_product".spec_bytes()
    ||| w == "unrestricted_pointer_parameters".spec_bytes()
    ||| w == "pointer_composite_access".spec_bytes()
}

/// Decides [`language_extension_spec`].
pub fn is_language_extension(w: &[u8]) -> (r: bool)
    ensures
        r == language_extension_spec(w@),
{
    bytes_eq(w, "readonly_and_readwrite_storage_textures".as_bytes()) || bytes_eq(
        w,
        "packed_4x8_integer_dot_product".as_bytes(),
    ) || bytes_eq(w, "unrestricted_pointer_parameters".as_bytes()) || bytes_eq(
        w,
        "pointer_composite_access".as_bytes(),
    )
}

/// The storage texel format keywords.
pub open spec fn storage_format_spec(w: Seq<u8>) -> Option<StorageFormat> {
    if w == "r8unorm".spec_bytes() {
        Some(StorageFormat::R8Unorm)
    } else if w == "r8snorm".spec_bytes() {
        Some(StorageFormat::R8Snorm)
    } else if w == "r8uint".spec_bytes() {
        Some(StorageFormat::R8Uint)
    } else if w == "r8sint".spec_bytes() {
        Some(StorageFormat::R8Sint)
    } else if w == "r16uint".spec_bytes() {
        Some(StorageFormat::R16Uint)
    } else if w == "r16sint".spec_bytes() {
        Some(StorageFormat::R16Sint)
    } else if w == "r16float".spec_bytes() {
        Some(StorageFormat::R16Float)
    } else if w == "rg8unorm".spec_bytes() {
        Some(StorageFormat::Rg8Unorm)
    } else if w == "rg8snorm".spec_bytes() {
        Some(StorageFormat::Rg8Snorm)
    } else if w == "rg8uint".spec_bytes() {
        Some(StorageFormat::Rg8Uint)
    } else if w == "rg8sint".spec_bytes() {
        Some(StorageFormat::Rg8Sint)
    } else if w == "r32uint".spec_bytes() {
        Some(StorageFormat::R32Uint)
    } else if w == "r32sint".spec_bytes() {
        Some(StorageFormat::R32Sint)
    } else if w == "r32float".spec_bytes() {
        Some(StorageFormat::R32Float)
    } else if w == "rg16uint".spec_bytes() {
        Some(StorageFormat::Rg16Uint)
    } else if w == "rg16sint".spec_bytes() {
        Some(StorageFormat::Rg16Sint)
    } else if w == "rg16float".spec_bytes() {
        Some(StorageFormat::Rg16Float)
    } else if w == "rgba8unorm".spec_bytes() {
        Some(StorageFormat::Rgba8Unorm)
    } else if w == "rgba8snorm".spec_bytes() {
        Some(StorageFormat::Rgba8Snorm)
    } else if w == "rgba8uint".spec_bytes() {
        Some(StorageFormat::Rgba8Uint)
    } else if w == "rgba8sint".spec_bytes() {
        Some(StorageFormat::Rgba8Sint)
    } else if w == "bgra8unorm".spec_bytes() {
        Some(StorageFormat::Bgra8Unorm)
    } else if w == "rgb10a2uint".spec_bytes() {
        Some(StorageFormat::Rgb10a2Uint)
    } else if w == "rgb10a2unorm".spec_bytes() {
        Some(StorageFormat::Rgb10a2Unorm)
    } else if w == "rg11b10float".spec_bytes() {
        Some(StorageFormat::Rg11b10Float)
    } else if w == "rg32uint".spec_bytes() {
        Some(StorageFormat::Rg32Uint)
    } else if w == "rg32sint".spec_bytes() {
        Some(StorageFormat::Rg32Sint)
    } else if w == "rg32float".spec_bytes() {
        Some(StorageFormat::Rg32Float)
    } else if w == "rgba16uint".spec_bytes() {
        Some(StorageFormat::Rgba16Uint)
    } else if w == "rgba16sint".spec_bytes() {
        Some(StorageFormat::Rgba16Sint)
    } else if w == "rgba16float".spec_bytes() {
        Some(StorageFormat::Rgba16Float)
    } else if w == "rgba32uint".spec_bytes() {
        Some(StorageFormat::Rgba32Uint)
    } else if w == "rgba32sint".spec_bytes() {
        Some(StorageFormat::Rgba32Sint)
    } else if w == "rgba32float".spec_bytes() {
        Some(StorageFormat::Rgba32Float)
    } else if w == "r16unorm".spec_bytes() {
        Some(StorageFormat::R16Unorm)
    } else if w == "r16snorm".spec_bytes() {
        Some(StorageFormat::R16Snorm)
    } else if w == "rg16unorm".spec_bytes() {
        Some(StorageFormat::Rg16Unorm)
    } else if w == "rg16snorm".spec_bytes() {
        Some(StorageFormat::Rg16Snorm)
    } else if w == "rgba16unorm".spec_bytes() {
        Some(StorageFormat::Rgba16Unorm)
    } else if w == "rgba16snorm".spec_bytes() {
        Some(StorageFormat::Rgba16Snorm)
    } else {
        None
    }
}

/// Decides [`storage_format_spec`].
pub fn map_storage_format(w: &[u8]) -> (r: Option<StorageFormat>)
    ensures
        r == storage_format_spec(w@),
{
    if bytes_eq(w, "r8unorm".as_bytes()) {
        Some(StorageFormat::R8Unorm)
    } else if bytes_eq(w, "r8snorm".as_bytes()) {
        Some(StorageFormat::R8Snorm)
    } else if bytes_eq(w, "r8uint".as_bytes()) {
        Some(StorageFormat::R8Uint)
    } else if bytes_eq(w, "r8sint".as_bytes()) {
        Some(StorageFormat::R8Sint)
    } else if bytes_eq(w, "r16uint".as_bytes()) {
        Some(StorageFormat::R16Uint)
    } else if bytes_eq(w, "r16sint".as_bytes()) {
        Some(StorageFormat::R16Sint)
    } else if bytes_eq(w, "r16float".as_bytes()) {
        Some(StorageFormat::R16Float)
    } else if bytes_eq(w, "rg8unorm".as_bytes()) {
        Some(StorageFormat::Rg8Unorm)
    } else if bytes_eq(w, "rg8snorm".as_bytes()) {
        Some(StorageFormat::Rg8Snorm)
    } else if bytes_eq(w, "rg8uint".as_bytes()) {
        Some(StorageFormat::Rg8Uint)
    } else if bytes_eq(w, "rg8sint".as_bytes()) {
        Some(StorageFormat::Rg8Sint)
    } else if bytes_eq(w, "r32uint".as_bytes()) {
        Some(StorageFormat::R32Uint)
    } else if bytes_eq(w, "r32sint".as_bytes()) {
        Some(StorageFormat::R32Sint)
    } else if bytes_eq(w, "r32float".as_bytes()) {
        Some(StorageFormat::R32Float)
    } else if bytes_eq(w, "rg16uint".as_bytes()) {
        Some(StorageFormat::Rg16Uint)
    } else if bytes_eq(w, "rg16sint".as_bytes()) {
        Some(StorageFormat::Rg16Sint)
    } else if bytes_eq(w, "rg16float".as_bytes()) {
        Some(StorageFormat::Rg16Float)
    } else if bytes_eq(w, "rgba8unorm".as_bytes()) {
        Some(StorageFormat::Rgba8Unorm)
    } else if bytes_eq(w, "rgba8snorm".as_bytes()) {
        Some(StorageFormat::Rgba8Snorm)
    } else if bytes_eq(w, "rgba8uint".as_bytes()) {
        Some(StorageFormat::Rgba8Uint)
    } else if bytes_eq(w, "rgba8sint".as_bytes()) {
        Some(StorageFormat::Rgba8Sint)
    } else if bytes_eq(w, "bgra8unorm".as_bytes()) {
        Some(StorageFormat::Bgra8Unorm)
    } else if bytes_eq(w, "rgb10a2uint".as_bytes()) {
        Some(StorageFormat::Rgb10a2Uint)
    } else if bytes_eq(w, "rgb10a2unorm".as_bytes()) {
        Some(StorageFormat::Rgb10a2Unorm)
    } else if bytes_eq(w, "rg11b10float".as_bytes()) {
        Some(StorageFormat::Rg11b10Float)
    } else if bytes_eq(w, "rg32uint".as_bytes()) {
        Some(StorageFormat::Rg32Uint)
    } else if bytes_eq(w, "rg32sint".as_bytes()) {
        Some(StorageFormat::Rg32Sint)
    } else if bytes_eq(w, "rg32float".as_bytes()) {
        Some(StorageFormat::Rg32Float)
    } else if bytes_eq(w, "rgba16uint".as_bytes()) {
        Some(StorageFormat::Rgba16Uint)
    } else if bytes_eq(w, "rgba16sint".as_bytes()) {
        Some(StorageFormat::Rgba16Sint)
    } else if bytes_eq(w, "rgba16float".as_bytes()) {
        Some(StorageFormat::Rgba16Float)
    } else if bytes_eq(w, "rgba32uint".as_bytes()) {
        Some(StorageFormat::Rgba32Uint)
    } else if bytes_eq(w, "rgba32sint".as_bytes()) {
        Some(StorageFormat::Rgba32Sint)
    } else if bytes_eq(w, "rgba32float".as_bytes()) {
        Some(StorageFormat::Rgba32Float)
    } else if bytes_eq(w, "r16unorm".as_bytes()) {
        Some(StorageFormat::R16Unorm)
    } else if bytes_eq(w, "r16snorm".as_bytes()) {
        Some(StorageFormat::R16Snorm)
    } else if bytes_eq(w, "rg16unorm".as_bytes()) {
        Some(StorageFormat::Rg16Unorm)
    } else if bytes_eq(w, "rg16snorm".as_bytes()) {
        Some(StorageFormat::Rg16Snorm)
    } else if bytes_eq(w, "rgba16unorm".as_bytes()) {
        Some(StorageFormat::Rgba16Unorm)
    } else if bytes_eq(w, "rgba16snorm".as_bytes()) {
        Some(StorageFormat::Rgba16Snorm)
    } else {
        None
    }
}

} // verus!
