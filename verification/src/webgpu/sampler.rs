//! Samplers: how the words of a descriptor are read, and which resources
//! a sampler is made from.

use vstd::prelude::*;
use crate::error::{fails_with, type_error, ErrorClass, OpError};
use crate::op_state::{add_post, OpState};
use crate::ops::str_eq;
use crate::resources::{spec_get, Resource, ResourceId, ResourceKind};

verus! {

#[derive(Clone, Copy, Debug, PartialEq, Eq, Structural)]
pub enum AddressMode {
    ClampToEdge,
    Repeat,
    MirrorRepeat,
}

#[derive(Clone, Copy, Debug, PartialEq, Eq, Structural)]
pub enum FilterMode {
    Nearest,
    Linear,
}

#[derive(Clone, Copy, Debug, PartialEq, Eq, Structural)]
pub enum CompareFunction {
    Never,
    Less,
    Equal,
    LessEqual,
    Greater,
    NotEqual,
    GreaterEqual,
    Always,
}

/// The address mode that `word` names, if it names one.
pub open spec fn spec_address_mode(word: Seq<char>) -> Option<AddressMode> {
    if word == "clamp-to-edge"@ {
        Some(AddressMode::ClampToEdge)
    } else if word == "repeat"@ {
        Some(AddressMode::Repeat)
    } else if word == "mirror-repeat"@ {
        Some(AddressMode::MirrorRepeat)
    } else {
        None
    }
}

/// The filter mode that `word` names, if it names one.
pub open spec fn spec_filter_mode(word: Seq<char>) -> Option<FilterMode> {
    if word == "nearest"@ {
        Some(FilterMode::Nearest)
    } else if word == "linear"@ {
        Some(FilterMode::Linear)
    } else {
        None
    }
}

/// The comparison that `word` names, if it names one.
pub open spec fn spec_compare_function(word: Seq<char>) -> Option<CompareFunction> {
    if word == "never"@ {
        Some(CompareFunction::Never)
    } else if word == "less"@ {
        Some(CompareFunction::Less)
    } else if word == "equal"@ {
        Some(CompareFunction::Equal)
    } else if word == "less-equal"@ {
        Some(CompareFunction::LessEqual)
    } else if word == "greater"@ {
        Some(CompareFunction::Greater)
    } else if word == "not-equal"@ {
        Some(CompareFunction::NotEqual)
    } else if word == "greater-equal"@ {
        Some(CompareFunction::GreaterEqual)
    } else if word == "always"@ {
        Some(CompareFunction::Always)
    } else {
        None
    }
}

/// The address mode of a descriptor that may leave it out: clamping to
/// the edge is the default.
pub open spec fn spec_address_mode_or_default(word: Option<String>) -> Option<AddressMode> {
    match word {
        Some(w) => spec_address_mode(w@),
        None => Some(AddressMode::ClampToEdge),
    }
}

/// The filter mode of a descriptor that may leave it out: the nearest
/// texel is the default.
pub open spec fn spec_filter_mode_or_default(word: Option<String>) -> Option<FilterMode> {
    match word {
        Some(w) => spec_filter_mode(w@),
        None => Some(FilterMode::Nearest),
    }
}

/// Reads an address mode, if `address_mode` names one or is left out.
pub fn parse_address_mode(address_mode: &Option<String>) -> (m: Option<AddressMode>)
    ensures
        m == spec_address_mode_or_default(*address_mode),
{
    match address_mode {
        Some(word) => {
            let word = word.as_str();
            if str_eq(word, "clamp-to-edge") {
                Some(AddressMode::ClampToEdge)
            } else if str_eq(word, "repeat") {
                Some(AddressMode::Repeat)
            } else if str_eq(word, "mirror-repeat") {
                Some(AddressMode::MirrorRepeat)
            } else {
                None
            }
        },
        None => Some(AddressMode::ClampToEdge),
    }
}

/// Reads a filter mode, if `filter_mode` names one or is left out.
pub fn parse_filter_mode(filter_mode: &Option<String>) -> (m: Option<FilterMode>)
    ensures
        m == spec_filter_mode_or_default(*filter_mode),
{
    match filter_mode {
        Some(word) => {
            let word = word.as_str();
            if str_eq(word, "nearest") {
                Some(FilterMode::Nearest)
            } else if str_eq(word, "linear") {
                Some(FilterMode::Linear)
            } else {
                None
            }
        },
        None => Some(FilterMode::Nearest),
    }
}

/// Reads a comparison, if `compare` names one.
pub fn parse_compare_function(compare: &str) -> (f: Option<CompareFunction>)
    ensures
        f == spec_compare_function(compare@),
{
    if str_eq(compare, "never") {
        Some(CompareFunction::Never)
    } else if str_eq(compare, "less") {
        Some(CompareFunction::Less)
    } else if str_eq(compare, "equal") {
        Some(CompareFunction::Equal)
    } else if str_eq(compare, "less-equal") {
        Some(CompareFunction::LessEqual)
    } else if str_eq(compare, "greater") {
        Some(CompareFunction::Greater)
    } else if str_eq(compare, "not-equal") {
        Some(CompareFunction::NotEqual)
    } else if str_eq(compare, "greater-equal") {
        Some(CompareFunction::GreaterEqual)
    } else if str_eq(compare, "always") {
        Some(CompareFunction::Always)
    } else {
        None
    }
}

/// The address mode that `address_mode` names, or the default.
pub fn serialize_address_mode(address_mode: Option<String>) -> (m: AddressMode)
    requires
        spec_address_mode_or_default(address_mode) is Some,
    ensures
        Some(m) == spec_address_mode_or_default(address_mode),
{
    match parse_address_mode(&address_mode) {
        Some(m) => m,
        None => AddressMode::ClampToEdge,
    }
}

/// The filter mode that `filter_mode` names, or the default.
pub fn serialize_filter_mode(filter_mode: Option<String>) -> (m: FilterMode)
    requires
        spec_filter_mode_or_default(filter_mode) is Some,
    ensures
        Some(m) == spec_filter_mode_or_default(filter_mode),
{
    match parse_filter_mode(&filter_mode) {
        Some(m) => m,
        None => FilterMode::Nearest,
    }
}

/// The comparison that `compare` names.
pub fn serialize_compare_function(compare: &str) -> (f: CompareFunction)
    requires
        spec_compare_function(compare@) is Some,
    ensures
        Some(f) == spec_compare_function(compare@),
{
    match parse_compare_function(compare) {
        Some(f) => f,
        None => CompareFunction::Never,
    }
}

/// The arguments of a sampler call. The level-of-detail clamps of the
/// call are not among them: they go from the caller to the embedder as
/// they are.
#[derive(Debug)]
pub struct CreateSamplerArgs {
    pub instance_rid: u32,
    pub device_rid: u32,
    pub label: Option<String>,
    pub address_mode_u: Option<String>,
    pub address_mode_v: Option<String>,
    pub address_mode_w: Option<String>,
    pub mag_filter: Option<String>,
    pub min_filter: Option<String>,
    pub mipmap_filter: Option<String>,
    pub compare: Option<String>,
    pub max_anisotropy: Option<u8>,
}

/// What the embedder needs to make a sampler, but for the
/// level-of-detail clamps.
#[derive(Debug)]
pub struct SamplerDescriptor {
    pub label: Option<String>,
    pub address_mode_u: AddressMode,
    pub address_mode_v: AddressMode,
    pub address_mode_w: AddressMode,
    pub mag_filter: FilterMode,
    pub min_filter: FilterMode,
    pub mipmap_filter: FilterMode,
    pub compare: Option<CompareFunction>,
    /// Never zero.
    pub anisotropy_clamp: Option<u8>,
}

/// Sampler work that the embedder does for a suspended call.
#[derive(Debug)]
pub struct CreateSampler {
    pub instance: u64,
    pub device: u64,
    pub descriptor: SamplerDescriptor,
}

/// The anisotropy clamp of a call: none if the call leaves it out or
/// gives zero.
pub open spec fn spec_anisotropy_clamp(max_anisotropy: Option<u8>) -> Option<u8> {
    match max_anisotropy {
        Some(n) => if n == 0 {
            None
        } else {
            Some(n)
        },
        None => None,
    }
}

/// Whether every word of the descriptor in `args` can be read.
pub open spec fn readable(args: CreateSamplerArgs) -> bool {
    &&& spec_address_mode_or_default(args.address_mode_u) is Some
    &&& spec_address_mode_or_default(args.address_mode_v) is Some
    &&& spec_address_mode_or_default(args.address_mode_w) is Some
    &&& spec_filter_mode_or_default(args.mag_filter) is Some
    &&& spec_filter_mode_or_default(args.min_filter) is Some
    &&& spec_filter_mode_or_default(args.mipmap_filter) is Some
    &&& args.compare matches Some(word) ==> spec_compare_function(word@) is Some
}

/// Whether `descriptor` is what `args` describes.
pub open spec fn describes(args: CreateSamplerArgs, descriptor: SamplerDescriptor) -> bool {
    &&& descriptor.label == args.label
    &&& Some(descriptor.address_mode_u) == spec_address_mode_or_default(args.address_mode_u)
    &&& Some(descriptor.address_mode_v) == spec_address_mode_or_default(args.address_mode_v)
    &&& Some(descriptor.address_mode_w) == spec_address_mode_or_default(args.address_mode_w)
    &&& Some(descriptor.mag_filter) == spec_filter_mode_or_default(args.mag_filter)
    &&& Some(descriptor.min_filter) == spec_filter_mode_or_default(args.min_filter)
    &&& Some(descriptor.mipmap_filter) == spec_filter_mode_or_default(args.mipmap_filter)
    &&& descriptor.compare == (match args.compare {
        Some(word) => spec_compare_function(word@),
        None => None,
    })
    &&& descriptor.anisotropy_clamp == spec_anisotropy_clamp(args.max_anisotropy)
}

/// What a sampler call asks of the embedder: the device and the instance
/// must be registered, and every word of the descriptor must be readable.
/// The state is only read.
pub open spec fn op_webgpu_create_sampler_post(state: OpState, args: CreateSamplerArgs, r: Result<CreateSampler, OpError>) -> bool {
    let table = state.resource_table@;
    match (
        spec_get(table, args.device_rid, ResourceKind::WebGpuDevice),
        spec_get(table, args.instance_rid, ResourceKind::WebGpuInstance),
    ) {
        (Some(device), Some(instance)) => if readable(args) {
            r matches Ok(work) && work.instance == instance.handle && work.device == device.handle
                && describes(args, work.descriptor)
        } else {
            fails_with(r, ErrorClass::TypeError, "Invalid sampler descriptor"@)
        },
        _ => fails_with(r, ErrorClass::BadResource, "Bad resource ID"@),
    }
}

fn unreadable<T>() -> (r: Result<T, OpError>)
    ensures
        fails_with(r, ErrorClass::TypeError, "Invalid sampler descriptor"@),
{
    Err(type_error("Invalid sampler descriptor"))
}

fn address_mode(word: &Option<String>) -> (r: Result<AddressMode, OpError>)
    ensures
        r is Ok <==> spec_address_mode_or_default(*word) is Some,
        r matches Ok(m) ==> Some(m) == spec_address_mode_or_default(*word),
        r is Err ==> fails_with(r, ErrorClass::TypeError, "Invalid sampler descriptor"@),
{
    match parse_address_mode(word) {
        Some(m) => Ok(m),
        None => unreadable(),
    }
}

fn filter_mode(word: &Option<String>) -> (r: Result<FilterMode, OpError>)
    ensures
        r is Ok <==> spec_filter_mode_or_default(*word) is Some,
        r matches Ok(m) ==> Some(m) == spec_filter_mode_or_default(*word),
        r is Err ==> fails_with(r, ErrorClass::TypeError, "Invalid sampler descriptor"@),
{
    match parse_filter_mode(word) {
        Some(m) => Ok(m),
        None => unreadable(),
    }
}

/// Checks a sampler call and reads its descriptor.
pub fn op_webgpu_create_sampler(state: &OpState, args: CreateSamplerArgs) -> (r: Result<CreateSampler, OpError>)
    requires
        state.wf(),
    ensures
        op_webgpu_create_sampler_post(*state, args, r),
{
    let device = state.resource_table.get(args.device_rid, ResourceKind::WebGpuDevice)?.handle;
    let instance = state.resource_table.get(args.instance_rid, ResourceKind::WebGpuInstance)?.handle;
    let address_mode_u = address_mode(&args.address_mode_u)?;
    let address_mode_v = address_mode(&args.address_mode_v)?;
    let address_mode_w = address_mode(&args.address_mode_w)?;
    let mag_filter = filter_mode(&args.mag_filter)?;
    let min_filter = filter_mode(&args.min_filter)?;
    let mipmap_filter = filter_mode(&args.mipmap_filter)?;
    let compare = match &args.compare {
        Some(word) => match parse_compare_function(word.as_str()) {
            Some(f) => Some(f),
            None => {
                return unreadable();
            },
        },
        None => None,
    };
    let anisotropy_clamp = match args.max_anisotropy {
        Some(n) => if n == 0 {
            None
        } else {
            Some(n)
        },
        None => None,
    };
    Ok(
        CreateSampler {
            instance,
            device,
            descriptor: SamplerDescriptor {
                label: args.label,
                address_mode_u,
                address_mode_v,
                address_mode_w,
                mag_filter,
                min_filter,
                mipmap_filter,
                compare,
                anisotropy_clamp,
            },
        },
    )
}

/// Registers a GPU object of type `kind` that the embedder made, and
/// returns its id; passes the error on if it made none.
pub fn gpu_object_created(state: &mut OpState, kind: ResourceKind, outcome: Result<u64, OpError>) -> (r: Result<
    ResourceId,
    OpError,
>)
    requires
        old(state).wf(),
    ensures
        final(state).wf(),
        match outcome {
            Ok(object) => exists|resource: Resource|
                resource.is_free(kind, object) && #[trigger] add_post(
                    *old(state),
                    resource,
                    *final(state),
                    r,
                ),
            Err(e) => *final(state) == *old(state) && r == Err::<ResourceId, OpError>(e),
        },
{
    match outcome {
        Ok(object) => {
            let resource = Resource::new(kind, object);
            let ghost stored = resource;
            let r = state.add_resource(resource);
            proof {
                assert(stored.is_free(kind, object) && add_post(*old(state), stored, *state, r));
            }
            r
        },
        Err(e) => Err(e),
    }
}

} // verus!
