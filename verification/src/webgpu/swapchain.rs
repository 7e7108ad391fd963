//! Swap chains: which GPU objects a call works on.

use vstd::prelude::*;
use crate::error::{fails_with, ErrorClass, OpError};
use crate::op_state::{missing_message, missing_state, OpState};
use crate::resources::{spec_get, ResourceKind};

verus! {

#[derive(Debug)]
pub struct ConfigureSwapchainArgs {
    pub device_rid: u32,
    pub swapchain_rid: u32,
    pub format: String,
    pub usage: u32,
    pub width: u32,
    pub height: u32,
}

#[derive(Clone, Copy, Debug, PartialEq, Eq, Structural)]
pub struct GetSwapchainPreferredFormat {
    pub adapter_rid: u32,
    pub swapchain_rid: u32,
}

/// Swap chain work that the embedder does for a suspended call.
#[derive(Debug)]
pub enum SwapchainWork {
    /// Make a swap chain for the surface of `swapchain` on `device`. It
    /// presents first in, first out.
    Configure {
        instance: u64,
        device: u64,
        swapchain: u64,
        format: String,
        usage: u32,
        width: u32,
        height: u32,
    },
    /// Ask `adapter` which texture format it prefers for the surface of
    /// `swapchain`.
    PreferredFormat { instance: u64, adapter: u64, swapchain: u64 },
}

/// What a configure call asks of the embedder: the session must have a
/// GPU instance, and the device and the swap chain must be registered.
/// The state is only read.
pub open spec fn op_webgpu_configure_swapchain_post(
    state: OpState,
    args: ConfigureSwapchainArgs,
    r: Result<SwapchainWork, OpError>,
) -> bool {
    let table = state.resource_table@;
    if state.gpu_instance is None {
        fails_with(r, ErrorClass::Error, missing_message("Instance"@))
    } else {
        match (
            spec_get(table, args.device_rid, ResourceKind::WebGpuDevice),
            spec_get(table, args.swapchain_rid, ResourceKind::WebGpuSwapChain),
        ) {
            (Some(device), Some(swapchain)) => r == Ok::<SwapchainWork, OpError>(
                SwapchainWork::Configure {
                    instance: state.gpu_instance->0,
                    device: device.handle,
                    swapchain: swapchain.handle,
                    format: args.format,
                    usage: args.usage,
                    width: args.width,
                    height: args.height,
                },
            ),
            _ => fails_with(r, ErrorClass::BadResource, "Bad resource ID"@),
        }
    }
}

fn instance(state: &OpState) -> (r: Result<u64, OpError>)
    ensures
        r is Ok <==> state.gpu_instance is Some,
        r matches Ok(handle) ==> Some(handle) == state.gpu_instance,
        r is Err ==> fails_with(r, ErrorClass::Error, missing_message("Instance"@)),
{
    match state.gpu_instance {
        Some(handle) => Ok(handle),
        None => Err(missing_state("Instance")),
    }
}

/// Checks a configure call and says which objects the embedder has to
/// work on. The swap chain that it makes is registered as a new resource.
pub fn op_webgpu_configure_swapchain(state: &OpState, args: ConfigureSwapchainArgs) -> (r: Result<
    SwapchainWork,
    OpError,
>)
    requires
        state.wf(),
    ensures
        op_webgpu_configure_swapchain_post(*state, args, r),
{
    let instance = instance(state)?;
    let device = state.resource_table.get(args.device_rid, ResourceKind::WebGpuDevice)?.handle;
    let swapchain = state.resource_table.get(
        args.swapchain_rid,
        ResourceKind::WebGpuSwapChain,
    )?.handle;
    Ok(
        SwapchainWork::Configure {
            instance,
            device,
            swapchain,
            format: args.format,
            usage: args.usage,
            width: args.width,
            height: args.height,
        },
    )
}

/// What a preferred-format call asks of the embedder: the session must
/// have a GPU instance, and the adapter and the swap chain must be
/// registered. The state is only read.
pub open spec fn op_webgpu_get_swapchain_preferred_format_post(
    state: OpState,
    args: GetSwapchainPreferredFormat,
    r: Result<SwapchainWork, OpError>,
) -> bool {
    let table = state.resource_table@;
    if state.gpu_instance is None {
        fails_with(r, ErrorClass::Error, missing_message("Instance"@))
    } else {
        match (
            spec_get(table, args.adapter_rid, ResourceKind::WebGpuAdapter),
            spec_get(table, args.swapchain_rid, ResourceKind::WebGpuSwapChain),
        ) {
            (Some(adapter), Some(swapchain)) => r == Ok::<SwapchainWork, OpError>(
                SwapchainWork::PreferredFormat {
                    instance: state.gpu_instance->0,
                    adapter: adapter.handle,
                    swapchain: swapchain.handle,
                },
            ),
            _ => fails_with(r, ErrorClass::BadResource, "Bad resource ID"@),
        }
    }
}

/// Checks a preferred-format call and says which objects the embedder has
/// to ask.
pub fn op_webgpu_get_swapchain_preferred_format(state: &OpState, args: GetSwapchainPreferredFormat) -> (r:
    Result<SwapchainWork, OpError>)
    requires
        state.wf(),
    ensures
        op_webgpu_get_swapchain_preferred_format_post(*state, args, r),
{
    let instance = instance(state)?;
    let adapter = state.resource_table.get(args.adapter_rid, ResourceKind::WebGpuAdapter)?.handle;
    let swapchain = state.resource_table.get(
        args.swapchain_rid,
        ResourceKind::WebGpuSwapChain,
    )?.handle;
    Ok(SwapchainWork::PreferredFormat { instance, adapter, swapchain })
}

} // verus!
