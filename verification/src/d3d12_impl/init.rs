//! Finding the entry points of the command-list runtime: the module to wait
//! for, the adapter to create the throwaway device on, and the throwaway
//! swapchain and command queue whose function tables give the addresses to
//! hook.

use vstd::prelude::*;
use crate::discovery::{
    lemma_first_loaded, pick_module, poll_result, step, Discovery, DiscoveryAction,
};
use crate::hresult::{InitError, DXGI_ERROR_NOT_FOUND};
use crate::types::Handle;

verus! {

/// Pixel format: four 8-bit normalised unsigned integers.
pub const DXGI_FORMAT_R8G8B8A8_UNORM: u32 = 28;

/// Buffer usage: the buffer is drawn on.
pub const DXGI_USAGE_RENDER_TARGET_OUTPUT: u32 = 0x20;

/// Scaling: the back buffer is not stretched.
pub const DXGI_SCALING_NONE: u32 = 1;

/// Swap effect: the back buffers are flipped, and their contents dropped.
pub const DXGI_SWAP_EFFECT_FLIP_DISCARD: u32 = 4;

/// Swapchain flag: the display mode may be switched.
pub const DXGI_SWAP_CHAIN_FLAG_ALLOW_MODE_SWITCH: u32 = 2;

/// Adapter flag: the adapter is a software adapter.
pub const DXGI_ADAPTER_FLAG_SOFTWARE: u32 = 2;

/// Command list type: a list that the GPU can run directly.
pub const D3D12_COMMAND_LIST_TYPE_DIRECT: u32 = 0;

/// Width and height in pixels of the throwaway swapchain.
pub const DUMMY_SIZE: u32 = 128;

/// The names under which the runtime may be loaded, in the order in which they
/// are polled for.
pub fn dll_names() -> (names: Vec<&'static str>)
    ensures
        names@.len() == 1,
        names@[0]@ == "d3d12.dll"@,
{
    let mut names: Vec<&'static str> = Vec::new();
    names.push("d3d12.dll");
    names
}

/// The description of a swapchain for a window.
#[derive(Debug, Clone, Copy, PartialEq, Eq, Structural)]
pub struct SwapChainDesc1 {
    pub width: u32,
    pub height: u32,
    pub format: u32,
    pub stereo: bool,
    pub sample_count: u32,
    pub sample_quality: u32,
    pub buffer_usage: u32,
    pub buffer_count: u32,
    pub scaling: u32,
    pub swap_effect: u32,
    pub alpha_mode: u32,
    pub flags: u32,
}

/// The description of a command queue.
#[derive(Debug, Clone, Copy, PartialEq, Eq, Structural)]
pub struct CommandQueueDesc {
    pub list_type: u32,
    pub priority: i32,
    pub flags: u32,
    pub node_mask: u32,
}

/// What is known of one adapter.
#[derive(Debug, Clone, Copy, PartialEq, Eq, Structural)]
pub enum AdapterProbe {
    /// Its description could not be read; `hresult` is the result code.
    Unreadable { hresult: i32 },
    /// Its description was read and has the flags `flags`; `device` tells
    /// whether a device can be created on it.
    Described { flags: u32, device: bool },
}

/// The adapter is a hardware adapter on which a device can be created.
pub open spec fn is_usable(probe: AdapterProbe) -> bool {
    probe matches AdapterProbe::Described { flags, device } && flags
        & DXGI_ADAPTER_FLAG_SOFTWARE == 0 && device
}

/// The adapter to use among `probes`, counted from `from` on: the first usable
/// one.  The search fails with the result code of the first adapter that is
/// unreadable, if it comes before any usable one, and with "not found" if no
/// adapter is usable.
pub open spec fn adapter_choice(probes: Seq<AdapterProbe>, from: int) -> Result<int, InitError>
    decreases probes.len() - from,
{
    if from < 0 || from >= probes.len() {
        Err(InitError { hresult: DXGI_ERROR_NOT_FOUND })
    } else {
        match probes[from] {
            AdapterProbe::Unreadable { hresult } => Err(InitError { hresult }),
            AdapterProbe::Described { flags, device } => if is_usable(probes[from]) {
                Ok(from)
            } else {
                adapter_choice(probes, from + 1)
            },
        }
    }
}

/// The throwaway device, command queue and swapchain, by the addresses of the
/// functions that are hooked.
#[derive(Debug, Clone, Copy, PartialEq, Eq, Structural)]
pub struct D3D12Init {
    present: usize,
    resize_buffers: usize,
    execute_command_lists: usize,
}

impl D3D12Init {
    /// The address of the swapchain's function that presents a frame.
    pub closed spec fn present_ptr(&self) -> usize {
        self.present
    }

    /// The address of the swapchain's function that resizes the back buffers.
    pub closed spec fn resize_buffers_ptr(&self) -> usize {
        self.resize_buffers
    }

    /// The address of the command queue's function that submits command lists.
    pub closed spec fn execute_command_lists_ptr(&self) -> usize {
        self.execute_command_lists
    }

    /// The description of the throwaway swapchain: two small back buffers that
    /// are flipped.
    pub fn create_swapchain_desc() -> (desc: SwapChainDesc1)
        ensures
            desc == (SwapChainDesc1 {
                width: DUMMY_SIZE,
                height: DUMMY_SIZE,
                format: DXGI_FORMAT_R8G8B8A8_UNORM,
                stereo: false,
                sample_count: 1,
                sample_quality: 0,
                buffer_usage: DXGI_USAGE_RENDER_TARGET_OUTPUT,
                buffer_count: 2,
                scaling: DXGI_SCALING_NONE,
                swap_effect: DXGI_SWAP_EFFECT_FLIP_DISCARD,
                alpha_mode: 0,
                flags: DXGI_SWAP_CHAIN_FLAG_ALLOW_MODE_SWITCH,
            }),
    {
        SwapChainDesc1 {
            width: DUMMY_SIZE,
            height: DUMMY_SIZE,
            format: DXGI_FORMAT_R8G8B8A8_UNORM,
            stereo: false,
            sample_count: 1,
            sample_quality: 0,
            buffer_usage: DXGI_USAGE_RENDER_TARGET_OUTPUT,
            buffer_count: 2,
            scaling: DXGI_SCALING_NONE,
            swap_effect: DXGI_SWAP_EFFECT_FLIP_DISCARD,
            alpha_mode: 0,
            flags: DXGI_SWAP_CHAIN_FLAG_ALLOW_MODE_SWITCH,
        }
    }

    /// The description of the throwaway command queue: a direct queue of
    /// normal priority.
    pub fn get_command_queue() -> (desc: CommandQueueDesc)
        ensures
            desc == (CommandQueueDesc {
                list_type: D3D12_COMMAND_LIST_TYPE_DIRECT,
                priority: 0,
                flags: 0,
                node_mask: 0,
            }),
    {
        CommandQueueDesc {
            list_type: D3D12_COMMAND_LIST_TYPE_DIRECT,
            priority: 0,
            flags: 0,
            node_mask: 0,
        }
    }

    /// Chooses the adapter to create the throwaway device on, from what is
    /// known of each adapter in the order in which the system lists them.
    pub fn get_adapter(probes: &Vec<AdapterProbe>) -> (choice: Result<usize, InitError>)
        ensures
            match choice {
                Ok(i) => adapter_choice(probes@, 0) == Ok::<int, InitError>(i as int),
                Err(e) => adapter_choice(probes@, 0) == Err::<int, InitError>(e),
            },
    {
        let mut index: usize = 0;
        while index < probes.len()
            invariant
                index <= probes.len(),
                adapter_choice(probes@, 0) == adapter_choice(probes@, index as int),
            decreases probes.len() - index,
        {
            match probes[index] {
                AdapterProbe::Unreadable { hresult } => {
                    return Err(InitError::new(hresult));
                },
                AdapterProbe::Described { flags, device } => {
                    if flags & DXGI_ADAPTER_FLAG_SOFTWARE == 0 && device {
                        return Ok(index);
                    }
                },
            }
            index = index + 1;
        }
        Err(InitError::not_found())
    }

    /// Holds the addresses that were read from the function tables of the
    /// throwaway swapchain and command queue.
    pub fn new(present: usize, resize_buffers: usize, execute_command_lists: usize) -> (init: Self)
        ensures
            init.present_ptr() == present,
            init.resize_buffers_ptr() == resize_buffers,
            init.execute_command_lists_ptr() == execute_command_lists,
    {
        Self { present, resize_buffers, execute_command_lists }
    }

    /// The address of the swapchain's function that presents a frame.
    pub fn get_present_ptr(&self) -> (address: usize)
        ensures
            address == self.present_ptr(),
    {
        self.present
    }

    /// The address of the swapchain's function that resizes the back buffers.
    pub fn get_resize_buffers_ptr(&self) -> (address: usize)
        ensures
            address == self.resize_buffers_ptr(),
    {
        self.resize_buffers
    }

    /// The address of the command queue's function that submits command lists.
    pub fn get_execute_command_lists_ptr(&self) -> (address: usize)
        ensures
            address == self.execute_command_lists_ptr(),
    {
        self.execute_command_lists
    }
}

/// Takes one poll for the runtime.  `modules` holds the module handle that was
/// found for each of `dll_names`, null for a name that is not loaded.  The
/// result is the next state of the search, and what to do.
pub fn start_d3d12(state: Discovery, modules: &Vec<Handle>) -> (next: (Discovery, DiscoveryAction))
    ensures
        next == step(state, poll_result(modules@)),
{
    let found = match pick_module(modules) {
        Some(i) => {
            proof {
                lemma_first_loaded(modules@);
            }
            Some((modules[i], i))
        },
        None => None,
    };
    state.on_poll(found)
}

} // verus!
