//! Finding the entry points of the immediate-context runtime: the module to
//! wait for, and the throwaway device and swapchain whose function table gives
//! the addresses to hook.

use vstd::prelude::*;
use crate::discovery::{
    lemma_first_loaded, pick_module, poll_result, step, Discovery, DiscoveryAction,
};
use crate::hresult::{succeeded, InitError, E_FAIL_RESULT};
use crate::types::Handle;

verus! {

/// Feature level 11.0 of the runtime.
pub const D3D_FEATURE_LEVEL_11_0: u32 = 0xB000;

/// Pixel format: four 8-bit normalised unsigned integers.
pub const DXGI_FORMAT_R8G8B8A8_UNORM: u32 = 28;

/// Buffer usage: the buffer is drawn on.
pub const DXGI_USAGE_RENDER_TARGET_OUTPUT: u32 = 0x20;

/// Swap effect: the contents of a back buffer are dropped when it is
/// presented.
pub const DXGI_SWAP_EFFECT_DISCARD: u32 = 0;

/// Width and height in pixels of the throwaway swapchain and of its window.
pub const DUMMY_SIZE: u32 = 128;

/// The names under which the runtime may be loaded, in the order in which they
/// are polled for.
pub fn dll_names() -> (names: Vec<&'static str>)
    ensures
        names@.len() == 5,
        names@[0]@ == "d3d11.dll"@,
        names@[1]@ == "d3d11_1.dll"@,
        names@[2]@ == "d3d11_2.dll"@,
        names@[3]@ == "d3d11_3.dll"@,
        names@[4]@ == "d3d11_4.dll"@,
{
    let mut names: Vec<&'static str> = Vec::new();
    names.push("d3d11.dll");
    names.push("d3d11_1.dll");
    names.push("d3d11_2.dll");
    names.push("d3d11_3.dll");
    names.push("d3d11_4.dll");
    names
}

/// The description of a swapchain.
#[derive(Debug, Clone, Copy, PartialEq, Eq, Structural)]
pub struct SwapChainDesc {
    pub width: u32,
    pub height: u32,
    pub refresh_rate_numerator: u32,
    pub refresh_rate_denominator: u32,
    pub format: u32,
    pub scanline_ordering: u32,
    pub scaling: u32,
    pub sample_count: u32,
    pub sample_quality: u32,
    pub buffer_usage: u32,
    pub buffer_count: u32,
    pub output_window: Handle,
    pub windowed: bool,
    pub swap_effect: u32,
    pub flags: u32,
}

/// The throwaway device and swapchain: the swapchain, and the addresses of its
/// functions that are hooked.
#[derive(Debug, Clone, Copy, PartialEq, Eq, Structural)]
pub struct D3D11Init {
    swapchain: Handle,
    present: usize,
    resize_buffers: usize,
}

impl D3D11Init {
    /// The swapchain.
    pub closed spec fn swapchain(&self) -> Handle {
        self.swapchain
    }

    /// The address of the swapchain's function that presents a frame.
    pub closed spec fn present_ptr(&self) -> usize {
        self.present
    }

    /// The address of the swapchain's function that resizes the back buffers.
    pub closed spec fn resize_buffers_ptr(&self) -> usize {
        self.resize_buffers
    }

    /// The description of the throwaway swapchain for the window `hwnd`: one
    /// small windowed back buffer.
    pub fn create_swapchain_desc(hwnd: Handle) -> (desc: SwapChainDesc)
        ensures
            desc == (SwapChainDesc {
                width: DUMMY_SIZE,
                height: DUMMY_SIZE,
                refresh_rate_numerator: 60,
                refresh_rate_denominator: 1,
                format: DXGI_FORMAT_R8G8B8A8_UNORM,
                scanline_ordering: 0,
                scaling: 0,
                sample_count: 1,
                sample_quality: 0,
                buffer_usage: DXGI_USAGE_RENDER_TARGET_OUTPUT,
                buffer_count: 1,
                output_window: hwnd,
                windowed: true,
                swap_effect: DXGI_SWAP_EFFECT_DISCARD,
                flags: 0,
            }),
    {
        SwapChainDesc {
            width: DUMMY_SIZE,
            height: DUMMY_SIZE,
            refresh_rate_numerator: 60,
            refresh_rate_denominator: 1,
            format: DXGI_FORMAT_R8G8B8A8_UNORM,
            scanline_ordering: 0,
            scaling: 0,
            sample_count: 1,
            sample_quality: 0,
            buffer_usage: DXGI_USAGE_RENDER_TARGET_OUTPUT,
            buffer_count: 1,
            output_window: hwnd,
            windowed: true,
            swap_effect: DXGI_SWAP_EFFECT_DISCARD,
            flags: 0,
        }
    }

    /// Judges the attempt to create the throwaway device and swapchain.
    /// `created` is the result code of the creation, `feature_level` the
    /// feature level that the device has, `swapchain` the swapchain that came
    /// out, and `present` and `resize_buffers` the addresses read from its
    /// function table.
    ///
    /// A creation that failed fails with its own result code.  One that
    /// succeeded fails without further reason unless the device has feature
    /// level 11.0 and there is a swapchain.
    pub fn new(
        created: i32,
        feature_level: u32,
        swapchain: Option<Handle>,
        present: usize,
        resize_buffers: usize,
    ) -> (init: Result<Self, InitError>)
        ensures
            created < 0 ==> init == Err::<Self, InitError>(InitError { hresult: created }),
            created >= 0 && (feature_level != D3D_FEATURE_LEVEL_11_0 || swapchain is None)
                ==> init == Err::<Self, InitError>(InitError { hresult: E_FAIL_RESULT }),
            created >= 0 && feature_level == D3D_FEATURE_LEVEL_11_0 && swapchain is Some ==> {
                &&& init matches Ok(i)
                &&& i.swapchain() == swapchain->0
                &&& i.present_ptr() == present
                &&& i.resize_buffers_ptr() == resize_buffers
            },
    {
        if !succeeded(created) {
            return Err(InitError::new(created));
        }
        if feature_level != D3D_FEATURE_LEVEL_11_0 {
            return Err(InitError::fail());
        }
        match swapchain {
            Some(swapchain) => Ok(Self { swapchain, present, resize_buffers }),
            None => Err(InitError::fail()),
        }
    }

    /// The swapchain.
    pub fn get_swapchain(&self) -> (swapchain: Handle)
        ensures
            swapchain == self.swapchain(),
    {
        self.swapchain
    }

    /// The address of the swapchain's function that presents a frame.
    pub fn get_present_ptr(&self) -> (address: usize)
        ensures
            address == self.present_ptr(),
    {
        self.present
    }

    /// The address of the swapchain's function that resizes the back buffers.
    pub fn get_resize_buffers_ptr(&self) -> (address: usize)
        ensures
            address == self.resize_buffers_ptr(),
    {
        self.resize_buffers
    }
}

/// Takes one poll for the runtime.  `modules` holds the module handle that was
/// found for each of `dll_names`, null for a name that is not loaded.  The
/// result is the next state of the search, and what to do.
pub fn start_d3d11(state: Discovery, modules: &Vec<Handle>) -> (next: (Discovery, DiscoveryAction))
    ensures
        next == step(state, poll_result(modules@)),
{
    let found = match pick_module(modules) {
        Some(i) => {
            proof {
                lemma_first_loaded(modules@);
            }
            Some((modules[i], i))
        },
        None => None,
    };
    state.on_poll(found)
}

} // verus!
