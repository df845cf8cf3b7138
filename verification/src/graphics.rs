//! What the event core needs to know of the graphics side: the errors
//! that bringing up a graphics interface can end in, the holder of a
//! graphics context, and the choice of a swap interval.

use vstd::prelude::*;
use vstd::string::StringExecFns;

verus! {

/// The symbols of a graphics interface could not be loaded.
#[derive(Debug)]
pub struct SymbolLoadError {
    details: String,
}

impl SymbolLoadError {
    /// What went wrong, in words.
    pub closed spec fn text(&self) -> Seq<char> {
        self.details@
    }

    pub fn new(msg: &str) -> (error: SymbolLoadError)
        ensures
            error.text() == msg@,
    {
        SymbolLoadError { details: String::from_str(msg) }
    }

    /// What went wrong, in words.
    pub fn description(&self) -> (details: &str)
        ensures
            details@ == self.text(),
    {
        self.details.as_str()
    }
}

/// What loading the symbols of OpenGL ended in, given whether they are
/// there afterwards.
pub fn symbols_loaded(loaded: bool) -> (result: Result<(), SymbolLoadError>)
    ensures
        result is Ok <==> loaded,
        result matches Err(error) ==> error.text() == "Failed to load OpenGL symbols"@,
{
    if loaded {
        Ok(())
    } else {
        Err(SymbolLoadError::new("Failed to load OpenGL symbols"))
    }
}

/// The devices of a graphics interface could not be made.
#[derive(Debug, PartialEq, Eq, Clone, Copy, Structural)]
pub enum DeviceCreationError {
    NotVulkanContext,
    FailedToCreateVulkanDevice,
}

impl DeviceCreationError {
    pub open spec fn text(self) -> Seq<char> {
        match self {
            DeviceCreationError::NotVulkanContext => "Not Vulkan Context"@,
            DeviceCreationError::FailedToCreateVulkanDevice => "Failed To Create Vulkan Device"@,
        }
    }

    /// What went wrong, in words.
    pub fn description(&self) -> (details: &'static str)
        ensures
            details@ == self.text(),
    {
        match self {
            DeviceCreationError::NotVulkanContext => "Not Vulkan Context",
            DeviceCreationError::FailedToCreateVulkanDevice => "Failed To Create Vulkan Device",
        }
    }
}

/// Marks the types that can stand for a graphics context.
pub trait ContextLimiter: Send {

}

/// The holder of the context of one graphics interface.
#[derive(Debug)]
pub struct Context<T: ContextLimiter> {
    api_context: T,
}

impl<T: ContextLimiter> View for Context<T> {
    type V = T;

    closed spec fn view(&self) -> T {
        self.api_context
    }
}

impl<T: ContextLimiter> Context<T> {
    pub fn new(api_context: T) -> (context: Context<T>)
        ensures
            context@ == api_context,
    {
        Context { api_context }
    }

    /// The context that is held, open to change.
    pub fn api_context(&mut self) -> (api_context: &mut T)
        ensures
            *api_context == old(self)@,
            final(self)@ == *final(api_context),
    {
        &mut self.api_context
    }
}

/// How the swapping of buffers waits for the screen.
#[derive(Debug, PartialEq, Eq, Clone, Copy, Structural)]
pub enum SwapInterval {
    /// Swap at once.
    Immediate,
    /// Wait for the screen where that costs no frame.
    Adaptive,
    /// Wait for this many refreshes of the screen.
    Sync(u32),
}

/// The vertical-sync setting that a request for `interval` leaves: 0, 1
/// and 2 stand, anything else is 0.
pub open spec fn effective_vsync(interval: u8) -> u8 {
    if interval <= 2 {
        interval
    } else {
        0
    }
}

/// The swap interval of a vertical-sync setting: immediate for 0,
/// adaptive for 1, one refresh for 2, and immediate for anything else.
pub open spec fn swap_interval_of(interval: u8) -> SwapInterval {
    if interval == 1 {
        SwapInterval::Adaptive
    } else if interval == 2 {
        SwapInterval::Sync(1)
    } else {
        SwapInterval::Immediate
    }
}

/// The vertical-sync setting that a request for `interval` leaves.
pub fn normalize_vsync(interval: u8) -> (vsync: u8)
    ensures
        vsync == effective_vsync(interval),
{
    match interval {
        0..=2 => interval,
        _ => 0,
    }
}

/// The swap interval to ask the window system for.
pub fn swap_interval(interval: u8) -> (swap: SwapInterval)
    ensures
        swap == swap_interval_of(interval),
{
    match interval {
        0 => SwapInterval::Immediate,
        1 => SwapInterval::Adaptive,
        2 => SwapInterval::Sync(1),
        _ => SwapInterval::Immediate,
    }
}

/// A request and the setting it leaves ask for the same swap interval.
pub proof fn lemma_vsync_keeps_its_swap_interval(interval: u8)
    ensures
        swap_interval_of(effective_vsync(interval)) == swap_interval_of(interval),
        effective_vsync(effective_vsync(interval)) == effective_vsync(interval),
{
}

} // verus!
