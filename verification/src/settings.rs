//! The settings of an application: which graphics interface it draws
//! with, and at what size.

use vstd::prelude::*;
use vstd::string::StringExecFns;

verus! {

/// The graphics interface an application draws with.
#[derive(Debug, Eq, PartialEq, Copy, Clone, Structural)]
pub enum GraphicsMode {
    DirectX,
    OpenGL,
    Vulkan,
}

/// The graphics part of the settings.
#[derive(Debug, Eq, PartialEq, Copy, Clone)]
pub struct GraphicsSettings {
    width: u32,
    height: u32,
    mode: GraphicsMode,
    vulkan_id: usize,
}

impl GraphicsSettings {
    pub closed spec fn spec_width(&self) -> u32 {
        self.width
    }

    pub closed spec fn spec_height(&self) -> u32 {
        self.height
    }

    pub closed spec fn spec_mode(&self) -> GraphicsMode {
        self.mode
    }

    pub closed spec fn spec_vulkan_id(&self) -> usize {
        self.vulkan_id
    }

    pub open spec fn spec_size(&self) -> (u32, u32) {
        (self.spec_width(), self.spec_height())
    }

    /// Graphics settings with the given values. What is not given is
    /// 1280 by 720, OpenGL, and the first Vulkan device.
    pub fn new(
        id: Option<usize>,
        size: Option<(u32, u32)>,
        mode: Option<GraphicsMode>,
    ) -> (settings: GraphicsSettings)
        ensures
            settings.size() == match size {
                Some(given) => given,
                None => (1280u32, 720u32),
            },
            settings.mode() == match mode {
                Some(given) => given,
                None => GraphicsMode::OpenGL,
            },
            settings.vulkan_id() == match id {
                Some(given) => given,
                None => 0usize,
            },
    {
        GraphicsSettings {
            width: match size {
                Some((w, _h)) => w,
                None => 1280,
            },
            height: match size {
                Some((_w, h)) => h,
                None => 720,
            },
            mode: match mode {
                Some(i) => i,
                None => GraphicsMode::OpenGL,
            },
            vulkan_id: match id {
                Some(i) => i,
                None => 0,
            },
        }
    }

    #[verifier::when_used_as_spec(spec_width)]
    pub fn width(&self) -> (width: u32)
        ensures
            width == self.spec_width(),
    {
        self.width
    }

    #[verifier::when_used_as_spec(spec_height)]
    pub fn height(&self) -> (height: u32)
        ensures
            height == self.spec_height(),
    {
        self.height
    }

    #[verifier::when_used_as_spec(spec_size)]
    pub fn size(&self) -> (size: (u32, u32))
        ensures
            size == self.spec_size(),
    {
        (self.width, self.height)
    }

    #[verifier::when_used_as_spec(spec_mode)]
    pub fn mode(&self) -> (mode: GraphicsMode)
        ensures
            mode == self.spec_mode(),
    {
        self.mode
    }

    #[verifier::when_used_as_spec(spec_vulkan_id)]
    pub fn vulkan_id(&self) -> (id: usize)
        ensures
            id == self.spec_vulkan_id(),
    {
        self.vulkan_id
    }
}

/// The settings of an application.
#[derive(Debug, Eq, PartialEq, Copy, Clone)]
pub struct Settings {
    graphics: GraphicsSettings,
}

impl Settings {
    pub closed spec fn spec_graphics(&self) -> GraphicsSettings {
        self.graphics
    }

    /// The settings a new application starts with: 800 by 600, the given
    /// graphics interface, and the first Vulkan device.
    pub fn new(graphics_mode: GraphicsMode) -> (settings: Settings)
        ensures
            settings.graphics().size() == (800u32, 600u32),
            settings.graphics().mode() == graphics_mode,
            settings.graphics().vulkan_id() == 0,
    {
        Settings { graphics: GraphicsSettings::new(None, Some((800, 600)), Some(graphics_mode)) }
    }

    /// Settings over the given graphics part.
    pub fn with_graphics(graphics: GraphicsSettings) -> (settings: Settings)
        ensures
            settings.graphics() == graphics,
    {
        Settings { graphics }
    }

    /// The name of the file that keeps the settings of the application
    /// called `name`: the name followed by `.json`.
    pub fn file_name(name: &str) -> (file_name: String)
        ensures
            file_name@ == name@ + ".json"@,
    {
        let mut file_name = String::from_str(name);
        file_name.append(".json");
        file_name
    }

    #[verifier::when_used_as_spec(spec_graphics)]
    pub fn graphics(&self) -> (graphics: GraphicsSettings)
        ensures
            graphics == self.spec_graphics(),
    {
        self.graphics
    }

    /// Changes the graphics interface and nothing else.
    pub fn set_graphics_mode(&mut self, mode: GraphicsMode)
        ensures
            final(self).graphics().mode() == mode,
            final(self).graphics().size() == old(self).graphics().size(),
            final(self).graphics().vulkan_id() == old(self).graphics().vulkan_id(),
    {
        self.graphics.mode = mode;
    }
}

/// Why the settings of an application could not be had.
#[derive(Debug, PartialEq, Eq, Clone, Copy, Structural)]
pub enum SettingsError {
    /// The file could not be read.
    Unreadable,
    /// The file does not hold settings.
    Malformed,
}

impl SettingsError {
    pub open spec fn text(self) -> Seq<char> {
        match self {
            SettingsError::Unreadable => "Failed to read settings from disk"@,
            SettingsError::Malformed => "Failed to deserialize settings"@,
        }
    }

    /// The error in words.
    pub fn message(&self) -> (text: &'static str)
        ensures
            text@ == self.text(),
    {
        match self {
            SettingsError::Unreadable => "Failed to read settings from disk",
            SettingsError::Malformed => "Failed to deserialize settings",
        }
    }
}

} // verus!
