use crate::overlay::{
    bool_string, bool_text, decimal, decimal_string, effective_value,
    lemma_unset_key_has_no_value, EnvPair, EnvironmentOverlay,
};
use vstd::prelude::*;
use vstd::string::*;

verus! {

/// Settings of the compositor that are kept with an instance.
#[derive(Debug)]
pub struct CompositorSettings {
    pub forcing: Forcing,
}

impl CompositorSettings {
    /// Settings with nothing forced.
    pub fn new() -> (settings: Self)
        ensures
            settings.forcing.is_unset(),
    {
        CompositorSettings { forcing: Forcing::default() }
    }
}

impl Default for CompositorSettings {
    fn default() -> (settings: Self)
        ensures
            settings.forcing.is_unset(),
    {
        CompositorSettings::new()
    }
}

/// What the operator has entered for the display backends that take a
/// parameter.
#[derive(Debug)]
pub struct Forcing {
    pub nvidia_str_enabled: bool,
    pub nvidia_str: String,
    pub xcb_fullscreen: bool,
    pub xcb_screen: u32,
}

impl Forcing {
    /// Nothing entered: no display string, windowed, screen 0.
    pub open spec fn is_unset(&self) -> bool {
        &&& !self.nvidia_str_enabled
        &&& self.nvidia_str@ == Seq::<char>::empty()
        &&& !self.xcb_fullscreen
        &&& self.xcb_screen == 0
    }
}

/// The highest screen number that the panel lets the operator choose.
pub const MAX_XCB_SCREEN: u32 = 10;

/// Which of the widgets for the backends that take a parameter can be used.
#[derive(Debug, PartialEq, Eq, Clone, Copy, Structural)]
pub struct ForcingWidgets {
    /// Whether direct mode on an Nvidia display is the selection.
    pub nvidia_selected: bool,
    /// Whether the switch for a display string of the operator's can be set.
    pub display_switch_enabled: bool,
    /// Whether the display string can be edited.
    pub display_string_enabled: bool,
    /// Whether a window of the X server is the selection, so that its
    /// options are open and can be set.
    pub xcb_selected: bool,
}

impl Forcing {
    /// The widgets that can be used while `window_type` is the selection: the
    /// switch for the display string with direct mode on an Nvidia display,
    /// the string itself only once the switch is on, and the options of the
    /// window only with a window.
    pub fn widgets(&self, window_type: &WindowType) -> (shown: ForcingWidgets)
        ensures
            shown.nvidia_selected == (*window_type is NvidiaDirect),
            shown.display_switch_enabled == (*window_type is NvidiaDirect),
            shown.display_string_enabled == (self.nvidia_str_enabled
                && *window_type is NvidiaDirect),
            shown.xcb_selected == (*window_type is Xcb),
    {
        let nvidia = matches!(window_type, WindowType::NvidiaDirect(_));
        let xcb = matches!(window_type, WindowType::Xcb(_, _));
        ForcingWidgets {
            nvidia_selected: nvidia,
            display_switch_enabled: nvidia,
            display_string_enabled: self.nvidia_str_enabled && nvidia,
            xcb_selected: xcb,
        }
    }
}

impl Default for Forcing {
    fn default() -> (forcing: Self)
        ensures
            forcing.is_unset(),
    {
        Forcing {
            nvidia_str_enabled: false,
            nvidia_str: String::new(),
            xcb_fullscreen: false,
            xcb_screen: 0,
        }
    }
}

/// Whether the windowed backend covers the screen.
#[derive(Debug, PartialEq, Eq, Clone, Copy, Structural)]
pub enum XcbScreenType {
    Fullscreen,
    Windowed,
}

impl Default for XcbScreenType {
    fn default() -> (screen_type: Self)
        ensures
            screen_type == XcbScreenType::Windowed,
    {
        XcbScreenType::Windowed
    }
}

/// The number of the screen that the windowed backend opens on.
#[derive(Debug, PartialEq, Eq, Clone, Copy, Structural)]
pub struct XcbScreenNumber(pub u32);

/// The display backend that the service is told to use.
#[derive(Debug, PartialEq, Eq, Clone)]
pub enum WindowType {
    /// The service chooses: nothing is set.
    Auto,
    /// Direct mode on an Nvidia display, optionally naming the display.
    NvidiaDirect(Option<String>),
    /// The Vulkan display with this index.
    Vk(u32),
    RandrDirect,
    WaylandDirect,
    /// A window of the X server, on the given screen.
    Xcb(XcbScreenType, XcbScreenNumber),
    Wayland,
}

impl WindowType {
    /// The pairs that this selection contributes, in the order in which they
    /// are set.
    pub open spec fn overlay(&self) -> Seq<EnvPair> {
        match self {
            WindowType::Auto => Seq::empty(),
            WindowType::NvidiaDirect(None) => seq![("XRT_COMPOSITOR_FORCE_NVIDIA"@, "true"@)],
            WindowType::NvidiaDirect(Some(display)) => seq![
                ("XRT_COMPOSITOR_FORCE_NVIDIA"@, "true"@),
                ("XRT_COMPOSITOR_FORCE_NVIDIA_DISPLAY"@, display@),
            ],
            WindowType::Vk(index) => seq![
                ("XRT_COMPOSITOR_FORCE_VK_DISPLAY"@, decimal(*index as nat)),
            ],
            WindowType::RandrDirect => seq![("XRT_COMPOSITOR_FORCE_RANDR"@, "true"@)],
            WindowType::WaylandDirect => seq![("XRT_COMPOSITOR_FORCE_WAYLAND_DIRECT"@, "true"@)],
            WindowType::Xcb(screen_type, screen_number) => seq![
                ("XRT_COMPOSITOR_FORCE_XCB"@, "true"@),
                (
                    "XRT_COMPOSITOR_XCB_FULLSCREEN"@,
                    bool_text(*screen_type == XcbScreenType::Fullscreen),
                ),
                ("XRT_COMPOSITOR_XCB_DISPLAY"@, decimal(screen_number.0 as nat)),
            ],
            WindowType::Wayland => seq![("XRT_COMPOSITOR_FORCE_WAYLAND"@, "true"@)],
        }
    }

    /// The selection that a press on the button for direct mode on an Nvidia
    /// display makes: with a display string that is still empty.
    pub fn nvidia_direct() -> (window_type: Self)
        ensures
            window_type matches WindowType::NvidiaDirect(Some(display)) && display@
                == Seq::<char>::empty(),
    {
        WindowType::NvidiaDirect(Some(String::new()))
    }

    /// The selection that a press on the button for a window of the X server
    /// makes: windowed, on the first screen.
    pub fn xcb() -> (window_type: Self)
        ensures
            window_type == WindowType::Xcb(XcbScreenType::Windowed, XcbScreenNumber(0)),
    {
        WindowType::Xcb(XcbScreenType::Windowed, XcbScreenNumber(0))
    }

    /// Adds the pairs of this selection to `command`.
    pub fn set_vars(&self, command: EnvironmentOverlay) -> (extended: EnvironmentOverlay)
        ensures
            extended@ == command@ + self.overlay(),
    {
        let mut command = command;
        let ghost before = command@;
        match self {
            WindowType::Auto => {},
            WindowType::NvidiaDirect(opt_display_string) => {
                command = command.env("XRT_COMPOSITOR_FORCE_NVIDIA", "true");
                match opt_display_string {
                    None => {},
                    Some(display_str) => {
                        command =
                        command.env("XRT_COMPOSITOR_FORCE_NVIDIA_DISPLAY", display_str.as_str());
                    },
                }
            },
            WindowType::Vk(vk) => {
                let index = decimal_string(*vk);
                command = command.env("XRT_COMPOSITOR_FORCE_VK_DISPLAY", index.as_str());
            },
            WindowType::RandrDirect => {
                command = command.env("XRT_COMPOSITOR_FORCE_RANDR", "true");
            },
            WindowType::WaylandDirect => {
                command = command.env("XRT_COMPOSITOR_FORCE_WAYLAND_DIRECT", "true");
            },
            WindowType::Xcb(screen_type, screen_number) => {
                let fullscreen = bool_string(matches!(screen_type, XcbScreenType::Fullscreen));
                let display = decimal_string(screen_number.0);
                command = command.env("XRT_COMPOSITOR_FORCE_XCB", "true");
                command = command.env("XRT_COMPOSITOR_XCB_FULLSCREEN", fullscreen.as_str());
                command = command.env("XRT_COMPOSITOR_XCB_DISPLAY", display.as_str());
            },
            WindowType::Wayland => {
                command = command.env("XRT_COMPOSITOR_FORCE_WAYLAND", "true");
            },
        }
        assert(command@ =~= before + self.overlay());
        command
    }
}

/// A selection that is left to the service sets nothing, and direct mode on
/// an Nvidia display sets no display where none is named.
pub proof fn lemma_unset_selection_sets_nothing()
    ensures
        WindowType::Auto.overlay() == Seq::<EnvPair>::empty(),
        WindowType::NvidiaDirect(None).overlay() == seq![
            ("XRT_COMPOSITOR_FORCE_NVIDIA"@, "true"@),
        ],
{
}

/// No selection of a display backend touches the logging level of the
/// compositor.
pub proof fn lemma_selection_leaves_logging(window_type: WindowType)
    ensures
        effective_value(window_type.overlay(), "XRT_COMPOSITOR_LOG"@) is None,
{
    reveal_strlit("XRT_COMPOSITOR_LOG");
    reveal_strlit("XRT_COMPOSITOR_FORCE_NVIDIA");
    reveal_strlit("XRT_COMPOSITOR_FORCE_NVIDIA_DISPLAY");
    reveal_strlit("XRT_COMPOSITOR_FORCE_VK_DISPLAY");
    reveal_strlit("XRT_COMPOSITOR_FORCE_RANDR");
    reveal_strlit("XRT_COMPOSITOR_FORCE_WAYLAND_DIRECT");
    reveal_strlit("XRT_COMPOSITOR_FORCE_XCB");
    reveal_strlit("XRT_COMPOSITOR_XCB_FULLSCREEN");
    reveal_strlit("XRT_COMPOSITOR_XCB_DISPLAY");
    reveal_strlit("XRT_COMPOSITOR_FORCE_WAYLAND");
    let key = "XRT_COMPOSITOR_LOG"@;
    let pairs = window_type.overlay();
    assert forall|i: int| 0 <= i < pairs.len() implies (#[trigger] pairs[i]).0 != key by {
        assert(pairs[i].0.len() != key.len());
    }
    lemma_unset_key_has_no_value(pairs, key);
}

impl Default for WindowType {
    fn default() -> (window_type: Self)
        ensures
            window_type == WindowType::Auto,
    {
        WindowType::Auto
    }
}

} // verus!
