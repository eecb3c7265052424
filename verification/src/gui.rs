//! The state of the user interface: which panels are shown, and what they
//! show that is not drawn from numbers.

use vstd::prelude::*;
use crate::configuration::library::Library;
use crate::events::{InputEvent, Key, WindowInput};
use crate::text::same_text;

verus! {

/// Whether `event` is the press of `key` in a window.
pub open spec fn spec_is_key_press(event: InputEvent, key: Key) -> bool {
    match event {
        InputEvent::Window { window_id, event } => match event {
            WindowInput::KeyboardInput { key: pressed_key, pressed } => pressed && pressed_key
                == key,
            _ => false,
        },
        _ => false,
    }
}

/// Whether `event` is the press of `key` in a window.
pub fn is_key_press(event: &InputEvent, key: Key) -> (press: bool)
    ensures
        press == spec_is_key_press(*event, key),
{
    match event {
        InputEvent::Window { window_id, event } => match event {
            WindowInput::KeyboardInput { key: pressed_key, pressed } => *pressed && *pressed_key
                == key,
            _ => false,
        },
        _ => false,
    }
}

/// The audio panel.
#[derive(Clone, Copy, Debug, PartialEq, Eq, Structural)]
pub struct AudioWidget;

/// The camera panel.
#[derive(Clone, Copy, Debug, PartialEq, Eq, Structural)]
pub struct CameraWidget;

/// The main menu: which of the panels that it offers are shown.
#[derive(Clone, Copy, Debug, PartialEq, Eq, Structural)]
pub struct MainMenuAndWidgets {
    pub audio_widget_enabled: bool,
    pub camera_widget_enabled: bool,
}

impl MainMenuAndWidgets {
    /// A menu with every panel hidden.
    pub fn new() -> (menu: Self)
        ensures
            !menu.audio_widget_enabled,
            !menu.camera_widget_enabled,
    {
        MainMenuAndWidgets { audio_widget_enabled: false, camera_widget_enabled: false }
    }

    /// The menu entry of the audio panel.
    pub fn audio_menu_title(&self) -> (title: String)
        ensures
            title@ == "Audio Info"@,
    {
        "Audio Info".to_owned()
    }

    /// The menu entry of the camera panel.
    pub fn camera_menu_title(&self) -> (title: String)
        ensures
            title@ == "Camera Info"@,
    {
        "Camera Info".to_owned()
    }

    /// Shows the audio panel where it is hidden, and hides it where it is
    /// shown.
    pub fn toggle_audio_widget(&mut self)
        ensures
            final(self).audio_widget_enabled == !old(self).audio_widget_enabled,
            final(self).camera_widget_enabled == old(self).camera_widget_enabled,
    {
        self.audio_widget_enabled = !self.audio_widget_enabled;
    }

    /// Shows the camera panel where it is hidden, and hides it where it is
    /// shown.
    pub fn toggle_camera_widget(&mut self)
        ensures
            final(self).camera_widget_enabled == !old(self).camera_widget_enabled,
            final(self).audio_widget_enabled == old(self).audio_widget_enabled,
    {
        self.camera_widget_enabled = !self.camera_widget_enabled;
    }

    /// The menu keeps no time.
    pub fn update(&mut self, time_delta_nanos: u128)
        ensures
            *final(self) == *old(self),
    {
    }

    /// The menu acts on no event of the window system.
    pub fn handle_event(&mut self, event: &InputEvent)
        ensures
            *final(self) == *old(self),
    {
    }
}

/// The status bar: the time that the last frame took, in nanoseconds.
#[derive(Clone, Copy, Debug, PartialEq, Eq, Structural)]
pub struct StatusBar {
    pub last_frame_time: u128,
}

impl StatusBar {
    pub fn new() -> (bar: Self)
        ensures
            bar.last_frame_time == 0,
    {
        StatusBar { last_frame_time: 0 }
    }

    /// Takes note of the time that the last frame took.
    pub fn update(&mut self, time_delta_nanos: u128)
        ensures
            final(self).last_frame_time == time_delta_nanos,
    {
        self.last_frame_time = time_delta_nanos;
    }

    /// The time that the last frame took, in whole microseconds.
    pub fn last_frame_micros(&self) -> (micros: u128)
        ensures
            micros == self.last_frame_time / 1000,
    {
        self.last_frame_time / 1000
    }

    /// The status bar acts on no event of the window system.
    pub fn handle_event(&mut self, event: &InputEvent)
        ensures
            *final(self) == *old(self),
    {
    }
}

/// A menu bar without entries.
#[derive(Clone, Copy, Debug, PartialEq, Eq, Structural)]
pub struct TopMenu {  }

impl TopMenu {
    pub fn new() -> (menu: Self) {
        TopMenu {  }
    }
}

/// One button of the library panel.
#[derive(Debug)]
pub struct SceneButton {
    /// The name of the scene.
    pub label: String,
    /// Whether the button can be pressed: the button of the scene that is
    /// shown cannot.
    pub enabled: bool,
}

/// The library panel: the list of scenes, shown or hidden.
#[derive(Clone, Copy, Debug, PartialEq, Eq, Structural)]
pub struct LibraryPanel {
    pub is_enabled: bool,
}

impl LibraryPanel {
    /// A hidden panel.
    pub fn new() -> (panel: Self)
        ensures
            !panel.is_enabled,
    {
        LibraryPanel { is_enabled: false }
    }

    /// The panel keeps no time.
    pub fn update(&mut self, time_delta_nanos: u128)
        ensures
            *final(self) == *old(self),
    {
    }

    /// The press of F1 shows the panel where it is hidden and hides it
    /// where it is shown. No other event changes it.
    pub fn handle_event(&mut self, event: &InputEvent)
        ensures
            final(self).is_enabled == (old(self).is_enabled != spec_is_key_press(*event, Key::F1)),
    {
        if is_key_press(event, Key::F1) {
            self.is_enabled = !self.is_enabled;
        }
    }

    /// The buttons of the panel: none while it is hidden, else one for
    /// each scene of the library, in order.
    pub fn draw(&self, library: &Library) -> (buttons: Vec<SceneButton>)
        ensures
            !self.is_enabled ==> buttons.len() == 0,
            self.is_enabled ==> {
                &&& buttons.len() == library.scenes().len()
                &&& forall|i: int|
                    0 <= i < buttons.len() ==> {
                        &&& (#[trigger] buttons[i]).label@ == library.scenes()[i].name@
                        &&& buttons[i].enabled == (library.scenes()[i].name@
                            != library.current_name())
                    }
            },
    {
        let mut buttons: Vec<SceneButton> = Vec::new();
        if !self.is_enabled {
            return buttons;
        }
        let scenes = library.get_scenes();
        let mut i: usize = 0;
        while i < scenes.len()
            invariant
                i <= scenes.len(),
                scenes@ == library.scenes(),
                buttons.len() == i,
                forall|k: int|
                    0 <= k < i ==> {
                        &&& (#[trigger] buttons[k]).label@ == scenes[k].name@
                        &&& buttons[k].enabled == (scenes[k].name@ != library.current_name())
                    },
            decreases scenes.len() - i,
        {
            let is_current = same_text(
                scenes[i].name.as_str(),
                library.current_scene_name().as_str(),
            );
            buttons.push(SceneButton { label: scenes[i].name.clone(), enabled: !is_current });
            i += 1;
        }
        buttons
    }
}

/// The user interface: hidden or shown as a whole, with its menu, its
/// status bar and its library panel.
#[derive(Clone, Copy, Debug, PartialEq, Eq, Structural)]
pub struct GuiApp {
    pub is_enabled: bool,
    pub menu: MainMenuAndWidgets,
    pub status_bar: StatusBar,
    pub library_panel: LibraryPanel,
}

/// The user interface after an event: the press of the grave accent key
/// shows or hides the whole and goes no further; every other event goes to
/// the parts.
pub open spec fn spec_gui_after(gui: GuiApp, event: InputEvent) -> GuiApp {
    if spec_is_key_press(event, Key::Grave) {
        GuiApp { is_enabled: !gui.is_enabled, ..gui }
    } else {
        GuiApp {
            library_panel: LibraryPanel {
                is_enabled: gui.library_panel.is_enabled != spec_is_key_press(event, Key::F1),
            },
            ..gui
        }
    }
}

impl GuiApp {
    /// A hidden user interface with hidden panels.
    pub fn new() -> (gui: Self)
        ensures
            !gui.is_enabled,
            gui.menu == (MainMenuAndWidgets {
                audio_widget_enabled: false,
                camera_widget_enabled: false,
            }),
            gui.status_bar.last_frame_time == 0,
            !gui.library_panel.is_enabled,
    {
        GuiApp {
            is_enabled: false,
            menu: MainMenuAndWidgets::new(),
            status_bar: StatusBar::new(),
            library_panel: LibraryPanel::new(),
        }
    }

    /// Hands the frame time to every part.
    pub fn update(&mut self, time_delta_nanos: u128)
        ensures
            *final(self) == (GuiApp {
                status_bar: StatusBar { last_frame_time: time_delta_nanos },
                ..*old(self)
            }),
    {
        self.menu.update(time_delta_nanos);
        self.status_bar.update(time_delta_nanos);
        self.library_panel.update(time_delta_nanos);
    }

    /// Whether anything is drawn at all.
    pub fn draw(&self) -> (shown: bool)
        ensures
            shown == self.is_enabled,
    {
        self.is_enabled
    }

    pub fn handle_event(&mut self, event: &InputEvent)
        ensures
            *final(self) == spec_gui_after(*old(self), *event),
    {
        if is_key_press(event, Key::Grave) {
            self.is_enabled = !self.is_enabled;
        } else {
            self.menu.handle_event(event);
            self.status_bar.handle_event(event);
            self.library_panel.handle_event(event);
        }
    }
}

} // verus!
