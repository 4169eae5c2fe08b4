//! The GUI of the wave simulation: a menu button that shows or hides a
//! column of option buttons, and a frame-rate label.
use vstd::prelude::*;

use crate::gui::{
    AlignedElement, Alignment, Button, ButtonPressedEvent, ChangePositionEvent,
    ElementId, Gui, GuiElement, Label, MouseEvent, VerticalLayout, events_of, leaves, leaves_of,
};

verus! {

/// The buttons shown while the option menu is open.
#[derive(Debug, PartialEq, Eq, Structural, Copy, Clone)]
pub enum ButtonOptionsId {
    SwitchViewPoint,
    SwitchTexture,
    PerformanceGraph,
}

/// The button that opens and closes the option menu.
#[derive(Debug, PartialEq, Eq, Structural, Copy, Clone)]
pub enum ButtonMenuId {
    Menu,
}

/// The labels of the GUI.
#[derive(Debug, PartialEq, Eq, Structural, Copy, Clone)]
pub enum LabelId {
    Fps,
}

/// Side length of a square button, in pixels.
pub const BUTTON_SIZE: u32 = 40;

/// Space kept around a button, in pixels.
pub const BUTTON_BORDER: u32 = 5;

/// Distance of the menu button from the bottom-right corner.
pub const MENU_OFFSET: u32 = 10;

/// Vertical distance of the option column from the bottom edge: it sits
/// right above the menu button.
pub const OPTIONS_OFFSET_Y: u32 = 60;

/// Distance of the frame-rate label from its corner.
pub const FPS_OFFSET: u32 = 5;

pub struct WaveSimGui {
    pub width: u32,
    pub height: u32,
    pub gui_menu: Gui<ButtonMenuId, LabelId>,
    pub gui_options: Gui<ButtonOptionsId, LabelId>,
    pub show_submenu: bool,
}

impl WaveSimGui {
    /// The anchors of both GUIs are those that `new` sets up.
    pub open spec fn wf(&self) -> bool {
        let m = self.gui_menu.elements@;
        let o = self.gui_options.elements@;
        &&& m.len() == 1
        &&& m[0].alignment == Alignment::BottomRight
        &&& m[0].x == MENU_OFFSET
        &&& m[0].y == MENU_OFFSET
        &&& o.len() == 2
        &&& o[0].alignment == Alignment::BottomRight
        &&& o[0].x == MENU_OFFSET
        &&& o[0].y == OPTIONS_OFFSET_Y
        &&& o[1].alignment == Alignment::TopLeft
        &&& o[1].x == FPS_OFFSET
        &&& o[1].y == FPS_OFFSET
    }

    /// A window of this size leaves room for every element.
    pub open spec fn window_fits(width: u32, height: u32) -> bool {
        &&& MENU_OFFSET <= width <= u32::MAX - FPS_OFFSET
        &&& OPTIONS_OFFSET_Y <= height <= u32::MAX - FPS_OFFSET
    }

    /// Whether a window of `width` x `height` leaves room for every element,
    /// as `resize` requires.
    pub fn window_is_large_enough(width: u32, height: u32) -> (r: bool)
        ensures
            r == Self::window_fits(width, height),
    {
        MENU_OFFSET <= width && width <= u32::MAX - FPS_OFFSET && OPTIONS_OFFSET_Y <= height
            && height <= u32::MAX - FPS_OFFSET
    }

    /// Builds the menu button, the option column and the frame-rate label
    /// (of the given size) for a window of `width` x `height`; the option
    /// menu starts closed.
    pub fn new(width: u32, height: u32, fps_width: u32, fps_height: u32) -> (r: Self)
        ensures
            r.wf(),
            r.width == width,
            r.height == height,
            !r.show_submenu,
            r.gui_menu.width == width,
            r.gui_options.width == width,
            r.gui_menu.height == height,
            r.gui_options.height == height,
            leaves(r.gui_menu.elements@[0].element) == seq![
                ElementId::<ButtonMenuId, LabelId>::Button(ButtonMenuId::Menu),
            ],
            leaves(r.gui_options.elements@[0].element) == seq![
                ElementId::<ButtonOptionsId, LabelId>::Button(ButtonOptionsId::SwitchTexture),
                ElementId::Button(ButtonOptionsId::SwitchViewPoint),
                ElementId::Button(ButtonOptionsId::PerformanceGraph),
            ],
            leaves(r.gui_options.elements@[1].element) == seq![
                ElementId::<ButtonOptionsId, LabelId>::Label(LabelId::Fps),
            ],
    {
        let btn_menu = Button::new(BUTTON_SIZE, BUTTON_SIZE, ButtonMenuId::Menu);
        let gui_menu = Gui::<ButtonMenuId, LabelId>::new(
            width,
            height,
            vec![
                AlignedElement::new(
                    Alignment::BottomRight,
                    MENU_OFFSET,
                    MENU_OFFSET,
                    GuiElement::Button(btn_menu),
                ),
            ],
        );
        let vertical_layout = VerticalLayout::<ButtonOptionsId, LabelId>::new(
            vec![
                GuiElement::Button(
                    Button::new(BUTTON_SIZE, BUTTON_SIZE, ButtonOptionsId::SwitchTexture),
                ),
                GuiElement::Button(
                    Button::new(BUTTON_SIZE, BUTTON_SIZE, ButtonOptionsId::SwitchViewPoint),
                ),
                GuiElement::Button(
                    Button::new(BUTTON_SIZE, BUTTON_SIZE, ButtonOptionsId::PerformanceGraph),
                ),
            ],
        );
        let ghost vertical_layout_elements = vertical_layout.elements@;
        let gui_options = Gui::<ButtonOptionsId, LabelId>::new(
            width,
            height,
            vec![
                AlignedElement::new(
                    Alignment::BottomRight,
                    MENU_OFFSET,
                    OPTIONS_OFFSET_Y,
                    GuiElement::VerticalLayout(vertical_layout),
                ),
                AlignedElement::new(
                    Alignment::TopLeft,
                    FPS_OFFSET,
                    FPS_OFFSET,
                    GuiElement::Label(Label::new(fps_width, fps_height, LabelId::Fps)),
                ),
            ],
        );
        proof {
            let s = vertical_layout_elements;
            assert(s.subrange(0, 2).subrange(0, 1) == s.subrange(0, 1));
            assert(s.subrange(0, 3).subrange(0, 2) == s.subrange(0, 2));
            assert(s.subrange(0, 1).subrange(0, 0) =~= Seq::<GuiElement<ButtonOptionsId, LabelId>>::empty());
            assert(s.subrange(0, 3) == s);
            reveal_with_fuel(leaves_of, 4);
            assert(leaves_of(s) =~= seq![
                ElementId::<ButtonOptionsId, LabelId>::Button(ButtonOptionsId::SwitchTexture),
                ElementId::Button(ButtonOptionsId::SwitchViewPoint),
                ElementId::Button(ButtonOptionsId::PerformanceGraph),
            ]);
        }
        Self { width, height, gui_menu, gui_options, show_submenu: false }
    }

    /// The two triangles of a button quad, by vertex index.
    pub fn indices() -> (r: [u32; 6])
        ensures
            r@ == seq![0u32, 1, 2, 2, 3, 0],
    {
        let r: [u32; 6] = [0, 1, 2, 2, 3, 0];
        assert(r@ =~= seq![0u32, 1, 2, 2, 3, 0]);
        r
    }

    /// Offers a pointer move, in window coordinates (origin at the top
    /// left), to the menu and, while it is open, to the options. Returns
    /// whether the GUI consumed it; no element consumes a move, so the state
    /// stays as it was.
    pub fn mouse_moved(&mut self, x: u32, y: u32) -> (r: bool)
        ensures
            !r,
            *final(self) == *old(self),
    {
        let y = self.height - if y < self.height {
            y
        } else {
            self.height
        };
        let mouse_event = MouseEvent::Moved { x, y };
        let (consumed, _events) = self.gui_menu.mouse_event(mouse_event);
        if consumed {
            return true;
        }
        if self.show_submenu {
            let mouse_event = MouseEvent::Moved { x, y };
            let (consumed, _events) = self.gui_options.mouse_event(mouse_event);
            if consumed {
                return true;
            }
        }
        false
    }

    /// Offers a press or release to the menu and, while it is open, to the
    /// options. A press on the menu button opens or closes the options; a
    /// press on an option is handed back. No element reacts to the pointer
    /// yet, so nothing is consumed and the state stays as it was.
    pub fn mouse_pressed(&mut self, pressed: bool) -> (r: (
        bool,
        Option<ButtonPressedEvent<ButtonOptionsId>>,
    ))
        ensures
            !r.0,
            r.1.is_none(),
            *final(self) == *old(self),
    {
        let mouse_event = if pressed {
            MouseEvent::Pressed
        } else {
            MouseEvent::Released
        };
        let (consumed, event) = self.gui_menu.mouse_event(mouse_event);
        if consumed {
            match event {
                Some(event) => {
                    self.handle_gui_menu_event(event);
                },
                None => {},
            }
            return (true, None);
        }
        if self.show_submenu {
            let mouse_event = if pressed {
                MouseEvent::Pressed
            } else {
                MouseEvent::Released
            };
            let (consumed, event) = self.gui_options.mouse_event(mouse_event);
            if consumed {
                return (true, event);
            }
        }
        (false, None)
    }

    fn handle_gui_menu_event(&mut self, event: ButtonPressedEvent<ButtonMenuId>)
        ensures
            final(self).show_submenu == !old(self).show_submenu,
            final(self).width == old(self).width,
            final(self).height == old(self).height,
            final(self).gui_menu == old(self).gui_menu,
            final(self).gui_options == old(self).gui_options,
    {
        match event.button_id {
            ButtonMenuId::Menu => {
                self.show_submenu = !self.show_submenu;
            },
        }
    }

    /// Records the new window size and lays both GUIs out again; returns
    /// the position events of the menu and of the options.
    pub fn resize(&mut self, width: u32, height: u32) -> (r: (
        Vec<ChangePositionEvent<ButtonMenuId, LabelId>>,
        Vec<ChangePositionEvent<ButtonOptionsId, LabelId>>,
    ))
        requires
            old(self).wf(),
            Self::window_fits(width, height),
        ensures
            final(self).wf(),
            final(self).width == width,
            final(self).height == height,
            final(self).show_submenu == old(self).show_submenu,
            r.0@ == events_of(old(self).gui_menu.elements@, width, height),
            r.1@ == events_of(old(self).gui_options.elements@, width, height),
    {
        self.width = width;
        self.height = height;
        let menu_events = self.gui_menu.resize(width, height);
        let option_events = self.gui_options.resize(width, height);
        (menu_events, option_events)
    }
}

} // verus!
