//! What the simulation's window does with user input: which views are on,
//! whether the pointer is injecting forces or turning the camera, and when
//! the pointer trace must be interrupted. The host performs the actions and
//! feeds back what the GUI reported.
use vstd::prelude::*;

use crate::wave_sim_gui::ButtonOptionsId;

verus! {

/// The keys that switch views.
pub enum ViewKey {
    /// Shows or hides the performance graph.
    F2,
    /// Moves the camera to the top view.
    Key1,
    /// Moves the camera to the side view.
    Key2,
    /// Switches between the textured and the coloured grid.
    Key3,
}

/// Where the host should put the camera.
#[derive(PartialEq, Eq, Structural, Debug, Clone, Copy)]
pub enum CameraMove {
    Stay,
    TopView,
    SideView,
}

/// The switches of the simulation window.
#[derive(PartialEq, Eq, Structural, Debug, Clone, Copy)]
pub struct ViewState {
    pub show_performance_graph: bool,
    pub show_textured_grid: bool,
    pub show_top_viewpoint: bool,
    /// The pointer is down on the grid and injects forces.
    pub mouse_pressed_forces: bool,
    /// The secondary button is down and turns the camera.
    pub mouse_pressed_camera: bool,
}

impl ViewState {
    /// The start: top view of the textured grid, no graph, pointer up.
    pub fn new() -> (r: Self)
        ensures
            r == (ViewState {
                show_performance_graph: false,
                show_textured_grid: true,
                show_top_viewpoint: true,
                mouse_pressed_forces: false,
                mouse_pressed_camera: false,
            }),
    {
        ViewState {
            show_performance_graph: false,
            show_textured_grid: true,
            show_top_viewpoint: true,
            mouse_pressed_forces: false,
            mouse_pressed_camera: false,
        }
    }

    /// A view key went down.
    pub fn key_pressed(&mut self, key: ViewKey) -> (r: CameraMove)
        ensures
            match key {
                ViewKey::F2 => r == CameraMove::Stay && *final(self) == (ViewState {
                    show_performance_graph: !old(self).show_performance_graph,
                    ..*old(self)
                }),
                ViewKey::Key1 => r == CameraMove::TopView && *final(self) == (ViewState {
                    show_top_viewpoint: true,
                    ..*old(self)
                }),
                ViewKey::Key2 => r == CameraMove::SideView && *final(self) == (ViewState {
                    show_top_viewpoint: false,
                    ..*old(self)
                }),
                ViewKey::Key3 => r == CameraMove::Stay && *final(self) == (ViewState {
                    show_textured_grid: !old(self).show_textured_grid,
                    ..*old(self)
                }),
            },
    {
        match key {
            ViewKey::F2 => {
                self.show_performance_graph = !self.show_performance_graph;
                CameraMove::Stay
            },
            ViewKey::Key1 => {
                self.show_top_viewpoint = true;
                CameraMove::TopView
            },
            ViewKey::Key2 => {
                self.show_top_viewpoint = false;
                CameraMove::SideView
            },
            ViewKey::Key3 => {
                self.show_textured_grid = !self.show_textured_grid;
                CameraMove::Stay
            },
        }
    }

    /// An option button of the GUI was pressed.
    pub fn option_pressed(&mut self, id: ButtonOptionsId) -> (r: CameraMove)
        ensures
            match id {
                ButtonOptionsId::SwitchViewPoint => *final(self) == (ViewState {
                    show_top_viewpoint: !old(self).show_top_viewpoint,
                    ..*old(self)
                }) && r == if final(self).show_top_viewpoint {
                    CameraMove::TopView
                } else {
                    CameraMove::SideView
                },
                ButtonOptionsId::SwitchTexture => r == CameraMove::Stay && *final(self) == (
                ViewState { show_textured_grid: !old(self).show_textured_grid, ..*old(self) }),
                ButtonOptionsId::PerformanceGraph => r == CameraMove::Stay && *final(self) == (
                ViewState {
                    show_performance_graph: !old(self).show_performance_graph,
                    ..*old(self)
                }),
            },
    {
        match id {
            ButtonOptionsId::SwitchViewPoint => {
                self.show_top_viewpoint = !self.show_top_viewpoint;
                if self.show_top_viewpoint {
                    CameraMove::TopView
                } else {
                    CameraMove::SideView
                }
            },
            ButtonOptionsId::SwitchTexture => {
                self.show_textured_grid = !self.show_textured_grid;
                CameraMove::Stay
            },
            ButtonOptionsId::PerformanceGraph => {
                self.show_performance_graph = !self.show_performance_graph;
                CameraMove::Stay
            },
        }
    }

    /// The secondary button went down or up.
    pub fn camera_button(&mut self, pressed: bool)
        ensures
            *final(self) == (ViewState { mouse_pressed_camera: pressed, ..*old(self) }),
    {
        self.mouse_pressed_camera = pressed;
    }

    /// The primary button went down or up, and the GUI reported whether it
    /// consumed the press. Unless the GUI took a press, the pointer now
    /// injects forces exactly while it is down; returns whether the pointer
    /// trace must then be interrupted.
    pub fn force_button(&mut self, pressed: bool, gui_consumed: bool) -> (r: bool)
        ensures
            r == (!gui_consumed || !pressed),
            *final(self) == if r {
                ViewState { mouse_pressed_forces: pressed, ..*old(self) }
            } else {
                *old(self)
            },
    {
        if !gui_consumed || !pressed {
            self.mouse_pressed_forces = pressed;
            true
        } else {
            false
        }
    }

    /// A touch began, and the GUI reported whether it consumed it. Returns
    /// whether the touch goes to the grid: the pointer then injects forces,
    /// the host interrupts the pointer trace so that the touch starts
    /// fresh, and picks the touch position on the grid.
    pub fn touch_started(&mut self, gui_consumed: bool) -> (r: bool)
        ensures
            r == !gui_consumed,
            *final(self) == if r {
                ViewState { mouse_pressed_forces: true, ..*old(self) }
            } else {
                *old(self)
            },
    {
        if !gui_consumed {
            self.mouse_pressed_forces = true;
        }
        !gui_consumed
    }

    /// A touch ended or was cancelled: forces stop, and the host interrupts
    /// the pointer trace.
    pub fn touch_ended(&mut self)
        ensures
            *final(self) == (ViewState { mouse_pressed_forces: false, ..*old(self) }),
    {
        self.mouse_pressed_forces = false;
    }
}

} // verus!
