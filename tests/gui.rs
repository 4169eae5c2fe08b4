use wave_simulation::gui::{
    AlignedElement, Alignment, Button, ChangePositionEvent, ElementId, Gui, GuiElement, Label,
    VerticalLayout,
};

#[derive(Copy, Clone, Debug, PartialEq)]
enum ButtonId {
    PerformanceGraph,
    SwitchViewPoint,
    SwitchTexture,
}

#[derive(Copy, Clone, Debug, PartialEq)]
enum LabelId {
    Fps,
    Menu,
}

fn button_at(e: &ChangePositionEvent<ButtonId, LabelId>) -> Option<(ButtonId, u32, u32)> {
    match e.element_id {
        ElementId::Button(b) => Some((b, e.x, e.y)),
        ElementId::Label(_) => None,
    }
}

fn label_at(e: &ChangePositionEvent<ButtonId, LabelId>) -> Option<(LabelId, u32, u32)> {
    match e.element_id {
        ElementId::Label(l) => Some((l, e.x, e.y)),
        ElementId::Button(_) => None,
    }
}

#[test]
fn create_and_use() -> Result<(), String> {
    let btn_performance_graph = Button::new(10, 20, ButtonId::PerformanceGraph);
    let btn_switch_view_point = Button::new(10, 20, ButtonId::SwitchViewPoint);
    let btn_switch_texture_pressed = Button::new(10, 20, ButtonId::SwitchTexture);
    let lbl_fps = Label::new(10, 20, LabelId::Fps);
    let lbl_menu = Label::new(10, 20, LabelId::Menu);

    let vertical_layout = VerticalLayout::<ButtonId, LabelId>::new(vec![
        GuiElement::Button(btn_performance_graph),
        GuiElement::Button(btn_switch_view_point),
        GuiElement::Button(btn_switch_texture_pressed),
        GuiElement::Label(lbl_fps),
        GuiElement::Label(lbl_menu),
    ]);

    let width = 800;
    let height = 600;
    let mut gui = Gui::new(
        width,
        height,
        vec![AlignedElement::new(
            Alignment::BottomRight,
            20,
            20,
            GuiElement::VerticalLayout(vertical_layout),
        )],
    );

    let res = gui.resize(400, 400);

    assert_eq!(res.len(), 5);

    Ok(())
}

#[test]
fn resize_places_every_leaf_in_order() {
    let layout = VerticalLayout::<ButtonId, LabelId>::new(vec![
        GuiElement::Button(Button::new(10, 20, ButtonId::SwitchTexture)),
        GuiElement::Label(Label::new(10, 20, LabelId::Fps)),
    ]);
    let mut gui = Gui::new(
        800,
        600,
        vec![AlignedElement::new(Alignment::BottomRight, 20, 30, GuiElement::VerticalLayout(layout))],
    );
    let res = gui.resize(400, 300);
    assert_eq!(gui.width, 400);
    assert_eq!(gui.height, 300);
    assert_eq!(res.len(), 2);
    assert_eq!(button_at(&res[0]), Some((ButtonId::SwitchTexture, 380, 270)));
    assert_eq!(label_at(&res[1]), Some((LabelId::Fps, 380, 270)));
}

#[test]
fn each_alignment_offsets_from_the_window_size() {
    let mut gui = Gui::new(
        0,
        0,
        vec![
            AlignedElement::new(Alignment::TopLeft, 5, 7, GuiElement::Button(Button::new(1, 1, ButtonId::PerformanceGraph))),
            AlignedElement::new(Alignment::TopRight, 5, 7, GuiElement::Button(Button::new(1, 1, ButtonId::SwitchViewPoint))),
            AlignedElement::new(Alignment::BottomLeft, 5, 7, GuiElement::Button(Button::new(1, 1, ButtonId::SwitchTexture))),
            AlignedElement::new(Alignment::BottomRight, 5, 7, GuiElement::Label(Label::new(1, 1, LabelId::Menu))),
        ],
    );
    let res = gui.resize(100, 50);
    assert_eq!(res.len(), 4);
    assert_eq!(button_at(&res[0]), Some((ButtonId::PerformanceGraph, 105, 57)));
    assert_eq!(button_at(&res[1]), Some((ButtonId::SwitchViewPoint, 105, 43)));
    assert_eq!(button_at(&res[2]), Some((ButtonId::SwitchTexture, 95, 57)));
    assert_eq!(label_at(&res[3]), Some((LabelId::Menu, 95, 43)));
}

#[test]
fn nested_layouts_are_flattened() {
    let inner = VerticalLayout::<ButtonId, LabelId>::new(vec![
        GuiElement::Label(Label::new(1, 1, LabelId::Menu)),
        GuiElement::Button(Button::new(1, 1, ButtonId::SwitchViewPoint)),
    ]);
    let outer = VerticalLayout::<ButtonId, LabelId>::new(vec![
        GuiElement::Button(Button::new(1, 1, ButtonId::PerformanceGraph)),
        GuiElement::VerticalLayout(inner),
        GuiElement::Label(Label::new(1, 1, LabelId::Fps)),
    ]);
    let mut res = Vec::new();
    outer.resize(3, 4, &mut res);
    assert_eq!(res.len(), 4);
    assert_eq!(button_at(&res[0]), Some((ButtonId::PerformanceGraph, 3, 4)));
    assert_eq!(label_at(&res[1]), Some((LabelId::Menu, 3, 4)));
    assert_eq!(button_at(&res[2]), Some((ButtonId::SwitchViewPoint, 3, 4)));
    assert_eq!(label_at(&res[3]), Some((LabelId::Fps, 3, 4)));
}

#[test]
fn resize_appends_after_existing_events() {
    let element = AlignedElement::new(
        Alignment::TopLeft,
        1,
        2,
        GuiElement::<ButtonId, LabelId>::Button(Button::new(1, 1, ButtonId::SwitchTexture)),
    );
    let mut res = vec![ChangePositionEvent::<ButtonId, LabelId>::new_label(LabelId::Fps, 9, 9)];
    element.resize(10, 20, &mut res);
    assert_eq!(res.len(), 2);
    assert_eq!(label_at(&res[0]), Some((LabelId::Fps, 9, 9)));
    assert_eq!(button_at(&res[1]), Some((ButtonId::SwitchTexture, 11, 22)));
}

#[test]
fn ids_and_event_constructors() {
    assert_eq!(Button::new(3, 4, ButtonId::SwitchTexture).id(), ButtonId::SwitchTexture);
    assert_eq!(Label::new(3, 4, LabelId::Menu).id(), LabelId::Menu);
    let e = ChangePositionEvent::<ButtonId, LabelId>::new_button(ButtonId::SwitchViewPoint, 7, 8);
    assert_eq!(button_at(&e), Some((ButtonId::SwitchViewPoint, 7, 8)));
    let e = ChangePositionEvent::<ButtonId, LabelId>::new_label(LabelId::Fps, 1, 2);
    assert_eq!(label_at(&e), Some((LabelId::Fps, 1, 2)));
}

#[test]
fn empty_gui_gives_no_events() {
    let mut gui = Gui::<ButtonId, LabelId>::new(10, 10, vec![]);
    assert!(gui.resize(20, 30).is_empty());
    assert_eq!((gui.width, gui.height), (20, 30));
}
