//! A small retained-mode GUI: buttons and labels, grouped in vertical layouts
//! and anchored to a corner of the window.
use vstd::prelude::*;

verus! {

/// A clickable element of a given size, identified by a caller-chosen id.
pub struct Button<ButtonId> where ButtonId: Copy {
    pub width: u32,
    pub height: u32,
    pub button_id: ButtonId,
}

impl<ButtonId> Button<ButtonId> where ButtonId: Copy {
    pub fn new(width: u32, height: u32, button_id: ButtonId) -> (r: Self)
        ensures
            r.width == width,
            r.height == height,
            r.button_id == button_id,
    {
        Self { width, height, button_id }
    }

    pub fn id(&self) -> (r: ButtonId)
        ensures
            r == self.button_id,
    {
        self.button_id
    }
}

/// A text element of a given size, identified by a caller-chosen id.
pub struct Label<LabelId> where LabelId: Copy {
    pub width: u32,
    pub height: u32,
    pub label_id: LabelId,
}

impl<LabelId> Label<LabelId> where LabelId: Copy {
    pub fn new(width: u32, height: u32, label_id: LabelId) -> (r: Self)
        ensures
            r.width == width,
            r.height == height,
            r.label_id == label_id,
    {
        Self { width, height, label_id }
    }

    pub fn id(&self) -> (r: LabelId)
        ensures
            r == self.label_id,
    {
        self.label_id
    }
}

/// Which element a layout event concerns.
pub enum ElementId<ButtonId, LabelId> {
    Button(ButtonId),
    Label(LabelId),
}

/// Tells the renderer where an element now stands, in window coordinates.
pub struct ChangePositionEvent<ButtonId, LabelId> {
    pub element_id: ElementId<ButtonId, LabelId>,
    pub x: u32,
    pub y: u32,
}

impl<ButtonId, LabelId> ChangePositionEvent<ButtonId, LabelId> {
    pub fn new_button(button_id: ButtonId, x: u32, y: u32) -> (r: Self)
        ensures
            r == (ChangePositionEvent::<ButtonId, LabelId> {
                element_id: ElementId::Button(button_id),
                x,
                y,
            }),
    {
        let element_id = ElementId::<ButtonId, LabelId>::Button(button_id);
        Self { element_id, x, y }
    }

    pub fn new_label(label_id: LabelId, x: u32, y: u32) -> (r: Self)
        ensures
            r == (ChangePositionEvent::<ButtonId, LabelId> {
                element_id: ElementId::Label(label_id),
                x,
                y,
            }),
    {
        let element_id = ElementId::<ButtonId, LabelId>::Label(label_id);
        Self { element_id, x, y }
    }
}

/// A node of the element tree.
pub enum GuiElement<ButtonId, LabelId> where LabelId: Copy, ButtonId: Copy {
    Button(Button<ButtonId>),
    Label(Label<LabelId>),
    VerticalLayout(VerticalLayout<ButtonId, LabelId>),
}

/// A group of elements that all move to the position of the group.
pub struct VerticalLayout<ButtonId, LabelId> where LabelId: Copy, ButtonId: Copy {
    pub elements: Vec<GuiElement<ButtonId, LabelId>>,
}

/// The ids of the buttons and labels under an element, in tree order.
pub open spec fn leaves<ButtonId, LabelId>(e: GuiElement<ButtonId, LabelId>) -> Seq<
    ElementId<ButtonId, LabelId>,
> where LabelId: Copy, ButtonId: Copy
    decreases e,
{
    match e {
        GuiElement::Button(b) => seq![ElementId::Button(b.button_id)],
        GuiElement::Label(l) => seq![ElementId::Label(l.label_id)],
        GuiElement::VerticalLayout(v) => leaves_of(v.elements@),
    }
}

/// The ids of the buttons and labels under a sequence of elements, in order.
pub open spec fn leaves_of<ButtonId, LabelId>(s: Seq<GuiElement<ButtonId, LabelId>>) -> Seq<
    ElementId<ButtonId, LabelId>,
> where LabelId: Copy, ButtonId: Copy
    decreases s,
{
    if s.len() == 0 {
        seq![]
    } else {
        leaves_of(s.subrange(0, s.len() - 1)) + leaves(s[s.len() - 1])
    }
}

/// One position event for each id, all at `(x, y)`.
pub open spec fn placed<ButtonId, LabelId>(
    ids: Seq<ElementId<ButtonId, LabelId>>,
    x: u32,
    y: u32,
) -> Seq<ChangePositionEvent<ButtonId, LabelId>> {
    ids.map_values(|id| ChangePositionEvent { element_id: id, x, y })
}

impl<ButtonId, LabelId> VerticalLayout<ButtonId, LabelId> where LabelId: Copy, ButtonId: Copy {
    pub fn new(elements: Vec<GuiElement<ButtonId, LabelId>>) -> (r: Self)
        ensures
            r.elements@ == elements@,
    {
        Self { elements }
    }

    /// Appends to `res` a position event at `(abs_x, abs_y)` for every
    /// button and label of the layout, nested layouts included.
    pub fn resize(
        &self,
        abs_x: u32,
        abs_y: u32,
        res: &mut Vec<ChangePositionEvent<ButtonId, LabelId>>,
    )
        ensures
            final(res)@ == old(res)@ + placed(leaves_of(self.elements@), abs_x, abs_y),
        decreases self,
    {
        let ghost start = res@;
        let mut i: usize = 0;
        while i < self.elements.len()
            invariant
                i <= self.elements@.len(),
                res@ == start + placed(leaves_of(self.elements@.subrange(0, i as int)), abs_x, abs_y),
            decreases self.elements@.len() - i,
        {
            let ghost before = res@;
            match &self.elements[i] {
                GuiElement::Button(button) => {
                    let button_id = button.id();
                    let event = ChangePositionEvent::<ButtonId, LabelId>::new_button(
                        button_id,
                        abs_x,
                        abs_y,
                    );
                    res.push(event);
                },
                GuiElement::Label(label) => {
                    let label_id = label.id();
                    let event = ChangePositionEvent::<ButtonId, LabelId>::new_label(
                        label_id,
                        abs_x,
                        abs_y,
                    );
                    res.push(event);
                },
                GuiElement::VerticalLayout(vertical_layout) => {
                    proof {
                        assert(decreases_to!(self.elements => self.elements@));
                        assert(decreases_to!(self.elements@ => self.elements@[i as int]));
                    }
                    vertical_layout.resize(abs_x, abs_y, res);
                },
            }
            proof {
                let s = self.elements@;
                assert(s.subrange(0, i + 1).subrange(0, i as int) == s.subrange(0, i as int));
                assert(s.subrange(0, i + 1)[i as int] == s[i as int]);
                lemma_placed_append(
                    leaves_of(s.subrange(0, i as int)),
                    leaves(s[i as int]),
                    abs_x,
                    abs_y,
                );
                assert(res@ == before + placed(leaves(s[i as int]), abs_x, abs_y));
            }
            i += 1;
        }
        proof {
            assert(self.elements@.subrange(0, self.elements@.len() as int) == self.elements@);
        }
    }
}

/// Placing a concatenation of ids is placing each part in turn.
pub proof fn lemma_placed_append<ButtonId, LabelId>(
    a: Seq<ElementId<ButtonId, LabelId>>,
    b: Seq<ElementId<ButtonId, LabelId>>,
    x: u32,
    y: u32,
)
    ensures
        placed(a + b, x, y) == placed(a, x, y) + placed(b, x, y),
{
    assert(placed(a + b, x, y) =~= placed(a, x, y) + placed(b, x, y));
}

/// The corner an element is anchored to.
pub enum Alignment {
    TopLeft,
    TopRight,
    BottomLeft,
    BottomRight,
}

/// An element placed at an offset from one corner of the window.
pub struct AlignedElement<ButtonId, LabelId> where LabelId: Copy, ButtonId: Copy {
    pub alignment: Alignment,
    pub x: u32,
    pub y: u32,
    pub element: GuiElement<ButtonId, LabelId>,
}

/// The window position of an element with this alignment and offset, as
/// integers: the offset is added to or taken from the window size.
pub open spec fn absolute_position(
    alignment: Alignment,
    x: u32,
    y: u32,
    width: u32,
    height: u32,
) -> (int, int) {
    match alignment {
        Alignment::TopLeft => (width + x, height + y),
        Alignment::TopRight => (width + x, height - y),
        Alignment::BottomLeft => (width - x, height + y),
        Alignment::BottomRight => (width - x, height - y),
    }
}

/// The position fits in `u32`, so it can be computed without overflow.
pub open spec fn fits_in_window(p: (int, int)) -> bool {
    0 <= p.0 <= u32::MAX && 0 <= p.1 <= u32::MAX
}

impl<ButtonId, LabelId> AlignedElement<ButtonId, LabelId> where LabelId: Copy, ButtonId: Copy {
    pub fn new(alignment: Alignment, x: u32, y: u32, element: GuiElement<ButtonId, LabelId>) -> (r:
        Self)
        ensures
            r == (AlignedElement { alignment, x, y, element }),
    {
        Self { alignment, x, y, element }
    }

    pub open spec fn position(&self, width: u32, height: u32) -> (int, int) {
        absolute_position(self.alignment, self.x, self.y, width, height)
    }

    /// The events that resizing the window to `width` x `height` gives for
    /// this element.
    pub open spec fn events(&self, width: u32, height: u32) -> Seq<
        ChangePositionEvent<ButtonId, LabelId>,
    > {
        let p = self.position(width, height);
        placed(leaves(self.element), p.0 as u32, p.1 as u32)
    }

    fn calculate_absolute_position(&self, width: u32, height: u32) -> (r: (u32, u32))
        requires
            fits_in_window(self.position(width, height)),
        ensures
            r.0 == self.position(width, height).0,
            r.1 == self.position(width, height).1,
    {
        match self.alignment {
            Alignment::TopLeft => (width + self.x, height + self.y),
            Alignment::TopRight => (width + self.x, height - self.y),
            Alignment::BottomLeft => (width - self.x, height + self.y),
            Alignment::BottomRight => (width - self.x, height - self.y),
        }
    }

    /// Appends to `res` the position events of this element for a window of
    /// `width` x `height`.
    pub fn resize(
        &self,
        width: u32,
        height: u32,
        res: &mut Vec<ChangePositionEvent<ButtonId, LabelId>>,
    )
        requires
            fits_in_window(self.position(width, height)),
        ensures
            final(res)@ == old(res)@ + self.events(width, height),
    {
        let (abs_x, abs_y) = self.calculate_absolute_position(width, height);
        match &self.element {
            GuiElement::Button(button) => {
                let button_id = button.id();
                let event = ChangePositionEvent::<ButtonId, LabelId>::new_button(
                    button_id,
                    abs_x,
                    abs_y,
                );
                res.push(event);
                assert(placed(leaves(self.element), abs_x, abs_y) =~= seq![event]);
            },
            GuiElement::Label(label) => {
                let label_id = label.id();
                let event = ChangePositionEvent::<ButtonId, LabelId>::new_label(
                    label_id,
                    abs_x,
                    abs_y,
                );
                res.push(event);
                assert(placed(leaves(self.element), abs_x, abs_y) =~= seq![event]);
            },
            GuiElement::VerticalLayout(vertical_layout) => {
                vertical_layout.resize(abs_x, abs_y, res);
            },
        }
    }
}

/// The events of a sequence of aligned elements, in order.
pub open spec fn events_of<ButtonId, LabelId>(
    s: Seq<AlignedElement<ButtonId, LabelId>>,
    width: u32,
    height: u32,
) -> Seq<ChangePositionEvent<ButtonId, LabelId>> where LabelId: Copy, ButtonId: Copy
    decreases s.len(),
{
    if s.len() == 0 {
        seq![]
    } else {
        events_of(s.subrange(0, s.len() - 1), width, height) + s[s.len() - 1].events(width, height)
    }
}

/// Every element of `s` has a position that fits in a `width` x `height` window.
pub open spec fn all_fit<ButtonId, LabelId>(
    s: Seq<AlignedElement<ButtonId, LabelId>>,
    width: u32,
    height: u32,
) -> bool where LabelId: Copy, ButtonId: Copy {
    forall|i: int| 0 <= i < s.len() ==> fits_in_window(#[trigger] s[i].position(width, height))
}

/// A pointer event, in GUI coordinates (origin at the bottom left).
pub enum MouseEvent {
    Pressed,
    Released,
    Moved { x: u32, y: u32 },
}

/// Reports that a button was pressed.
pub struct ButtonPressedEvent<ButtonId> {
    pub button_id: ButtonId,
}

/// The elements of a window, laid out anew whenever the window is resized.
pub struct Gui<ButtonId, LabelId> where LabelId: Copy, ButtonId: Copy {
    pub width: u32,
    pub height: u32,
    pub elements: Vec<AlignedElement<ButtonId, LabelId>>,
}

impl<ButtonId, LabelId> Gui<ButtonId, LabelId> where LabelId: Copy, ButtonId: Copy {
    pub fn new(width: u32, height: u32, elements: Vec<AlignedElement<ButtonId, LabelId>>) -> (r:
        Self)
        ensures
            r.width == width,
            r.height == height,
            r.elements@ == elements@,
    {
        Self { width, height, elements }
    }

    /// Records the new window size and returns a position event for every
    /// button and label, element by element in order.
    pub fn resize(&mut self, width: u32, height: u32) -> (r: Vec<
        ChangePositionEvent<ButtonId, LabelId>,
    >)
        requires
            all_fit(old(self).elements@, width, height),
        ensures
            final(self).width == width,
            final(self).height == height,
            final(self).elements@ == old(self).elements@,
            r@ == events_of(old(self).elements@, width, height),
    {
        self.width = width;
        self.height = height;
        let mut res = Vec::<ChangePositionEvent<ButtonId, LabelId>>::new();
        let mut i: usize = 0;
        while i < self.elements.len()
            invariant
                i <= self.elements@.len(),
                self.width == width,
                self.height == height,
                all_fit(self.elements@, width, height),
                res@ == events_of(self.elements@.subrange(0, i as int), width, height),
            decreases self.elements@.len() - i,
        {
            assert(fits_in_window(self.elements@[i as int].position(width, height)));
            self.elements[i].resize(self.width, self.height, &mut res);
            proof {
                let s = self.elements@;
                assert(s.subrange(0, i + 1).subrange(0, i as int) == s.subrange(0, i as int));
                assert(s.subrange(0, i + 1)[i as int] == s[i as int]);
            }
            i += 1;
        }
        assert(self.elements@.subrange(0, self.elements@.len() as int) == self.elements@);
        res
    }

    /// Offers a pointer event to the GUI. No element reacts to the pointer
    /// yet, so the event is never consumed and no button is reported.
    pub fn mouse_event(&self, mouse_event: MouseEvent) -> (r: (
        bool,
        Option<ButtonPressedEvent<ButtonId>>,
    ))
        ensures
            !r.0,
            r.1.is_none(),
    {
        (false, None)
    }
}

} // verus!
