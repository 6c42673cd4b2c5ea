//! The widget gallery: the demonstration payload's display state, the widget
//! interactions that mutate it, and the declarative widget tree the UI pass
//! declares from it every frame.

use vstd::prelude::*;

verus! {

/// The three-way selection offered by the radio group, the selectable-label
/// group and the combo box; compared structurally, never by ordinal.
#[derive(PartialEq, Eq, Structural, Clone, Copy, Debug)]
pub enum Enum {
    First,
    Second,
    Third,
}

/// An RGBA color held as plain premultiplied-alpha bytes; the display layer
/// converts it to and from its own color type.
#[derive(PartialEq, Eq, Structural, Clone, Copy, Debug)]
pub struct Color {
    pub r: u8,
    pub g: u8,
    pub b: u8,
    pub a: u8,
}

/// Upper bound of the slider's declared range, in degrees; the drag control
/// shares it, and the progress fraction's denominator is fixed to it.
pub const SCALAR_MAX: u32 = 360;

/// One widget interaction reported by the display layer during a frame's UI
/// pass.
#[derive(Debug)]
pub enum GalleryEvent {
    /// The button was clicked; it toggles the boolean field.
    ButtonClicked,
    /// The link was clicked; it toggles the same boolean field.
    LinkClicked,
    /// The checkbox was clicked; it too toggles the boolean field it shows.
    CheckboxToggled,
    /// One of the three radio buttons was selected.
    RadioSelected(Enum),
    /// One of the three selectable labels was selected.
    SelectableSelected(Enum),
    /// One of the three combo-box entries was selected.
    ComboSelected(Enum),
    /// The slider or the drag control set the scalar; values above the
    /// declared range are clamped to its upper bound.
    ScalarSet(u32),
    /// The text field's content changed.
    StringEdited(String),
    /// The color picker chose a color.
    ColorPicked(Color),
    /// Whether the pointer hovers the progress bar; the animation flag is
    /// true exactly while it does.
    ProgressHovered(bool),
}

/// One row of the widget tree the gallery declares each frame, carrying the
/// display state it renders from.
#[derive(Debug)]
pub enum WidgetDecl {
    Label,
    Hyperlink,
    TextEdit { text: String },
    Button,
    Link,
    Checkbox { checked: bool },
    RadioGroup { selected: Enum },
    SelectableGroup { selected: Enum },
    ComboBox { selected: Enum },
    Slider { value: u32 },
    DragValue { value: u32 },
    ProgressBar { numerator: u32, denominator: u32, animate: bool },
    ColorPicker { color: Color },
    Separator,
    CollapsingSpinner,
}

/// Shows off one instance of each supported widget kind; plain display state
/// with no invariant beyond the scalar's declared range.
#[derive(Debug)]
pub struct WidgetGallery {
    pub boolean: bool,
    pub radio: Enum,
    pub scalar: u32,
    pub string: String,
    pub color: Color,
    pub animate_progress_bar: bool,
    pub open: bool,
}

impl WidgetGallery {
    /// The scalar stays within the slider's declared range.
    pub open spec fn wf(&self) -> bool {
        self.scalar <= SCALAR_MAX
    }
}

/// The startup state: nothing selected beyond the first option, the scalar
/// partway along its range, an empty text field, a translucent light blue,
/// and the gallery window open.
pub open spec fn is_initial(g: WidgetGallery) -> bool {
    &&& g.boolean == false
    &&& g.radio == Enum::First
    &&& g.scalar == 42
    &&& g.string@ == Seq::<char>::empty()
    &&& g.color == (Color { r: 126, g: 158, b: 169, a: 128 })
    &&& g.animate_progress_bar == false
    &&& g.open == true
}

/// The state after one widget interaction.
pub open spec fn apply_event_spec(g: WidgetGallery, e: GalleryEvent) -> WidgetGallery {
    match e {
        GalleryEvent::ButtonClicked => WidgetGallery { boolean: !g.boolean, ..g },
        GalleryEvent::LinkClicked => WidgetGallery { boolean: !g.boolean, ..g },
        GalleryEvent::CheckboxToggled => WidgetGallery { boolean: !g.boolean, ..g },
        GalleryEvent::RadioSelected(c) => WidgetGallery { radio: c, ..g },
        GalleryEvent::SelectableSelected(c) => WidgetGallery { radio: c, ..g },
        GalleryEvent::ComboSelected(c) => WidgetGallery { radio: c, ..g },
        GalleryEvent::ScalarSet(v) => WidgetGallery {
            scalar: if v > SCALAR_MAX { SCALAR_MAX } else { v },
            ..g
        },
        GalleryEvent::StringEdited(s) => WidgetGallery { string: s, ..g },
        GalleryEvent::ColorPicked(c) => WidgetGallery { color: c, ..g },
        GalleryEvent::ProgressHovered(h) => WidgetGallery { animate_progress_bar: h, ..g },
    }
}

/// The state after a frame's widget interactions, applied in order.
pub open spec fn apply_events_spec(g: WidgetGallery, evs: Seq<GalleryEvent>) -> WidgetGallery
    decreases evs.len(),
{
    if evs.len() == 0 {
        g
    } else {
        apply_event_spec(apply_events_spec(g, evs.drop_last()), evs.last())
    }
}

/// The state after one frame of the gallery window: while the window-open
/// flag is cleared nothing changes; otherwise the frame's interactions apply
/// and the window's close control may clear the flag.
pub open spec fn show_spec(g: WidgetGallery, close_clicked: bool, evs: Seq<GalleryEvent>) -> WidgetGallery {
    if !g.open {
        g
    } else {
        WidgetGallery { open: !close_clicked, ..apply_events_spec(g, evs) }
    }
}

/// The progress bar's fraction as a numerator over a fixed denominator: the
/// scalar over the slider range's upper bound.
pub open spec fn progress_spec(g: WidgetGallery) -> (u32, u32) {
    (g.scalar, SCALAR_MAX)
}

/// The widget tree the gallery declares from its state: one row per
/// supported widget kind, in a fixed order.
pub open spec fn describe_spec(g: WidgetGallery) -> Seq<WidgetDecl> {
    seq![
        WidgetDecl::Label,
        WidgetDecl::Hyperlink,
        WidgetDecl::TextEdit { text: g.string },
        WidgetDecl::Button,
        WidgetDecl::Link,
        WidgetDecl::Checkbox { checked: g.boolean },
        WidgetDecl::RadioGroup { selected: g.radio },
        WidgetDecl::SelectableGroup { selected: g.radio },
        WidgetDecl::ComboBox { selected: g.radio },
        WidgetDecl::Slider { value: g.scalar },
        WidgetDecl::DragValue { value: g.scalar },
        WidgetDecl::ProgressBar {
            numerator: progress_spec(g).0,
            denominator: progress_spec(g).1,
            animate: g.animate_progress_bar,
        },
        WidgetDecl::ColorPicker { color: g.color },
        WidgetDecl::Separator,
        WidgetDecl::CollapsingSpinner,
    ]
}

impl Default for WidgetGallery {
    /// The startup state of the gallery.
    fn default() -> (r: Self)
        ensures
            is_initial(r),
            r.wf(),
    {
        WidgetGallery {
            boolean: false,
            radio: Enum::First,
            scalar: 42,
            string: String::new(),
            color: Color { r: 126, g: 158, b: 169, a: 128 },
            animate_progress_bar: false,
            open: true,
        }
    }
}

impl WidgetGallery {
    /// Applies one widget interaction to the display state.
    pub fn apply_event(&mut self, event: &GalleryEvent)
        ensures
            *final(self) == apply_event_spec(*old(self), *event),
    {
        match event {
            GalleryEvent::ButtonClicked => {
                self.boolean = !self.boolean;
            },
            GalleryEvent::LinkClicked => {
                self.boolean = !self.boolean;
            },
            GalleryEvent::CheckboxToggled => {
                self.boolean = !self.boolean;
            },
            GalleryEvent::RadioSelected(c) => {
                self.radio = *c;
            },
            GalleryEvent::SelectableSelected(c) => {
                self.radio = *c;
            },
            GalleryEvent::ComboSelected(c) => {
                self.radio = *c;
            },
            GalleryEvent::ScalarSet(v) => {
                self.scalar = if *v > SCALAR_MAX {
                    SCALAR_MAX
                } else {
                    *v
                };
            },
            GalleryEvent::StringEdited(s) => {
                self.string = s.clone();
            },
            GalleryEvent::ColorPicked(c) => {
                self.color = *c;
            },
            GalleryEvent::ProgressHovered(h) => {
                self.animate_progress_bar = *h;
            },
        }
    }

    /// One UI pass over the gallery: applies the frame's widget interactions
    /// in order, then declares the widget tree for the resulting state.
    pub fn ui(&mut self, events: &Vec<GalleryEvent>) -> (decls: Vec<WidgetDecl>)
        ensures
            *final(self) == apply_events_spec(*old(self), events@),
            decls@ == describe_spec(*final(self)),
    {
        let mut i: usize = 0;
        while i < events.len()
            invariant
                i <= events@.len(),
                *self == apply_events_spec(*old(self), events@.take(i as int)),
            decreases events@.len() - i,
        {
            self.apply_event(&events[i]);
            proof {
                assert(events@.take(i as int + 1).drop_last() =~= events@.take(i as int));
                assert(events@.take(i as int + 1).last() == events@[i as int]);
            }
            i = i + 1;
        }
        proof {
            assert(events@.take(events@.len() as int) =~= events@);
        }
        let mut decls: Vec<WidgetDecl> = Vec::new();
        decls.push(WidgetDecl::Label);
        decls.push(WidgetDecl::Hyperlink);
        decls.push(WidgetDecl::TextEdit { text: self.string.clone() });
        decls.push(WidgetDecl::Button);
        decls.push(WidgetDecl::Link);
        decls.push(WidgetDecl::Checkbox { checked: self.boolean });
        decls.push(WidgetDecl::RadioGroup { selected: self.radio });
        decls.push(WidgetDecl::SelectableGroup { selected: self.radio });
        decls.push(WidgetDecl::ComboBox { selected: self.radio });
        decls.push(WidgetDecl::Slider { value: self.scalar });
        decls.push(WidgetDecl::DragValue { value: self.scalar });
        let fraction = self.progress_fraction();
        decls.push(
            WidgetDecl::ProgressBar {
                numerator: fraction.0,
                denominator: fraction.1,
                animate: self.animate_progress_bar,
            },
        );
        decls.push(WidgetDecl::ColorPicker { color: self.color });
        decls.push(WidgetDecl::Separator);
        decls.push(WidgetDecl::CollapsingSpinner);
        proof {
            assert(decls@ =~= describe_spec(*self));
        }
        decls
    }

    /// Runs the gallery window for one frame. While the window-open flag is
    /// cleared nothing is declared and nothing changes; otherwise the UI
    /// pass runs, and the window's close control clears the flag for the
    /// frames that follow.
    pub fn show(&mut self, close_clicked: bool, events: &Vec<GalleryEvent>) -> (decls: Option<
        Vec<WidgetDecl>,
    >)
        ensures
            *final(self) == show_spec(*old(self), close_clicked, events@),
            match decls {
                Some(d) => old(self).open && d@ == describe_spec(
                    apply_events_spec(*old(self), events@),
                ),
                None => !old(self).open,
            },
    {
        if !self.open {
            return None;
        }
        proof {
            lemma_events_preserve_open(*self, events@);
        }
        let decls = self.ui(events);
        if close_clicked {
            self.open = false;
        }
        Some(decls)
    }

    /// The progress bar's fraction, as a numerator over a fixed denominator.
    pub fn progress_fraction(&self) -> (r: (u32, u32))
        ensures
            r == progress_spec(*self),
            self.wf() ==> r.0 <= r.1,
    {
        (self.scalar, SCALAR_MAX)
    }
}

/// `selected` is exactly `choice`: that option's state is set and the other
/// two are not.
pub open spec fn exclusively_selected(selected: Enum, choice: Enum) -> bool {
    &&& (selected == Enum::First <==> choice == Enum::First)
    &&& (selected == Enum::Second <==> choice == Enum::Second)
    &&& (selected == Enum::Third <==> choice == Enum::Third)
}

/// Selecting any of the three options — through the radio group, the
/// selectable labels or the combo box — makes exactly that option selected
/// and the other two not, whatever was selected before.
pub proof fn lemma_radio_mutual_exclusion(g: WidgetGallery, choice: Enum)
    ensures
        exclusively_selected(apply_event_spec(g, GalleryEvent::RadioSelected(choice)).radio, choice),
        exclusively_selected(
            apply_event_spec(g, GalleryEvent::SelectableSelected(choice)).radio,
            choice,
        ),
        exclusively_selected(apply_event_spec(g, GalleryEvent::ComboSelected(choice)).radio, choice),
{
}

/// The progress bar's fraction equals the slider value over the range's
/// upper bound for every value in the declared range; the boundary values
/// give the empty and the full fraction.
pub proof fn lemma_progress_fraction(g: WidgetGallery)
    requires
        g.wf(),
    ensures
        progress_spec(g).0 == g.scalar,
        progress_spec(g).1 == SCALAR_MAX,
        progress_spec(g).0 <= progress_spec(g).1,
        g.scalar == 0 ==> progress_spec(g).0 == 0,
        g.scalar == SCALAR_MAX ==> progress_spec(g).0 == progress_spec(g).1,
{
}

/// Moving the slider upward never decreases the progress fraction: the
/// denominator is fixed, so the fraction is ordered as the numerator.
pub proof fn lemma_progress_monotone(a: WidgetGallery, b: WidgetGallery)
    requires
        a.scalar <= b.scalar,
    ensures
        progress_spec(a).1 == progress_spec(b).1,
        progress_spec(a).0 <= progress_spec(b).0,
{
}

/// Widget interactions never touch the window-open flag; only the window's
/// own close control does.
pub proof fn lemma_events_preserve_open(g: WidgetGallery, evs: Seq<GalleryEvent>)
    ensures
        apply_events_spec(g, evs).open == g.open,
    decreases evs.len(),
{
    if evs.len() > 0 {
        lemma_events_preserve_open(g, evs.drop_last());
    }
}

/// No widget interaction takes the scalar out of its declared range.
pub proof fn lemma_events_preserve_wf(g: WidgetGallery, evs: Seq<GalleryEvent>)
    requires
        g.wf(),
    ensures
        apply_events_spec(g, evs).wf(),
    decreases evs.len(),
{
    if evs.len() > 0 {
        lemma_events_preserve_wf(g, evs.drop_last());
    }
}

} // verus!
