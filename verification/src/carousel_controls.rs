//! The previous and next controls of a carousel. They keep no state of
//! their own: a click on either is handed on to the parent unchanged.

use crate::component::reconfigure;
use crate::styles::{
    get_palette, get_size, get_style, palette_class, push_class, size_class, style_class, with_class,
    Palette, Size, Style,
};
use vstd::prelude::*;
use vstd::std_specs::cmp::PartialEqSpecImpl;
use vstd::string::StringExecFns;

verus! {

/// Configuration of the controls.
#[derive(Debug)]
pub struct Props {
    /// Style of the controls. Default `Style::Regular`.
    pub controls_style: Style,
    /// Palette of the controls. Default `Palette::Standard`.
    pub controls_palette: Palette,
    /// One of the three standard sizes. Default `Size::Medium`.
    pub controls_size: Size,
    /// Key of the controls among their siblings. Default empty.
    pub key: String,
    /// Custom classes. Default empty.
    pub class_name: String,
    /// Custom identifier. Default empty.
    pub id: String,
}

/// Mathematical content of [`Props`].
pub struct PropsView {
    pub controls_style: Style,
    pub controls_palette: Palette,
    pub controls_size: Size,
    pub key: Seq<char>,
    pub class_name: Seq<char>,
    pub id: Seq<char>,
}

impl View for Props {
    type V = PropsView;

    open spec fn view(&self) -> PropsView {
        PropsView {
            controls_style: self.controls_style,
            controls_palette: self.controls_palette,
            controls_size: self.controls_size,
            key: self.key@,
            class_name: self.class_name@,
            id: self.id@,
        }
    }
}

impl Default for Props {
    fn default() -> (props: Props)
        ensures
            props@ == (PropsView {
                controls_style: Style::Regular,
                controls_palette: Palette::Standard,
                controls_size: Size::Medium,
                key: Seq::<char>::empty(),
                class_name: Seq::<char>::empty(),
                id: Seq::<char>::empty(),
            }),
    {
        Props {
            controls_style: Style::Regular,
            controls_palette: Palette::Standard,
            controls_size: Size::Medium,
            key: String::new(),
            class_name: String::new(),
            id: String::new(),
        }
    }
}

impl Clone for Props {
    fn clone(&self) -> (copy: Props)
        ensures
            copy@ == self@,
    {
        Props {
            controls_style: self.controls_style,
            controls_palette: self.controls_palette,
            controls_size: self.controls_size,
            key: self.key.clone(),
            class_name: self.class_name.clone(),
            id: self.id.clone(),
        }
    }
}

impl PartialEq for Props {
    fn eq(&self, other: &Props) -> (equal: bool) {
        self.controls_style == other.controls_style && self.controls_palette
            == other.controls_palette && self.controls_size == other.controls_size && self.key
            == other.key && self.class_name == other.class_name && self.id == other.id
    }
}

impl PartialEqSpecImpl for Props {
    open spec fn obeys_eq_spec() -> bool {
        true
    }

    open spec fn eq_spec(&self, other: &Props) -> bool {
        self@ == other@
    }
}

/// The clicks the controls receive, each with the event that reported it.
#[derive(Debug)]
pub enum Msg<E> {
    PrevClicked(E),
    NextClicked(E),
}

/// A click on its way to the parent: the handler it is meant for, and the
/// event as it was received.
#[derive(Debug, PartialEq, Eq)]
pub enum Signal<E> {
    Prev(E),
    Next(E),
}

/// The signal that hands `msg` on to the parent.
pub open spec fn forward<E>(msg: Msg<E>) -> Signal<E> {
    match msg {
        Msg::PrevClicked(event) => Signal::Prev(event),
        Msg::NextClicked(event) => Signal::Next(event),
    }
}

/// Message for a click on the control that goes back, reported by `event`.
pub fn prev_clicked<E>(event: E) -> (msg: Msg<E>)
    ensures
        msg == Msg::PrevClicked(event),
{
    Msg::PrevClicked(event)
}

/// Message for a click on the control that goes on, reported by `event`.
pub fn next_clicked<E>(event: E) -> (msg: Msg<E>)
    ensures
        msg == Msg::NextClicked(event),
{
    Msg::NextClicked(event)
}

/// The class line of one control: `base`, then the size, the style, the
/// palette and the custom classes of `config`, each after a space.
pub open spec fn class_line(base: Seq<char>, config: PropsView) -> Seq<char> {
    with_class(
        with_class(
            with_class(
                with_class(base, size_class(config.controls_size)),
                style_class(config.controls_style),
            ),
            palette_class(config.controls_palette),
        ),
        config.class_name,
    )
}

/// What the controls show.
#[derive(Debug, PartialEq, Eq)]
pub struct ControlsView {
    /// Key of the controls among their siblings.
    pub key: String,
    /// Class line of the control that goes back.
    pub left_class: String,
    /// Class line of the control that goes on.
    pub right_class: String,
}

/// `shown` is what controls configured by `config` show: the key as
/// configured, and the class line of either control.
pub open spec fn renders(config: PropsView, shown: ControlsView) -> bool {
    &&& shown.key@ == config.key
    &&& shown.left_class@ == class_line("carousel-control-left"@, config)
    &&& shown.right_class@ == class_line("carousel-control-right"@, config)
}

/// The controls of a carousel.
#[derive(Debug)]
pub struct CarouselControls {
    props: Props,
}

impl CarouselControls {
    /// The configuration the controls hold.
    pub closed spec fn config(&self) -> PropsView {
        self.props@
    }

    /// Controls configured by `props`.
    pub fn create(props: Props) -> (controls: CarouselControls)
        ensures
            controls.config() == props@,
    {
        CarouselControls { props }
    }

    /// The configuration the controls hold.
    pub fn props(&self) -> (props: &Props)
        ensures
            props@ == self.config(),
    {
        &self.props
    }

    /// Hands a click on: the result names the parent's handler that is to
    /// receive the event, with the event unchanged, and asks for a
    /// re-render. The controls stay as they are.
    pub fn update<E>(&mut self, msg: Msg<E>) -> (outcome: (bool, Signal<E>))
        ensures
            final(self).config() == old(self).config(),
            outcome.0,
            outcome.1 == forward(msg),
    {
        match msg {
            Msg::PrevClicked(mouse_event) => (true, Signal::Prev(mouse_event)),
            Msg::NextClicked(mouse_event) => (true, Signal::Next(mouse_event)),
        }
    }

    /// Takes a new configuration from the parent: when it differs from the
    /// one held, the controls adopt it and ask for a re-render; when it is
    /// equal, they keep what they have and ask for none.
    pub fn change(&mut self, props: Props) -> (rerender: bool)
        ensures
            (final(self).config(), rerender) == reconfigure(old(self).config(), props@),
    {
        if self.props != props {
            self.props = props;
            return true;
        }
        false
    }

    /// Derives what the controls show from their configuration, which it
    /// leaves as it is.
    pub fn view(&self) -> (shown: ControlsView)
        ensures
            renders(self.config(), shown),
    {
        ControlsView {
            key: self.props.key.clone(),
            left_class: self.class_for("carousel-control-left"),
            right_class: self.class_for("carousel-control-right"),
        }
    }

    fn class_for(&self, base: &str) -> (line: String)
        ensures
            line@ == class_line(base@, self.props@),
    {
        let mut line = String::from_str(base);
        push_class(&mut line, get_size(self.props.controls_size).as_str());
        push_class(&mut line, get_style(self.props.controls_style).as_str());
        push_class(&mut line, get_palette(self.props.controls_palette).as_str());
        push_class(&mut line, self.props.class_name.as_str());
        line
    }
}

/// A new configuration that differs from the held one in any field is
/// adopted with a re-render.
pub proof fn lemma_differing_field_rerenders(old: PropsView, new: PropsView)
    requires
        old.controls_style != new.controls_style || old.controls_palette != new.controls_palette
            || old.controls_size != new.controls_size || old.key != new.key || old.class_name
            != new.class_name || old.id != new.id,
    ensures
        reconfigure(old, new) == (new, true),
{
}

/// Style derivation has no hidden input: whatever controls with equal
/// configurations show, at any time and however often they are asked, is
/// the same text.
pub proof fn lemma_derivation_is_pure(
    a: PropsView,
    b: PropsView,
    shown_a: ControlsView,
    shown_b: ControlsView,
)
    requires
        a == b,
        renders(a, shown_a),
        renders(b, shown_b),
    ensures
        shown_a.key@ == shown_b.key@,
        shown_a.left_class@ == shown_b.left_class@,
        shown_a.right_class@ == shown_b.right_class@,
{
}

} // verus!
