//! The button widget: its properties, its class string and its reaction to
//! a click.
use vstd::prelude::*;
use crate::class_name::{build_class_name, join_tokens};
use crate::component::Effect;
use crate::styles::{
    Palette, Style, get_palette, get_style, palette_word, size_word, style_word,
};
pub use crate::styles::{Size, get_size};

verus! {

/// The properties a caller gives a button.
#[derive(Clone, Debug)]
pub struct Props {
    /// The palette color of the button.
    pub button_type: Palette,
    /// The caller's own class name, appended last.
    pub class_name: String,
    pub size: Size,
    pub button_style: Style,
}

impl Default for Props {
    /// A standard, regular, medium button with no class name of its own.
    fn default() -> (r: Props)
        ensures
            r.button_type == Palette::Standard,
            r.class_name@ == Seq::<char>::empty(),
            r.size == Size::Medium,
            r.button_style == Style::Regular,
    {
        Props {
            button_type: Palette::Standard,
            class_name: String::new(),
            size: Size::Medium,
            button_style: Style::Regular,
        }
    }
}

/// The messages a button handles.
#[derive(Clone, Copy, Debug, PartialEq, Eq, Structural)]
pub enum Msg {
    Clicked,
}

/// The callbacks of a button.
#[derive(Clone, Copy, Debug, PartialEq, Eq, Structural)]
pub enum Signal {
    /// The click callback, invoked with no payload.
    OnSignal,
}

/// The properties resolved to their class-name words.
#[derive(Clone, Debug)]
pub struct ButtonProps {
    pub button_type: String,
    pub size: String,
    pub button_style: String,
    pub class_name: String,
}

impl ButtonProps {
    /// The words are those of `props`.
    pub open spec fn resolves(&self, props: Props) -> bool {
        &&& self.button_type@ == palette_word(props.button_type)
        &&& self.size@ == size_word(props.size)
        &&& self.button_style@ == style_word(props.button_style)
        &&& self.class_name@ == props.class_name@
    }

    pub fn from(props: Props) -> (r: ButtonProps)
        ensures
            r.resolves(props),
    {
        ButtonProps {
            button_type: get_palette(props.button_type),
            size: get_size(props.size),
            button_style: get_style(props.button_style),
            class_name: props.class_name,
        }
    }
}

/// The class string of a button with properties `props`.
pub open spec fn button_class(props: Props) -> Seq<char> {
    join_tokens(
        seq![
            "button"@,
            palette_word(props.button_type),
            size_word(props.size),
            style_word(props.button_style),
            props.class_name@,
        ],
    )
}

/// A button: its current properties, resolved.
#[derive(Clone, Debug)]
pub struct Button {
    pub props: ButtonProps,
}

impl Button {
    pub fn create(props: Props) -> (r: Button)
        ensures
            r.props.resolves(props),
    {
        Button { props: ButtonProps::from(props) }
    }

    /// A click asks the host to invoke the click callback once, with no
    /// payload, and not to render again.
    pub fn update(&mut self, msg: Msg) -> (r: Effect<Signal>)
        ensures
            r.render == false,
            r.emit == Some(Signal::OnSignal),
            final(self).props == old(self).props,
    {
        match msg {
            Msg::Clicked => Effect { render: false, emit: Some(Signal::OnSignal) },
        }
    }

    /// New properties replace the old ones and the button renders again.
    pub fn change(&mut self, props: Props) -> (r: bool)
        ensures
            r,
            final(self).props.resolves(props),
    {
        self.props = ButtonProps::from(props);
        true
    }

    /// The class string: `button`, the palette, size and style words and
    /// the caller's class name, joined by single spaces, empty ones left out.
    pub fn class_name(&self) -> (r: String)
        ensures
            r@ == join_tokens(
                seq![
                    "button"@,
                    self.props.button_type@,
                    self.props.size@,
                    self.props.button_style@,
                    self.props.class_name@,
                ],
            ),
            forall|p: Props| self.props.resolves(p) ==> r@ == button_class(p),
    {
        build_class_name(
            "button",
            self.props.button_type.as_str(),
            self.props.size.as_str(),
            self.props.button_style.as_str(),
            self.props.class_name.as_str(),
        )
    }
}

/// Rendering a button again with unchanged properties gives the same class
/// string: the resolved words, and so the class string, are a function of
/// the properties' values.
pub proof fn lemma_button_render_stable(p: Props, q: Props, a: ButtonProps, b: ButtonProps)
    requires
        p.button_type == q.button_type,
        p.size == q.size,
        p.button_style == q.button_style,
        p.class_name@ == q.class_name@,
        a.resolves(p),
        b.resolves(q),
    ensures
        button_class(p) == button_class(q),
        a.button_type@ == b.button_type@,
        a.size@ == b.size@,
        a.button_style@ == b.button_style@,
        a.class_name@ == b.class_name@,
{
}

} // verus!
