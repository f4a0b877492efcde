//! The form textarea widget: its properties, how it reacts to new
//! properties and to events, its style definition and its class string.
use vstd::prelude::*;
use crate::class_name::{build_class_name, join_tokens};
use crate::colors::{entry_spec, lookup};
use crate::component::Effect;
use crate::compose::{compose, compose_spec, standard_deltas, Deltas, StyleDefinition};
use crate::styles::{Palette, Size, Style, get_size, size_word};

verus! {

/// How the control wraps text.
#[derive(Clone, Copy, Debug, PartialEq, Eq, Structural)]
pub enum WrapText {
    Hard,
    Soft,
    Off,
}

pub open spec fn wrap_word(w: WrapText) -> Seq<char> {
    match w {
        WrapText::Hard => "hard"@,
        WrapText::Soft => "soft"@,
        WrapText::Off => "off"@,
    }
}

/// The value of the `wrap` attribute, each mode under its own HTML name:
/// `Soft` is "soft" and `Off` is "off", deliberately not crossed over.
pub fn get_wrap(wrap_text: WrapText) -> (r: String)
    ensures
        r@ == wrap_word(wrap_text),
{
    match wrap_text {
        WrapText::Hard => String::from_str("hard"),
        WrapText::Soft => String::from_str("soft"),
        WrapText::Off => String::from_str("off"),
    }
}

/// The plain properties of a textarea (its node reference, callbacks and
/// style override stay with the host).
#[derive(Clone, Debug)]
pub struct Props {
    pub key: String,
    pub class_name: String,
    pub id: String,
    pub placeholder: String,
    pub textarea_style: Palette,
    pub textarea_size: Size,
    pub maxlength: u32,
    pub minlength: u16,
    pub disabled: bool,
    pub name: String,
    pub readonly: bool,
    pub required: bool,
    pub autofocus: bool,
    pub autocomplete: bool,
    pub cols: u16,
    pub rows: u16,
    pub spellcheck: bool,
    pub error_state: bool,
    pub error_message: String,
    pub wrap: WrapText,
}

impl Props {
    /// Field by field equality, strings by their characters.
    pub open spec fn same(&self, o: &Props) -> bool {
        &&& self.key@ == o.key@
        &&& self.class_name@ == o.class_name@
        &&& self.id@ == o.id@
        &&& self.placeholder@ == o.placeholder@
        &&& self.textarea_style == o.textarea_style
        &&& self.textarea_size == o.textarea_size
        &&& self.maxlength == o.maxlength
        &&& self.minlength == o.minlength
        &&& self.disabled == o.disabled
        &&& self.name@ == o.name@
        &&& self.readonly == o.readonly
        &&& self.required == o.required
        &&& self.autofocus == o.autofocus
        &&& self.autocomplete == o.autocomplete
        &&& self.cols == o.cols
        &&& self.rows == o.rows
        &&& self.spellcheck == o.spellcheck
        &&& self.error_state == o.error_state
        &&& self.error_message@ == o.error_message@
        &&& self.wrap == o.wrap
    }
}

impl PartialEq for Props {
    fn eq(&self, o: &Props) -> (r: bool)
        ensures
            r == self.same(o),
    {
        self.key == o.key && self.class_name == o.class_name && self.id == o.id
            && self.placeholder == o.placeholder && self.textarea_style == o.textarea_style
            && self.textarea_size == o.textarea_size && self.maxlength == o.maxlength
            && self.minlength == o.minlength && self.disabled == o.disabled && self.name
            == o.name && self.readonly == o.readonly && self.required == o.required
            && self.autofocus == o.autofocus && self.autocomplete == o.autocomplete && self.cols
            == o.cols && self.rows == o.rows && self.spellcheck == o.spellcheck
            && self.error_state == o.error_state && self.error_message == o.error_message
            && self.wrap == o.wrap
    }
}

impl vstd::std_specs::cmp::PartialEqSpecImpl for Props {
    open spec fn obeys_eq_spec() -> bool {
        true
    }

    open spec fn eq_spec(&self, o: &Props) -> bool {
        self.same(o)
    }
}

impl Default for Props {
    /// Empty strings, a standard medium control of at most 1000
    /// characters, soft wrapping, every flag off.
    fn default() -> (r: Props)
        ensures
            r.key@.len() == 0,
            r.class_name@.len() == 0,
            r.id@.len() == 0,
            r.placeholder@.len() == 0,
            r.textarea_style == Palette::Standard,
            r.textarea_size == Size::Medium,
            r.maxlength == 1000,
            r.minlength == 0,
            !r.disabled,
            r.name@.len() == 0,
            !r.readonly,
            !r.required,
            !r.autofocus,
            !r.autocomplete,
            r.cols == 0,
            r.rows == 0,
            !r.spellcheck,
            !r.error_state,
            r.error_message@.len() == 0,
            r.wrap == WrapText::Soft,
    {
        Props {
            key: String::new(),
            class_name: String::new(),
            id: String::new(),
            placeholder: String::new(),
            textarea_style: Palette::Standard,
            textarea_size: Size::Medium,
            maxlength: 1000,
            minlength: 0,
            disabled: false,
            name: String::new(),
            readonly: false,
            required: false,
            autofocus: false,
            autocomplete: false,
            cols: 0,
            rows: 0,
            spellcheck: false,
            error_state: false,
            error_message: String::new(),
            wrap: WrapText::Soft,
        }
    }
}

/// The events a textarea handles.
#[derive(Clone, Copy, Debug, PartialEq, Eq, Structural)]
pub enum Msg {
    Input,
    Blur,
    KeyPressed,
}

/// The callbacks of a textarea; each receives its event unchanged.
#[derive(Clone, Copy, Debug, PartialEq, Eq, Structural)]
pub enum Signal {
    OnInput,
    OnBlur,
    OnKeyDown,
}

pub open spec fn signal_of(msg: Msg) -> Signal {
    match msg {
        Msg::Input => Signal::OnInput,
        Msg::Blur => Signal::OnBlur,
        Msg::KeyPressed => Signal::OnKeyDown,
    }
}

/// The style definition of a textarea with properties `p`: the outline
/// entry of its palette color, composed with the usual interaction offsets.
pub open spec fn textarea_style_spec(p: Props) -> Seq<crate::compose::RuleView> {
    compose_spec(entry_spec(Style::Outline, p.textarea_style), standard_deltas())
}

/// The class string of a textarea with properties `p`, given the class of
/// its generated style and the caller's style override class.
pub open spec fn textarea_class_spec(p: Props, style_class: Seq<char>, styles: Seq<char>) -> Seq<
    char,
> {
    join_tokens(seq![style_class, size_word(p.textarea_size), p.class_name@, styles])
}

/// A textarea and its current properties.
#[derive(Clone, Debug)]
pub struct FormTextArea {
    pub props: Props,
}

impl FormTextArea {
    pub fn create(props: Props) -> (r: FormTextArea)
        ensures
            r.props == props,
    {
        FormTextArea { props }
    }

    /// Each event asks the host to invoke its callback and to render again.
    pub fn update(&mut self, msg: Msg) -> (r: Effect<Signal>)
        ensures
            r.render,
            r.emit == Some(signal_of(msg)),
            final(self).props == old(self).props,
    {
        let s = match msg {
            Msg::Input => Signal::OnInput,
            Msg::Blur => Signal::OnBlur,
            Msg::KeyPressed => Signal::OnKeyDown,
        };
        Effect { render: true, emit: Some(s) }
    }

    /// Properties that differ replace the current ones and ask for a new
    /// render; equal ones change nothing.
    pub fn change(&mut self, props: Props) -> (r: bool)
        ensures
            r == !old(self).props.same(&props),
            r ==> final(self).props == props,
            !r ==> final(self).props == old(self).props,
    {
        if self.props != props {
            self.props = props;
            true
        } else {
            false
        }
    }

    /// The style definition of the textarea.
    pub fn style_from(&self) -> (r: StyleDefinition)
        ensures
            r@ == textarea_style_spec(self.props),
    {
        let entry = lookup(Style::Outline, self.props.textarea_style);
        compose(&entry, Deltas::standard())
    }

    /// The class string: the generated style's class, the size word, the
    /// caller's class name and the style override's class, in that order.
    pub fn class_name(&self, style_class: &str, styles: &str) -> (r: String)
        ensures
            r@ == textarea_class_spec(self.props, style_class@, styles@),
    {
        let size = get_size(self.props.textarea_size);
        let r = build_class_name(
            style_class,
            size.as_str(),
            self.props.class_name.as_str(),
            styles,
            "",
        );
        proof {
            reveal_strlit("");
            let five = seq![style_class@, size@, self.props.class_name@, styles@, ""@];
            let four = seq![style_class@, size@, self.props.class_name@, styles@];
            assert(five.drop_last() =~= four);
        }
        r
    }

    /// The error message to show under the control: the message when the
    /// error state is set, nothing otherwise.
    pub fn shown_error(&self) -> (r: Option<String>)
        ensures
            r.is_some() == self.props.error_state,
            r.is_some() ==> r.unwrap()@ == self.props.error_message@,
    {
        if self.props.error_state {
            Some(self.props.error_message.clone())
        } else {
            None
        }
    }
}

/// Rendering again with unchanged properties gives the same style
/// definition and the same class string.
pub proof fn lemma_render_stable(a: Props, b: Props, style_class: Seq<char>, styles: Seq<char>)
    requires
        a.same(&b),
    ensures
        textarea_style_spec(a) == textarea_style_spec(b),
        textarea_class_spec(a, style_class, styles) == textarea_class_spec(b, style_class, styles),
{
}

/// The style definition reads the palette color alone: any two textareas
/// that share it have the same rules, whatever their size or other
/// properties.
pub proof fn lemma_style_reads_palette_only(a: Props, b: Props)
    requires
        a.textarea_style == b.textarea_style,
    ensures
        textarea_style_spec(a) == textarea_style_spec(b),
{
}

} // verus!
