//! The style composer: the CSS rules of a widget, derived from a palette
//! entry, a size, a style mode and the interaction offsets.
use vstd::prelude::*;
use crate::color::{Rgb, css_color, shade, shade_spec};
use crate::colors::{PaletteEntry, HOVER_DELTA, FOCUS_DELTA, ACTIVE_DELTA};

verus! {

/// One CSS property and its value.
#[derive(Clone, Debug)]
pub struct Declaration {
    pub property: String,
    pub value: String,
}

/// A selector suffix (empty for the element itself) and its declarations.
#[derive(Clone, Debug)]
pub struct Rule {
    pub selector: String,
    pub declarations: Vec<Declaration>,
}

/// The ordered rules of a widget.
#[derive(Clone, Debug)]
pub struct StyleDefinition {
    pub rules: Vec<Rule>,
}

pub type DeclView = (Seq<char>, Seq<char>);

pub type RuleView = (Seq<char>, Seq<DeclView>);

impl View for Declaration {
    type V = DeclView;

    open spec fn view(&self) -> DeclView {
        (self.property@, self.value@)
    }
}

pub open spec fn decls_view(ds: Seq<Declaration>) -> Seq<DeclView> {
    ds.map_values(|d: Declaration| d@)
}

impl View for Rule {
    type V = RuleView;

    open spec fn view(&self) -> RuleView {
        (self.selector@, decls_view(self.declarations@))
    }
}

pub open spec fn rules_view(rs: Seq<Rule>) -> Seq<RuleView> {
    rs.map_values(|r: Rule| r@)
}

impl View for StyleDefinition {
    type V = Seq<RuleView>;

    open spec fn view(&self) -> Seq<RuleView> {
        rules_view(self.rules@)
    }
}

/// The signed percent offsets that shade the border color of the hover,
/// focus and active states.
#[derive(Clone, Copy, Debug, PartialEq, Eq, Structural)]
pub struct Deltas {
    pub hover: i32,
    pub focus: i32,
    pub active: i32,
}

/// The usual offsets: hover -20, focus -10, active -30.
pub open spec fn standard_deltas() -> Deltas {
    Deltas { hover: HOVER_DELTA, focus: FOCUS_DELTA, active: ACTIVE_DELTA }
}

impl Deltas {
    /// The usual offsets: hover -20, focus -10, active -30.
    pub fn standard() -> (r: Deltas)
        ensures
            r.hover == -20,
            r.focus == -10,
            r.active == -30,
            r == standard_deltas(),
    {
        Deltas { hover: HOVER_DELTA, focus: FOCUS_DELTA, active: ACTIVE_DELTA }
    }
}

/// The rule of the element itself: a 100px high, full-width box with a
/// 1px border in the entry's border color (the size classes resize it).
pub open spec fn base_rule(entry: PaletteEntry) -> RuleView {
    (
        ""@,
        seq![
            ("padding"@, "5px"@),
            ("height"@, "100px"@),
            ("box-sizing"@, "border-box"@),
            ("border-radius"@, "5px"@),
            ("width"@, "100%"@),
            ("border"@, "1px solid "@ + css_color(entry.border_color)),
        ],
    )
}

/// The `.underline` variant: only a 2px bottom border in the entry's border
/// color.
pub open spec fn underline_rule(entry: PaletteEntry) -> RuleView {
    (
        ".underline"@,
        seq![
            ("border-radius"@, "2px"@),
            ("border-top"@, "0"@),
            ("border-left"@, "0"@),
            ("border-right"@, "0"@),
            ("border-bottom"@, "2px solid "@ + css_color(entry.border_color)),
        ],
    )
}

pub open spec fn color_rule_spec(selector: Seq<char>, property: Seq<char>, c: Rgb) -> RuleView {
    (selector, seq![(property, css_color(c))])
}

/// The rules, in order: the element itself; the `.hidden`, size and
/// `.underline` modifiers; the placeholder pseudo-states; then hover, focus
/// and active, first of the border, then of the underline, each with the
/// entry's border color shaded by the matching offset.
pub open spec fn compose_spec(entry: PaletteEntry, deltas: Deltas) -> Seq<RuleView> {
    let hover = shade_spec(entry.border_color, deltas.hover as int);
    let focus = shade_spec(entry.border_color, deltas.focus as int);
    let active = shade_spec(entry.border_color, deltas.active as int);
    seq![
        base_rule(entry),
        (".hidden"@, seq![("display"@, "none"@)]),
        (".small"@, seq![("height"@, "50px"@)]),
        (".big"@, seq![("height"@, "250px"@)]),
        underline_rule(entry),
        color_rule_spec("::-webkit-input-placeholder"@, "color"@, entry.color),
        color_rule_spec(":-moz-placeholder"@, "color"@, entry.color),
        color_rule_spec("::-moz-placeholder"@, "color"@, entry.color),
        color_rule_spec(":-ms-input-placeholder"@, "color"@, entry.color),
        color_rule_spec(":hover"@, "border-color"@, hover),
        color_rule_spec(":focus"@, "border-color"@, focus),
        color_rule_spec(":active"@, "border-color"@, active),
        color_rule_spec(".underline:hover"@, "border-bottom-color"@, hover),
        color_rule_spec(".underline:focus"@, "border-bottom-color"@, focus),
        color_rule_spec(".underline:active"@, "border-bottom-color"@, active),
    ]
}

fn decl(property: &str, value: String) -> (d: Declaration)
    ensures
        d@ == (property@, value@),
{
    Declaration { property: String::from_str(property), value }
}

fn single_rule(selector: &str, property: &str, value: String) -> (r: Rule)
    ensures
        r@ == (selector@, seq![(property@, value@)]),
{
    let d = decl(property, value);
    let r = Rule { selector: String::from_str(selector), declarations: vec![d] };
    assert(decls_view(r.declarations@) =~= seq![(property@, value@)]);
    r
}

fn color_rule(selector: &str, property: &str, c: Rgb) -> (r: Rule)
    ensures
        r@ == color_rule_spec(selector@, property@, c),
{
    single_rule(selector, property, c.to_css())
}

fn make_base_rule(entry: &PaletteEntry) -> (r: Rule)
    ensures
        r@ == base_rule(*entry),
{
    let border = String::from_str("1px solid ").concat(entry.border_color.to_css().as_str());
    let ds = vec![
        decl("padding", String::from_str("5px")),
        decl("height", String::from_str("100px")),
        decl("box-sizing", String::from_str("border-box")),
        decl("border-radius", String::from_str("5px")),
        decl("width", String::from_str("100%")),
        decl("border", border),
    ];
    let r = Rule { selector: String::from_str(""), declarations: ds };
    assert(decls_view(r.declarations@) =~= base_rule(*entry).1);
    r
}

fn make_underline_rule(entry: &PaletteEntry) -> (r: Rule)
    ensures
        r@ == underline_rule(*entry),
{
    let bottom = String::from_str("2px solid ").concat(entry.border_color.to_css().as_str());
    let ds = vec![
        decl("border-radius", String::from_str("2px")),
        decl("border-top", String::from_str("0")),
        decl("border-left", String::from_str("0")),
        decl("border-right", String::from_str("0")),
        decl("border-bottom", bottom),
    ];
    let r = Rule { selector: String::from_str(".underline"), declarations: ds };
    assert(decls_view(r.declarations@) =~= underline_rule(*entry).1);
    r
}

/// The style definition of a widget from its palette entry. The rules cover
/// every size and variant at once; the widget's classes pick among them.
/// The hover, focus and active rules (of the border and of the underline)
/// carry the entry's border color shaded by the matching offset.
pub fn compose(entry: &PaletteEntry, deltas: Deltas) -> (r: StyleDefinition)
    ensures
        r@ == compose_spec(*entry, deltas),
{
    let hover = shade(entry.border_color, deltas.hover);
    let focus = shade(entry.border_color, deltas.focus);
    let active = shade(entry.border_color, deltas.active);
    let rules = vec![
        make_base_rule(entry),
        single_rule(".hidden", "display", String::from_str("none")),
        single_rule(".small", "height", String::from_str("50px")),
        single_rule(".big", "height", String::from_str("250px")),
        make_underline_rule(entry),
        color_rule("::-webkit-input-placeholder", "color", entry.color),
        color_rule(":-moz-placeholder", "color", entry.color),
        color_rule("::-moz-placeholder", "color", entry.color),
        color_rule(":-ms-input-placeholder", "color", entry.color),
        color_rule(":hover", "border-color", hover),
        color_rule(":focus", "border-color", focus),
        color_rule(":active", "border-color", active),
        color_rule(".underline:hover", "border-bottom-color", hover),
        color_rule(".underline:focus", "border-bottom-color", focus),
        color_rule(".underline:active", "border-bottom-color", active),
    ];
    let r = StyleDefinition { rules };
    assert(r@ =~= compose_spec(*entry, deltas));
    r
}

/// The CSS text of one declaration: `property: value; `.
pub open spec fn decl_text(d: DeclView) -> Seq<char> {
    d.0 + ": "@ + d.1 + "; "@
}

pub open spec fn decls_text(ds: Seq<DeclView>) -> Seq<char>
    decreases ds.len(),
{
    if ds.len() == 0 {
        Seq::empty()
    } else {
        decls_text(ds.drop_last()) + decl_text(ds.last())
    }
}

/// The CSS text of one rule: the declarations of the element itself stand
/// bare, those of a selector suffix in a nested block `&suffix { ... } `.
pub open spec fn rule_text(r: RuleView) -> Seq<char> {
    if r.0.len() == 0 {
        decls_text(r.1)
    } else {
        "&"@ + r.0 + " { "@ + decls_text(r.1) + "} "@
    }
}

/// The CSS text of a style definition: its rules' texts, in order.
pub open spec fn css_text(rs: Seq<RuleView>) -> Seq<char>
    decreases rs.len(),
{
    if rs.len() == 0 {
        Seq::empty()
    } else {
        css_text(rs.drop_last()) + rule_text(rs.last())
    }
}

fn push_decls(out: &mut String, ds: &Vec<Declaration>)
    ensures
        final(out)@ == old(out)@ + decls_text(decls_view(ds@)),
{
    let ghost start = out@;
    let mut i: usize = 0;
    while i < ds.len()
        invariant
            i <= ds@.len(),
            out@ == start + decls_text(decls_view(ds@.take(i as int))),
        decreases ds@.len() - i,
    {
        let d = &ds[i];
        out.append(d.property.as_str());
        out.append(": ");
        out.append(d.value.as_str());
        out.append("; ");
        proof {
            let next = decls_view(ds@.take(i + 1));
            assert(next.drop_last() =~= decls_view(ds@.take(i as int)));
            assert(next.last() == d@);
            assert(out@ =~= start + decls_text(next));
        }
        i = i + 1;
    }
    assert(ds@.take(ds@.len() as int) =~= ds@);
}

fn push_rule(out: &mut String, r: &Rule)
    ensures
        final(out)@ == old(out)@ + rule_text(r@),
{
    if r.selector.as_str().is_empty() {
        push_decls(out, &r.declarations);
    } else {
        let ghost start = out@;
        out.append("&");
        out.append(r.selector.as_str());
        out.append(" { ");
        push_decls(out, &r.declarations);
        out.append("} ");
        assert(out@ =~= start + rule_text(r@));
    }
}

impl StyleDefinition {
    /// The definition as CSS text, its rules in order.
    pub fn to_css(&self) -> (r: String)
        ensures
            r@ == css_text(self@),
    {
        let mut out = String::new();
        let mut i: usize = 0;
        while i < self.rules.len()
            invariant
                i <= self.rules@.len(),
                out@ == css_text(rules_view(self.rules@.take(i as int))),
            decreases self.rules@.len() - i,
        {
            push_rule(&mut out, &self.rules[i]);
            proof {
                let next = rules_view(self.rules@.take(i + 1));
                assert(next.drop_last() =~= rules_view(self.rules@.take(i as int)));
            }
            i = i + 1;
        }
        assert(self.rules@.take(self.rules@.len() as int) =~= self.rules@);
        out
    }
}

/// Composing twice from the same entry and offsets gives the
/// same rules and the same CSS text.
pub proof fn lemma_compose_deterministic(
    entry: PaletteEntry,
    deltas: Deltas,
    first: StyleDefinition,
    second: StyleDefinition,
)
    requires
        first@ == compose_spec(entry, deltas),
        second@ == compose_spec(entry, deltas),
    ensures
        first@ == second@,
        css_text(first@) == css_text(second@),
{
}

} // verus!
