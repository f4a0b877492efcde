use yew_styles::class_name::build_class_name;
use yew_styles::color::{shade, Rgb};
use yew_styles::colors::lookup;
use yew_styles::compose::{compose, Deltas};
use yew_styles::styles::{get_palette, get_size, get_style, Palette, Size, Style};

const STANDARD: Rgb = Rgb { r: 145, g: 141, b: 148 };

#[test]
fn shade_zero_is_identity() {
    assert_eq!(shade(STANDARD, 0), STANDARD);
    let c = Rgb { r: 1, g: 128, b: 254 };
    assert_eq!(shade(c, 0), c);
}

#[test]
fn shade_clamps_to_black_and_white() {
    let black = Rgb { r: 0, g: 0, b: 0 };
    let white = Rgb { r: 255, g: 255, b: 255 };
    assert_eq!(shade(STANDARD, -100), black);
    assert_eq!(shade(STANDARD, 100), white);
    assert_eq!(shade(STANDARD, -250), black);
    assert_eq!(shade(STANDARD, 250), white);
    assert_eq!(shade(white, -100), black);
    assert_eq!(shade(black, 100), white);
}

#[test]
fn shade_darkens_and_lightens_by_share() {
    assert_eq!(shade(STANDARD, -10), Rgb { r: 130, g: 126, b: 133 });
    assert_eq!(shade(STANDARD, 40), Rgb { r: 189, g: 186, b: 190 });
}

#[test]
fn color_renders_as_hex() {
    assert_eq!(STANDARD.to_css(), "#918d94");
    assert_eq!(Rgb { r: 10, g: 171, b: 255 }.to_css(), "#0aabff");
    assert_eq!(Rgb { r: 0, g: 0, b: 0 }.to_css(), "#000000");
}

#[test]
fn token_words() {
    assert_eq!(get_palette(Palette::Standard), "standard");
    assert_eq!(get_palette(Palette::Secondary), "secondary");
    assert_eq!(get_style(Style::Outline), "outline");
    assert_eq!(get_size(Size::Small), "small");
    assert_eq!(get_size(Size::Medium), "medium");
    assert_eq!(get_size(Size::Big), "big");
}

#[test]
fn lookup_outline_standard() {
    let e = lookup(Style::Outline, Palette::Standard);
    assert_eq!(e.name, Palette::Standard);
    assert_eq!(e.color, STANDARD);
    assert_eq!(e.border_color, STANDARD);
    assert_eq!(e.hover_color, Rgb { r: 116, g: 112, b: 118 });
    assert_eq!(e.focus_color, Rgb { r: 130, g: 126, b: 133 });
    assert_eq!(e.active_color, Rgb { r: 101, g: 98, b: 103 });
}

#[test]
fn lookup_covers_every_pair() {
    let modes = [Style::Regular, Style::Light, Style::Outline];
    let palettes = [
        Palette::Standard,
        Palette::Info,
        Palette::Success,
        Palette::Warning,
        Palette::Danger,
        Palette::Light,
        Palette::Dark,
        Palette::Clean,
        Palette::Secondary,
    ];
    for m in modes {
        for p in palettes {
            let e = lookup(m, p);
            assert_eq!(e.name, p);
            assert_eq!(e.hover_color, shade(e.border_color, -20));
            assert_eq!(e.focus_color, shade(e.border_color, -10));
            assert_eq!(e.active_color, shade(e.border_color, -30));
            for c in [e.color, e.border_color, e.hover_color, e.focus_color, e.active_color] {
                assert_eq!(c.to_css().len(), 7);
            }
        }
    }
    assert_eq!(lookup(Style::Regular, Palette::Standard).border_color, Rgb { r: 130, g: 126, b: 133 });
    assert_eq!(lookup(Style::Light, Palette::Standard).color, Rgb { r: 189, g: 186, b: 190 });
}

#[test]
fn class_name_order_and_empty_fields() {
    assert_eq!(
        build_class_name("button", "standard", "medium", "regular", "my-class"),
        "button standard medium regular my-class"
    );
    assert_eq!(
        build_class_name("button", "standard", "medium", "regular", ""),
        "button standard medium regular"
    );
    assert_eq!(build_class_name("", "info", "", "light", ""), "info light");
    assert_eq!(build_class_name("", "", "", "", ""), "");
}

#[test]
fn class_name_is_repeatable() {
    let a = build_class_name("button", "danger", "big", "outline", "x");
    let b = build_class_name("button", "danger", "big", "outline", "x");
    assert_eq!(a, b);
}

#[test]
fn deltas_standard_values() {
    let d = Deltas::standard();
    assert_eq!((d.hover, d.focus, d.active), (-20, -10, -30));
}

#[test]
fn compose_rules_in_order() {
    let e = lookup(Style::Outline, Palette::Standard);
    let s = compose(&e, Deltas::standard());
    let selectors: Vec<&str> = s.rules.iter().map(|r| r.selector.as_str()).collect();
    assert_eq!(
        selectors,
        vec![
            "",
            ".hidden",
            ".small",
            ".big",
            ".underline",
            "::-webkit-input-placeholder",
            ":-moz-placeholder",
            "::-moz-placeholder",
            ":-ms-input-placeholder",
            ":hover",
            ":focus",
            ":active",
            ".underline:hover",
            ".underline:focus",
            ".underline:active",
        ]
    );
    let base = &s.rules[0].declarations;
    assert_eq!(base.len(), 6);
    assert_eq!(base[1].property, "height");
    assert_eq!(base[1].value, "100px");
    assert_eq!(base[5].value, "1px solid #918d94");
    assert_eq!(s.rules[1].declarations[0].value, "none");
    assert_eq!(s.rules[2].declarations[0].value, "50px");
    assert_eq!(s.rules[3].declarations[0].value, "250px");
    let underline = &s.rules[4].declarations;
    assert_eq!(underline[0].value, "2px");
    assert_eq!(underline[4].property, "border-bottom");
    assert_eq!(underline[4].value, "2px solid #918d94");
    assert_eq!(s.rules[5].declarations[0].value, "#918d94");
    assert_eq!(s.rules[9].declarations[0].property, "border-color");
    assert_eq!(s.rules[9].declarations[0].value, "#747076");
    assert_eq!(s.rules[10].declarations[0].value, "#827e85");
    assert_eq!(s.rules[11].declarations[0].value, "#656267");
    assert_eq!(s.rules[12].declarations[0].property, "border-bottom-color");
    assert_eq!(s.rules[12].declarations[0].value, "#747076");
    assert_eq!(s.rules[13].declarations[0].value, "#827e85");
    assert_eq!(s.rules[14].declarations[0].value, "#656267");
}

#[test]
fn compose_other_offsets() {
    let e = lookup(Style::Regular, Palette::Standard);
    let s = compose(&e, Deltas { hover: 0, focus: -100, active: 100 });
    let base = &s.rules[0].declarations;
    assert_eq!(base[1].value, "100px");
    assert_eq!(base[5].value, "1px solid #827e85");
    assert_eq!(s.rules[9].declarations[0].value, "#827e85");
    assert_eq!(s.rules[10].declarations[0].value, "#000000");
    assert_eq!(s.rules[11].declarations[0].value, "#ffffff");
    assert_eq!(s.rules[14].declarations[0].value, "#ffffff");
}

#[test]
fn compose_is_deterministic() {
    let e = lookup(Style::Light, Palette::Info);
    let a = compose(&e, Deltas::standard()).to_css();
    let b = compose(&e, Deltas::standard()).to_css();
    assert_eq!(a, b);
}

#[test]
fn css_text_layout() {
    let e = lookup(Style::Outline, Palette::Standard);
    let css = compose(&e, Deltas::standard()).to_css();
    assert!(css.starts_with(
        "padding: 5px; height: 100px; box-sizing: border-box; border-radius: 5px; width: 100%; \
         border: 1px solid #918d94; &.hidden { display: none; } &.small { height: 50px; } "
    ));
    assert!(css.ends_with("&.underline:active { border-bottom-color: #656267; } "));
    assert!(css.contains("&:hover { border-color: #747076; } "));
}
