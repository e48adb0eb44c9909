use lumen::config::appearance::{
    AppearanceColor, BackgroundAppearanceColor, BackgroundLevel, BarMargin, BarRadius, BlurMode,
    ColorHex, CssShorthand, HexPair, RadiusSize, ShorthandError, SpaceSize, Surface,
};

#[test]
fn css_shorthand_expands_one_value_to_all_four() {
    let shorthand = CssShorthand::One(RadiusSize::Lg);
    let expanded = shorthand.expand().unwrap();
    assert_eq!(
        expanded,
        [
            RadiusSize::Lg,
            RadiusSize::Lg,
            RadiusSize::Lg,
            RadiusSize::Lg
        ]
    );
}

#[test]
fn css_shorthand_expands_two_values_symmetrically() {
    let shorthand = CssShorthand::Many(vec![SpaceSize::Sm, SpaceSize::Md]);
    let expanded = shorthand.expand().unwrap();
    assert_eq!(
        expanded,
        [SpaceSize::Sm, SpaceSize::Md, SpaceSize::Sm, SpaceSize::Md]
    );
}

#[test]
fn css_shorthand_rejects_three_values() {
    let shorthand = CssShorthand::Many(vec![SpaceSize::Sm, SpaceSize::Md, SpaceSize::Lg]);
    assert!(shorthand.expand().is_err());
}

#[test]
fn css_shorthand_lists_of_one_four_and_none() {
    assert_eq!(
        CssShorthand::Many(vec![SpaceSize::Xs]).expand().unwrap(),
        [SpaceSize::Xs; 4]
    );
    assert_eq!(
        CssShorthand::Many(vec![SpaceSize::Xs, SpaceSize::Sm, SpaceSize::Md, SpaceSize::Lg])
            .expand()
            .unwrap(),
        [SpaceSize::Xs, SpaceSize::Sm, SpaceSize::Md, SpaceSize::Lg]
    );
    assert_eq!(
        CssShorthand::<SpaceSize>::Many(vec![]).expand(),
        Err(ShorthandError { count: 0 })
    );
}

#[test]
fn radius_and_margin_follow_css_order() {
    let radius = BarRadius::from_shorthand(CssShorthand::Many(vec![RadiusSize::Sm, RadiusSize::Xl])).unwrap();
    assert_eq!(radius.top_left, RadiusSize::Sm);
    assert_eq!(radius.top_right, RadiusSize::Xl);
    assert_eq!(radius.bottom_right, RadiusSize::Sm);
    assert_eq!(radius.bottom_left, RadiusSize::Xl);
    let margin = BarMargin::from_shorthand(CssShorthand::Many(vec![
        SpaceSize::Xxs,
        SpaceSize::Xs,
        SpaceSize::Sm,
        SpaceSize::Md,
    ]))
    .unwrap();
    assert_eq!(
        (margin.top, margin.right, margin.bottom, margin.left),
        (SpaceSize::Xxs, SpaceSize::Xs, SpaceSize::Sm, SpaceSize::Md)
    );
    assert!(BarMargin::from_shorthand(CssShorthand::Many(vec![SpaceSize::Sm; 5])).is_err());
    assert_eq!(BarRadius::default().top_left, RadiusSize::Zero);
    assert_eq!(BarMargin::default().left, SpaceSize::Zero);
}

#[test]
fn blur_mode_auto_depends_on_opacity() {
    assert!(BlurMode::Auto.enabled(0.5 < 1.0));
    assert!(!BlurMode::Auto.enabled(1.0 < 1.0));
    assert!(BlurMode::Always.enabled(1.0 < 1.0));
    assert!(!BlurMode::Never.enabled(0.5 < 1.0));
}

#[test]
fn palette_entries_give_their_variants() {
    let base = ColorHex::rgb(1, 2, 3);
    let weak = ColorHex::rgb(4, 5, 6);
    let text = ColorHex::rgb(7, 8, 9);
    let simple = AppearanceColor::Simple(base);
    assert_eq!(simple.get_base(), base);
    assert_eq!(simple.get_text(), None);
    assert_eq!(simple.get_weak_pair(), None);
    let complete = AppearanceColor::Complete {
        base,
        strong: None,
        weak: Some(weak),
        text: Some(text),
    };
    assert_eq!(complete.get_base(), base);
    assert_eq!(complete.get_text(), Some(text));
    assert_eq!(complete.get_weak_pair(), Some(HexPair { color: weak, text: Some(text) }));
    assert_eq!(complete.get_strong_pair(), None);
}

#[test]
fn background_levels_pick_their_shade() {
    let bg = BackgroundAppearanceColor::Complete {
        base: ColorHex::rgb(26, 27, 38),
        weakest: None,
        weaker: None,
        weak: Some(ColorHex::rgb(36, 39, 58)),
        neutral: None,
        strong: Some(ColorHex::rgb(65, 72, 104)),
        stronger: None,
        strongest: None,
        text: None,
    };
    assert_eq!(bg.get_base(), ColorHex::rgb(26, 27, 38));
    assert_eq!(
        bg.get_pair(BackgroundLevel::Weak),
        Some(HexPair { color: ColorHex::rgb(36, 39, 58), text: None })
    );
    assert_eq!(
        bg.get_pair(BackgroundLevel::Strong).map(|p| p.color),
        Some(ColorHex::rgb(65, 72, 104))
    );
    assert_eq!(bg.get_pair(BackgroundLevel::Neutral), None);
    assert_eq!(
        BackgroundAppearanceColor::Simple(ColorHex::rgb(0, 0, 0)).get_pair(BackgroundLevel::Weak),
        None
    );
}

#[test]
fn every_surface_is_listed_once() {
    assert_eq!(
        Surface::all(),
        [Surface::Bar, Surface::Menu, Surface::Osd, Surface::Notifications]
    );
}
