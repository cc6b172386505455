use fancytree::color::ColorChoice;
use fancytree::tree::{Builder, Charset};

#[test]
fn builder_defaults_to_standard_charset() {
    let tree = Builder::<(), (), ()>::new(".".to_string(), ColorChoice::On).build();
    assert_eq!(tree.root, ".");
    assert_eq!(tree.max_level, None);
    assert_eq!(tree.charset, Charset::standard());
    assert_eq!(tree.charset.depth, "├── ");
    assert_eq!(tree.charset.breadth, "│\u{00A0}\u{00A0} ");
    assert_eq!(tree.charset.indent, "    ");
    assert_eq!(tree.color_choice, ColorChoice::On);
    assert!(tree.config.is_none() && tree.icons.is_none() && tree.colors.is_none());
}

#[test]
fn builder_keeps_settings() {
    let tree = Builder::<u8, u16, u32>::new("root".to_string(), ColorChoice::Off)
        .max_level(3)
        .charset(Charset::empty())
        .config(1)
        .icons(2)
        .colors(3)
        .build();
    assert_eq!(tree.max_level, Some(3));
    assert_eq!(tree.charset, Charset::empty());
    assert_eq!(tree.charset.depth, "    ");
    assert_eq!(tree.config, Some(1));
    assert_eq!(tree.icons, Some(2));
    assert_eq!(tree.colors, Some(3));
    assert_eq!(Charset::default(), Charset::standard());
}
