use std::rc::Rc;
use std::sync::Arc;

use lib::{Editor, EditorParts, EditorStyleOverrides, Hsla, InputConfig, InputEditorStyle, TextRefinement};

/// A syntax-colour theme as a host would bring one.
#[derive(Debug, PartialEq)]
struct Theme(&'static str);

/// Stands for the component's fold icon renderer.
struct FoldIcons;

struct Parts;

impl EditorParts for Parts {
    type State = Rc<String>;
    type Style = Vec<&'static str>;
    type Role = Option<&'static str>;
    type Length = u32;
    type ContextMenuBuilder = Box<dyn Fn(Vec<String>) -> Vec<String>>;
    type PasteHandler = Box<dyn Fn(&str) -> bool>;
    type HighlightTheme = Theme;
    type FontFamily = &'static str;
    type TextSize = u32;
    type LineHeight = (u32, u32);
}

/// Renders with a monospace family and size and rows 3/2 of the font.
fn render(editor: Editor<Parts>) -> InputConfig<Parts> {
    editor.render("Menlo", 13, (3, 2))
}

fn rgb(hex: u32) -> Hsla {
    Hsla {
        h: hex >> 16,
        s: (hex >> 8) & 0xff,
        l: hex & 0xff,
        a: 0x3f80_0000,
    }
}

fn theme_style() -> InputEditorStyle<Theme, FoldIcons> {
    InputEditorStyle {
        foreground: rgb(0x111111),
        muted_foreground: rgb(0x222222),
        background: rgb(0x333333),
        border: rgb(0x444444),
        selection: rgb(0x555555),
        caret: rgb(0x666666),
        highlight_styles: Arc::new(Theme("theme")),
        editor_active_line: Some(rgb(0x777777)),
        editor_gutter_background: Some(rgb(0x888888)),
        editor_invisible: Some(rgb(0x999999)),
        fold_icon_renderer: Some(Rc::new(FoldIcons)),
    }
}

fn copy_style(s: &InputEditorStyle<Theme, FoldIcons>) -> InputEditorStyle<Theme, FoldIcons> {
    InputEditorStyle {
        foreground: s.foreground,
        muted_foreground: s.muted_foreground,
        background: s.background,
        border: s.border,
        selection: s.selection,
        caret: s.caret,
        highlight_styles: s.highlight_styles.clone(),
        editor_active_line: s.editor_active_line,
        editor_gutter_background: s.editor_gutter_background,
        editor_invisible: s.editor_invisible,
        fold_icon_renderer: s.fold_icon_renderer.clone(),
    }
}

fn same_style(a: &InputEditorStyle<Theme, FoldIcons>, b: &InputEditorStyle<Theme, FoldIcons>) -> bool {
    a.foreground == b.foreground
        && a.muted_foreground == b.muted_foreground
        && a.background == b.background
        && a.border == b.border
        && a.selection == b.selection
        && a.caret == b.caret
        && Arc::ptr_eq(&a.highlight_styles, &b.highlight_styles)
        && a.editor_active_line == b.editor_active_line
        && a.editor_gutter_background == b.editor_gutter_background
        && a.editor_invisible == b.editor_invisible
        && match (&a.fold_icon_renderer, &b.fold_icon_renderer) {
            (Some(x), Some(y)) => Rc::ptr_eq(x, y),
            (None, None) => true,
            _ => false,
        }
}

fn state() -> Rc<String> {
    Rc::new(String::from("fn main() {}"))
}

#[test]
fn a_host_palette_wins_where_it_is_set() {
    let host_background = rgb(0x0a0e14);
    let host_foreground = rgb(0x00d9ff);
    let config = Editor::<Parts>::new(&state())
        .editor_style(EditorStyleOverrides {
            background: Some(host_background),
            foreground: Some(host_foreground),
            ..Default::default()
        })
        .render("Menlo", 13, (3, 2));
    let theme = theme_style();
    let theme_border = theme.border;
    let style = config.painted_style(theme);

    assert_eq!(style.background, host_background);
    assert_eq!(style.foreground, host_foreground);
    // Fields the host left alone keep the theme's values.
    assert_eq!(style.border, theme_border);
}

#[test]
fn without_a_host_palette_the_editor_follows_the_theme() {
    let config = render(Editor::<Parts>::new(&state()));
    let theme = theme_style();
    let (background, foreground, gutter) = (
        theme.background,
        theme.foreground,
        theme.editor_gutter_background,
    );
    let style = config.painted_style(theme);

    assert_eq!(style.background, background);
    assert_eq!(style.foreground, foreground);
    assert_eq!(style.editor_gutter_background, gutter);
}

#[test]
fn an_overlay_touches_only_the_fields_it_sets() {
    let mut painted = theme_style();
    let before = copy_style(&painted);

    let host_background = rgb(0x0a0e14);
    EditorStyleOverrides::<Theme> {
        background: Some(host_background),
        ..Default::default()
    }
    .apply_to(&mut painted);

    assert_eq!(painted.background, host_background);
    assert_eq!(painted.foreground, before.foreground);
    assert_eq!(painted.muted_foreground, before.muted_foreground);
    assert_eq!(painted.border, before.border);
    assert_eq!(painted.selection, before.selection);
    assert_eq!(painted.caret, before.caret);
    assert_eq!(painted.editor_active_line, before.editor_active_line);
    assert_eq!(painted.editor_gutter_background, before.editor_gutter_background);
    assert_eq!(painted.editor_invisible, before.editor_invisible);
    // The component's own parts survive a host palette untouched.
    let (painted_fold, before_fold) = (
        painted.fold_icon_renderer.as_ref(),
        before.fold_icon_renderer.as_ref(),
    );
    assert!(matches!((painted_fold, before_fold), (Some(a), Some(b)) if Rc::ptr_eq(a, b)));
}

#[test]
fn a_host_highlight_theme_replaces_the_theme_one() {
    let host_theme = Arc::new(Theme("default dark"));
    let mut painted = theme_style();
    EditorStyleOverrides {
        highlight_styles: Some(host_theme.clone()),
        ..Default::default()
    }
    .apply_to(&mut painted);

    assert!(Arc::ptr_eq(&painted.highlight_styles, &host_theme));
}

#[test]
fn test_on_paste_builder() {
    let state = state();
    assert!(render(Editor::<Parts>::new(&state)).paste_handler.is_none());
    let editor = Editor::<Parts>::new(&state).on_paste(Box::new(|_| true));
    let config = editor.render("Menlo", 13, (3, 2));
    assert!(config.paste_handler.is_some());
    assert!((config.paste_handler.unwrap())("image"));
}

#[test]
fn a_new_editor_has_the_default_look() {
    let state = state();
    let config = render(Editor::<Parts>::new(&state));
    assert_eq!(*config.state, *state);
    assert!(matches!(
        config.text_refinements.last(),
        Some(TextRefinement::Style(style)) if style.is_empty()
    ));
    assert!(config.height.is_none());
    assert!(config.appearance);
    assert!(config.bordered);
    assert!(!config.focus_bordered);
    assert!(!config.disabled);
    assert!(!config.readonly);
    assert_eq!(config.tab_index, 0);
    assert_eq!(config.role, None);
    assert!(config.aria_label.is_none());
    assert!(config.context_menu.is_none());
    assert!(config.editor_style.is_none());
    assert!(config.paste_handler.is_none());
}

#[test]
fn each_setting_reaches_the_input_and_touches_nothing_else() {
    let config = Editor::<Parts>::new(&state())
        .h(240)
        .appearance(false)
        .bordered(false)
        .disabled(true)
        .readonly(true)
        .tab_index(-1)
        .role(Some("textbox"))
        .aria_label(String::from("Source"))
        .render("Menlo", 13, (3, 2));
    assert_eq!(config.height, Some(240));
    assert!(!config.appearance);
    assert!(!config.bordered);
    assert!(!config.focus_bordered);
    assert!(config.disabled);
    assert!(config.readonly);
    assert_eq!(config.tab_index, -1);
    assert_eq!(config.role, Some("textbox"));
    assert_eq!(config.aria_label.as_deref(), Some("Source"));
    assert!(config.context_menu.is_none());
    assert!(config.editor_style.is_none());
    assert!(config.paste_handler.is_none());
}

#[test]
fn the_last_setting_of_a_field_wins() {
    let config = Editor::<Parts>::new(&state())
        .readonly(true)
        .disabled(true)
        .readonly(false)
        .tab_index(4)
        .tab_index(9)
        .render("Menlo", 13, (3, 2));
    assert!(!config.readonly);
    assert!(config.disabled);
    assert_eq!(config.tab_index, 9);
}

#[test]
fn a_context_menu_builder_is_handed_on() {
    let config = Editor::<Parts>::new(&state())
        .context_menu(Box::new(|mut menu| {
            menu.push(String::from("Format"));
            menu
        }))
        .render("Menlo", 13, (3, 2));
    let build = config.context_menu.expect("a context menu builder");
    assert_eq!(build(Vec::new()), vec![String::from("Format")]);
}

#[test]
fn a_style_set_on_the_editor_is_refined_last() {
    let mut editor = Editor::<Parts>::new(&state()).readonly(true);
    editor.style().push("text_sm");
    editor.style().push("font_family");
    let config = editor.render("Menlo", 13, (3, 2));
    assert_eq!(config.text_refinements.len(), 4);
    assert!(matches!(
        &config.text_refinements[3],
        TextRefinement::Style(style) if *style == vec!["text_sm", "font_family"]
    ));
    assert!(config.readonly);
}

#[test]
fn the_code_font_comes_before_the_editor_style() {
    let config = Editor::<Parts>::new(&state()).render("JetBrains Mono", 14, (3, 2));
    assert_eq!(config.text_refinements.len(), 4);
    assert!(matches!(config.text_refinements[0], TextRefinement::FontFamily("JetBrains Mono")));
    assert!(matches!(config.text_refinements[1], TextRefinement::TextSize(14)));
    assert!(matches!(config.text_refinements[2], TextRefinement::LineHeight((3, 2))));
    assert!(matches!(config.text_refinements[3], TextRefinement::Style(_)));
}

#[test]
fn overrides_that_set_nothing_leave_the_style_alone() {
    let mut painted = theme_style();
    let before = copy_style(&painted);
    EditorStyleOverrides::<Theme>::default().apply_to(&mut painted);
    assert!(same_style(&painted, &before));
}

#[test]
fn laying_a_palette_twice_paints_as_once() {
    let overrides = EditorStyleOverrides {
        background: Some(rgb(0x010203)),
        caret: Some(rgb(0x040506)),
        highlight_styles: Some(Arc::new(Theme("host"))),
        editor_gutter_background: Some(rgb(0x070809)),
        ..Default::default()
    };
    let mut once = theme_style();
    overrides.apply_to(&mut once);
    let mut twice = copy_style(&once);
    overrides.apply_to(&mut twice);
    assert!(same_style(&once, &twice));
    assert_eq!(once.caret, rgb(0x040506));
    assert_eq!(once.editor_gutter_background, Some(rgb(0x070809)));
    assert_eq!(*once.highlight_styles, Theme("host"));
}

#[test]
fn palettes_on_different_fields_commute() {
    let first = EditorStyleOverrides::<Theme> {
        background: Some(rgb(0x0a0a0a)),
        editor_invisible: Some(rgb(0x0b0b0b)),
        ..Default::default()
    };
    let second = EditorStyleOverrides::<Theme> {
        foreground: Some(rgb(0x0c0c0c)),
        editor_active_line: Some(rgb(0x0d0d0d)),
        ..Default::default()
    };
    let mut one = theme_style();
    first.apply_to(&mut one);
    second.apply_to(&mut one);
    let mut other = theme_style();
    other.fold_icon_renderer = one.fold_icon_renderer.clone();
    other.highlight_styles = one.highlight_styles.clone();
    second.apply_to(&mut other);
    first.apply_to(&mut other);
    assert!(same_style(&one, &other));
    assert_eq!(one.background, rgb(0x0a0a0a));
    assert_eq!(one.foreground, rgb(0x0c0c0c));
}

#[test]
fn a_later_palette_wins_where_it_sets_a_colour() {
    let earlier = EditorStyleOverrides::<Theme> {
        background: Some(rgb(0x101010)),
        border: Some(rgb(0x202020)),
        ..Default::default()
    };
    let later = EditorStyleOverrides::<Theme> {
        background: Some(rgb(0x303030)),
        ..Default::default()
    };
    let mut painted = theme_style();
    earlier.apply_to(&mut painted);
    later.apply_to(&mut painted);
    assert_eq!(painted.background, rgb(0x303030));
    assert_eq!(painted.border, rgb(0x202020));
    assert_eq!(painted.foreground, rgb(0x111111));
}

#[test]
fn cloned_overrides_share_the_host_theme() {
    let overrides = EditorStyleOverrides {
        selection: Some(rgb(0x123456)),
        highlight_styles: Some(Arc::new(Theme("host"))),
        ..Default::default()
    };
    let copy = overrides.clone();
    assert_eq!(copy.selection, Some(rgb(0x123456)));
    assert!(Arc::ptr_eq(
        copy.highlight_styles.as_ref().unwrap(),
        overrides.highlight_styles.as_ref().unwrap()
    ));
    assert!(copy.foreground.is_none());
}
