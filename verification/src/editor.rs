use std::rc::Rc;

use vstd::prelude::*;

use crate::style::{EditorStyleOverrides, InputEditorStyle};

verus! {

/// The kinds of value an editor carries to the input it renders into
/// without looking inside them.
pub trait EditorParts {
    /// The handle to the editor's retained state.
    type State: Clone;
    /// A style refinement laid over the editor's own look.
    type Style: Default;
    /// An accessibility role, defaulting to the input's own.
    type Role: Default;
    /// A definite length, for the editor's height.
    type Length;
    /// Builds the context menu shown on right-click from an empty menu.
    type ContextMenuBuilder;
    /// Sees a paste payload first; `true` consumes it.
    type PasteHandler;
    /// The syntax-colour theme a host palette may bring.
    type HighlightTheme;
    /// A font family, such as the theme's monospace one.
    type FontFamily;
    /// A text size, such as the theme's monospace size.
    type TextSize;
    /// A row height, such as one in proportion to the font.
    type LineHeight;
}

/// One text setting the input receives; the input applies them in order,
/// each refining over those before it.
pub enum TextRefinement<K: EditorParts> {
    FontFamily(K::FontFamily),
    TextSize(K::TextSize),
    LineHeight(K::LineHeight),
    /// The style set on the editor itself.
    Style(K::Style),
}

/// The settings a styled code editor has been built with.
pub struct EditorSettings<K: EditorParts> {
    pub state: K::State,
    /// The style that text and layout calls on the editor refine.
    pub style: K::Style,
    pub height: Option<K::Length>,
    pub appearance: bool,
    pub bordered: bool,
    pub disabled: bool,
    pub readonly: bool,
    pub tab_index: isize,
    pub role: K::Role,
    pub aria_label: Option<String>,
    pub context_menu: Option<Rc<K::ContextMenuBuilder>>,
    pub editor_style: Option<EditorStyleOverrides<K::HighlightTheme>>,
    pub paste_handler: Option<Rc<K::PasteHandler>>,
}

/// Everything a styled code editor hands to the input it renders into.
pub struct InputConfig<K: EditorParts> {
    pub state: K::State,
    /// The text settings, applied in order, each over those before it.
    pub text_refinements: Vec<TextRefinement<K>>,
    pub height: Option<K::Length>,
    pub appearance: bool,
    pub bordered: bool,
    /// Whether the input draws a border when focused.
    pub focus_bordered: bool,
    pub disabled: bool,
    pub readonly: bool,
    pub tab_index: isize,
    pub role: K::Role,
    pub aria_label: Option<String>,
    pub context_menu: Option<Rc<K::ContextMenuBuilder>>,
    pub editor_style: Option<EditorStyleOverrides<K::HighlightTheme>>,
    pub paste_handler: Option<Rc<K::PasteHandler>>,
}

impl<K: EditorParts> InputConfig<K> {
    /// The theme's style with the host palette laid over it, if there is one.
    pub open spec fn paints_over<R>(
        self,
        theme_style: InputEditorStyle<K::HighlightTheme, R>,
    ) -> InputEditorStyle<K::HighlightTheme, R> {
        match self.editor_style {
            Some(overrides) => overrides.over(theme_style),
            None => theme_style,
        }
    }

    /// The look the input paints with, given the one the active theme
    /// supplies: the host palette laid over it where the editor has one,
    /// the theme's own otherwise.
    pub fn painted_style<R>(
        &self,
        theme_style: InputEditorStyle<K::HighlightTheme, R>,
    ) -> (painted: InputEditorStyle<K::HighlightTheme, R>)
        ensures
            painted == self.paints_over(theme_style),
    {
        let mut painted = theme_style;
        if let Some(overrides) = &self.editor_style {
            overrides.apply_to(&mut painted);
        }
        painted
    }
}

/// An editor given a host palette paints with it: over any theme style, each
/// colour the palette sets wins and every colour it leaves alone is the
/// theme's.
pub proof fn lemma_host_palette_wins_where_set<K: EditorParts, R>(
    editor: InputConfig<K>,
    overrides: EditorStyleOverrides<K::HighlightTheme>,
    theme_style: InputEditorStyle<K::HighlightTheme, R>,
)
    ensures
        (InputConfig { editor_style: Some(overrides), ..editor }).paints_over(theme_style)
            == overrides.over(theme_style),
        (InputConfig { editor_style: Some(overrides), ..editor }).paints_over(
            theme_style,
        ).fold_icon_renderer == theme_style.fold_icon_renderer,
{
}

/// An editor without a host palette, as one fresh from `Editor::new` is,
/// paints exactly with the theme's style.
pub proof fn lemma_without_palette_follows_theme<K: EditorParts, R>(
    editor: InputConfig<K>,
    theme_style: InputEditorStyle<K::HighlightTheme, R>,
)
    requires
        editor.editor_style is None,
    ensures
        editor.paints_over(theme_style) == theme_style,
{
}

/// A styled source-code editor.
pub struct Editor<K: EditorParts> {
    state: K::State,
    style: K::Style,
    height: Option<K::Length>,
    appearance: bool,
    bordered: bool,
    disabled: bool,
    readonly: bool,
    tab_index: isize,
    role: K::Role,
    aria_label: Option<String>,
    /// An optional context menu builder. If set, it overrides the built-in
    /// context menu.
    context_menu_builder: Option<Rc<K::ContextMenuBuilder>>,
    /// An optional palette that wins over the theme-derived one.
    editor_style: Option<EditorStyleOverrides<K::HighlightTheme>>,
    paste_handler: Option<Rc<K::PasteHandler>>,
}

impl<K: EditorParts> View for Editor<K> {
    type V = EditorSettings<K>;

    /// The settings this editor has been built with.
    closed spec fn view(&self) -> EditorSettings<K> {
        EditorSettings {
            state: self.state,
            style: self.style,
            height: self.height,
            appearance: self.appearance,
            bordered: self.bordered,
            disabled: self.disabled,
            readonly: self.readonly,
            tab_index: self.tab_index,
            role: self.role,
            aria_label: self.aria_label,
            context_menu: self.context_menu_builder,
            editor_style: self.editor_style,
            paste_handler: self.paste_handler,
        }
    }
}

impl<K: EditorParts> Editor<K> {
    /// An editor over `state` with the default look: appearance and border
    /// on, enabled, editable, tab index 0, the default role and style, and
    /// no height, label, context menu, palette or paste handler.
    pub fn new(state: &K::State) -> (e: Self)
        ensures
            cloned(*state, e@.state),
            K::Style::default.ensures((), e@.style),
            K::Role::default.ensures((), e@.role),
            e@.height is None,
            e@.appearance,
            e@.bordered,
            !e@.disabled,
            !e@.readonly,
            e@.tab_index == 0,
            e@.aria_label is None,
            e@.context_menu is None,
            e@.editor_style is None,
            e@.paste_handler is None,
    {
        Editor {
            state: state.clone(),
            style: K::Style::default(),
            height: None,
            appearance: true,
            bordered: true,
            disabled: false,
            readonly: false,
            tab_index: 0,
            role: K::Role::default(),
            aria_label: None,
            context_menu_builder: None,
            editor_style: None,
            paste_handler: None,
        }
    }

    /// Give the editor a fixed height.
    pub fn h(self, height: K::Length) -> (e: Self)
        ensures
            e@ == (EditorSettings { height: Some(height), ..self@ }),
    {
        let mut this = self;
        this.height = Some(height);
        this
    }

    pub fn appearance(self, appearance: bool) -> (e: Self)
        ensures
            e@ == (EditorSettings { appearance, ..self@ }),
    {
        let mut this = self;
        this.appearance = appearance;
        this
    }

    pub fn bordered(self, bordered: bool) -> (e: Self)
        ensures
            e@ == (EditorSettings { bordered, ..self@ }),
    {
        let mut this = self;
        this.bordered = bordered;
        this
    }

    pub fn disabled(self, disabled: bool) -> (e: Self)
        ensures
            e@ == (EditorSettings { disabled, ..self@ }),
    {
        let mut this = self;
        this.disabled = disabled;
        this
    }

    /// Set the editor to read-only, default is `false`.
    ///
    /// Unlike [`Self::disabled`], a read-only editor keeps the normal
    /// appearance and still can be focused, selected and copied, it only
    /// rejects the changes made by the user.
    pub fn readonly(self, readonly: bool) -> (e: Self)
        ensures
            e@ == (EditorSettings { readonly, ..self@ }),
    {
        let mut this = self;
        this.readonly = readonly;
        this
    }

    pub fn tab_index(self, index: isize) -> (e: Self)
        ensures
            e@ == (EditorSettings { tab_index: index, ..self@ }),
    {
        let mut this = self;
        this.tab_index = index;
        this
    }

    pub fn role(self, role: K::Role) -> (e: Self)
        ensures
            e@ == (EditorSettings { role, ..self@ }),
    {
        let mut this = self;
        this.role = role;
        this
    }

    pub fn aria_label(self, label: String) -> (e: Self)
        ensures
            e@ == (EditorSettings { aria_label: Some(label), ..self@ }),
    {
        let mut this = self;
        this.aria_label = Some(label);
        this
    }

    /// Replace the built-in context menu shown on right-click.
    ///
    /// The builder receives an empty menu and returns the one to show, so it
    /// decides entirely what appears: the default items are not added.
    pub fn context_menu(self, f: K::ContextMenuBuilder) -> (e: Self)
        ensures
            e@ == (EditorSettings { context_menu: Some(Rc::new(f)), ..self@ }),
    {
        let mut this = self;
        this.context_menu_builder = Some(Rc::new(f));
        this
    }

    /// Paint this editor with a palette of the caller's choosing.
    ///
    /// Only the fields set on `style` win over the active theme; the rest of
    /// the look keeps coming from it.
    pub fn editor_style(self, style: EditorStyleOverrides<K::HighlightTheme>) -> (e: Self)
        ensures
            e@ == (EditorSettings { editor_style: Some(style), ..self@ }),
    {
        let mut this = self;
        this.editor_style = Some(style);
        this
    }

    /// Intercept paste payloads (images, files) before the default text
    /// insertion: `true` consumes the paste so nothing is inserted, `false`
    /// falls through to the clipboard's text.
    pub fn on_paste(self, handler: K::PasteHandler) -> (e: Self)
        ensures
            e@ == (EditorSettings { paste_handler: Some(Rc::new(handler)), ..self@ }),
    {
        let mut this = self;
        this.paste_handler = Some(Rc::new(handler));
        this
    }

    /// The style refinement that text and layout calls on this editor
    /// refine; writing through it changes that and nothing else.
    pub fn style(&mut self) -> (style: &mut K::Style)
        ensures
            *style == old(self)@.style,
            final(self)@ == (EditorSettings { style: *final(style), ..old(self)@ }),
    {
        &mut self.style
    }

    /// Hand everything this editor was built with to its input.
    ///
    /// Source code wants a monospace font at a code size, and rows that
    /// follow that size: the input first gets `mono_font_family` and
    /// `mono_font_size` (the theme's) and `code_line_height` (rows 1.5 times
    /// the font), and only then the editor's own style, so a text style set
    /// on this editor refines over them. The flags, tab index and role go as
    /// they are, each optional part only where it was set, and no border is
    /// drawn on focus.
    pub fn render(
        self,
        mono_font_family: K::FontFamily,
        mono_font_size: K::TextSize,
        code_line_height: K::LineHeight,
    ) -> (config: InputConfig<K>)
        ensures
            config.text_refinements@ == seq![
                TextRefinement::<K>::FontFamily(mono_font_family),
                TextRefinement::<K>::TextSize(mono_font_size),
                TextRefinement::<K>::LineHeight(code_line_height),
                TextRefinement::<K>::Style(self@.style),
            ],
            config.state == self@.state,
            config.height == self@.height,
            config.appearance == self@.appearance,
            config.bordered == self@.bordered,
            !config.focus_bordered,
            config.disabled == self@.disabled,
            config.readonly == self@.readonly,
            config.tab_index == self@.tab_index,
            config.role == self@.role,
            config.aria_label == self@.aria_label,
            config.context_menu == self@.context_menu,
            config.editor_style == self@.editor_style,
            config.paste_handler == self@.paste_handler,
    {
        let mut text_refinements: Vec<TextRefinement<K>> = Vec::new();
        text_refinements.push(TextRefinement::FontFamily(mono_font_family));
        text_refinements.push(TextRefinement::TextSize(mono_font_size));
        text_refinements.push(TextRefinement::LineHeight(code_line_height));
        text_refinements.push(TextRefinement::Style(self.style));
        InputConfig {
            state: self.state,
            text_refinements,
            height: self.height,
            appearance: self.appearance,
            bordered: self.bordered,
            focus_bordered: false,
            disabled: self.disabled,
            readonly: self.readonly,
            tab_index: self.tab_index,
            role: self.role,
            aria_label: self.aria_label,
            context_menu: self.context_menu_builder,
            editor_style: self.editor_style,
            paste_handler: self.paste_handler,
        }
    }
}

} // verus!
