use std::rc::Rc;
use std::sync::Arc;

use vstd::prelude::*;

use crate::color::Hsla;

verus! {

/// The look an input paints with: surface colours, syntax colours and the
/// parts the component supplies itself.
///
/// `H` is the syntax-colour theme, shared behind an `Arc`; `R` is the fold
/// icon renderer, one of the component-owned parts that a host palette never
/// touches.
pub struct InputEditorStyle<H, R> {
    /// Glyph colour for ordinary text.
    pub foreground: Hsla,
    /// Glyph colour for secondary text.
    pub muted_foreground: Hsla,
    /// The editable surface behind the text.
    pub background: Hsla,
    /// Borders drawn around the editing surface.
    pub border: Hsla,
    /// Highlight behind selected text.
    pub selection: Hsla,
    /// The caret.
    pub caret: Hsla,
    /// Syntax colours.
    pub highlight_styles: Arc<H>,
    /// Fill behind the line the caret sits on.
    pub editor_active_line: Option<Hsla>,
    /// Fill behind the line-number gutter.
    pub editor_gutter_background: Option<Hsla>,
    /// Colour for invisible characters.
    pub editor_invisible: Option<Hsla>,
    /// Draws the folding marks in the gutter.
    pub fold_icon_renderer: Option<Rc<R>>,
}

/// Colours an application projects onto a code editor, winning over the ones
/// the active theme would supply.
///
/// Every field is optional and only the ones that are set take effect. The
/// rest of the palette (fold icons, the caret when it is left unset) keeps
/// coming from the theme, so overriding a palette does not mean
/// reimplementing the control.
pub struct EditorStyleOverrides<H> {
    /// Glyph colour for ordinary text.
    pub foreground: Option<Hsla>,
    /// Glyph colour for secondary text: line numbers, folding marks, hints.
    pub muted_foreground: Option<Hsla>,
    /// The editable surface behind the text.
    pub background: Option<Hsla>,
    /// Borders drawn around the editing surface.
    pub border: Option<Hsla>,
    /// Highlight behind selected text.
    pub selection: Option<Hsla>,
    /// The caret. Defaults to the theme's caret, not to `foreground`.
    pub caret: Option<Hsla>,
    /// Syntax colours, so that tokens and background agree.
    pub highlight_styles: Option<Arc<H>>,
    /// Fill behind the line the caret sits on.
    pub editor_active_line: Option<Hsla>,
    /// Fill behind the line-number gutter. Set this whenever `background`
    /// differs from the theme's.
    pub editor_gutter_background: Option<Hsla>,
    /// Colour for invisible characters.
    pub editor_invisible: Option<Hsla>,
}

/// A colour where one is set, the one already there where not.
pub open spec fn colour_over(set: Option<Hsla>, current: Hsla) -> Hsla {
    match set {
        Some(c) => c,
        None => current,
    }
}

/// An optional colour where one is set, the one already there where not.
pub open spec fn optional_colour_over(set: Option<Hsla>, current: Option<Hsla>) -> Option<Hsla> {
    match set {
        Some(c) => Some(c),
        None => current,
    }
}

impl<H> EditorStyleOverrides<H> {
    /// No field is set.
    pub open spec fn sets_nothing(self) -> bool {
        &&& self.foreground is None
        &&& self.muted_foreground is None
        &&& self.background is None
        &&& self.border is None
        &&& self.selection is None
        &&& self.caret is None
        &&& self.highlight_styles is None
        &&& self.editor_active_line is None
        &&& self.editor_gutter_background is None
        &&& self.editor_invisible is None
    }

    /// No field is set in both `self` and `other`.
    pub open spec fn disjoint_from(self, other: Self) -> bool {
        &&& (self.foreground is None || other.foreground is None)
        &&& (self.muted_foreground is None || other.muted_foreground is None)
        &&& (self.background is None || other.background is None)
        &&& (self.border is None || other.border is None)
        &&& (self.selection is None || other.selection is None)
        &&& (self.caret is None || other.caret is None)
        &&& (self.highlight_styles is None || other.highlight_styles is None)
        &&& (self.editor_active_line is None || other.editor_active_line is None)
        &&& (self.editor_gutter_background is None || other.editor_gutter_background is None)
        &&& (self.editor_invisible is None || other.editor_invisible is None)
    }

    /// The overrides that set what `later` sets and, where `later` sets
    /// nothing, what `self` sets.
    pub open spec fn followed_by(self, later: Self) -> Self {
        EditorStyleOverrides {
            foreground: optional_colour_over(later.foreground, self.foreground),
            muted_foreground: optional_colour_over(later.muted_foreground, self.muted_foreground),
            background: optional_colour_over(later.background, self.background),
            border: optional_colour_over(later.border, self.border),
            selection: optional_colour_over(later.selection, self.selection),
            caret: optional_colour_over(later.caret, self.caret),
            highlight_styles: match later.highlight_styles {
                Some(theme) => Some(theme),
                None => self.highlight_styles,
            },
            editor_active_line: optional_colour_over(
                later.editor_active_line,
                self.editor_active_line,
            ),
            editor_gutter_background: optional_colour_over(
                later.editor_gutter_background,
                self.editor_gutter_background,
            ),
            editor_invisible: optional_colour_over(later.editor_invisible, self.editor_invisible),
        }
    }

    /// `style` with every field these overrides set replaced by the set
    /// value, and every other field as it was.
    pub open spec fn over<R>(self, style: InputEditorStyle<H, R>) -> InputEditorStyle<H, R> {
        InputEditorStyle {
            foreground: colour_over(self.foreground, style.foreground),
            muted_foreground: colour_over(self.muted_foreground, style.muted_foreground),
            background: colour_over(self.background, style.background),
            border: colour_over(self.border, style.border),
            selection: colour_over(self.selection, style.selection),
            caret: colour_over(self.caret, style.caret),
            highlight_styles: match self.highlight_styles {
                Some(theme) => theme,
                None => style.highlight_styles,
            },
            editor_active_line: optional_colour_over(
                self.editor_active_line,
                style.editor_active_line,
            ),
            editor_gutter_background: optional_colour_over(
                self.editor_gutter_background,
                style.editor_gutter_background,
            ),
            editor_invisible: optional_colour_over(self.editor_invisible, style.editor_invisible),
            fold_icon_renderer: style.fold_icon_renderer,
        }
    }

    /// Project only the fields that were set onto `style`.
    ///
    /// Everything left unset keeps the value `style` already carries, which
    /// is how the component-supplied parts of the look (the fold icon
    /// renderer) survive an application palette.
    pub fn apply_to<R>(&self, style: &mut InputEditorStyle<H, R>)
        ensures
            *final(style) == self.over(*old(style)),
            self.foreground matches Some(c) ==> final(style).foreground == c,
            self.foreground is None ==> final(style).foreground == old(style).foreground,
            self.muted_foreground matches Some(c) ==> final(style).muted_foreground == c,
            self.muted_foreground is None ==> final(style).muted_foreground == old(style).muted_foreground,
            self.background matches Some(c) ==> final(style).background == c,
            self.background is None ==> final(style).background == old(style).background,
            self.border matches Some(c) ==> final(style).border == c,
            self.border is None ==> final(style).border == old(style).border,
            self.selection matches Some(c) ==> final(style).selection == c,
            self.selection is None ==> final(style).selection == old(style).selection,
            self.caret matches Some(c) ==> final(style).caret == c,
            self.caret is None ==> final(style).caret == old(style).caret,
            self.highlight_styles matches Some(theme) ==> final(style).highlight_styles == theme,
            self.highlight_styles is None ==> final(style).highlight_styles == old(style).highlight_styles,
            self.editor_active_line matches Some(c) ==> final(style).editor_active_line == Some(c),
            self.editor_active_line is None ==> final(style).editor_active_line == old(style).editor_active_line,
            self.editor_gutter_background matches Some(c) ==> final(style).editor_gutter_background == Some(c),
            self.editor_gutter_background is None ==> final(style).editor_gutter_background == old(style).editor_gutter_background,
            self.editor_invisible matches Some(c) ==> final(style).editor_invisible == Some(c),
            self.editor_invisible is None ==> final(style).editor_invisible == old(style).editor_invisible,
            final(style).fold_icon_renderer == old(style).fold_icon_renderer,
    {
        if let Some(value) = self.foreground {
            style.foreground = value;
        }
        if let Some(value) = self.muted_foreground {
            style.muted_foreground = value;
        }
        if let Some(value) = self.background {
            style.background = value;
        }
        if let Some(value) = self.border {
            style.border = value;
        }
        if let Some(value) = self.selection {
            style.selection = value;
        }
        if let Some(value) = self.caret {
            style.caret = value;
        }
        if let Some(highlight_styles) = &self.highlight_styles {
            style.highlight_styles = share_arc(highlight_styles);
        }
        if let Some(active_line) = self.editor_active_line {
            style.editor_active_line = Some(active_line);
        }
        if let Some(gutter) = self.editor_gutter_background {
            style.editor_gutter_background = Some(gutter);
        }
        if let Some(invisible) = self.editor_invisible {
            style.editor_invisible = Some(invisible);
        }
    }
}

impl<H> Clone for EditorStyleOverrides<H> {
    /// The same overrides, sharing the host's syntax theme.
    fn clone(&self) -> (c: Self)
        ensures
            c == *self,
    {
        EditorStyleOverrides {
            foreground: self.foreground,
            muted_foreground: self.muted_foreground,
            background: self.background,
            border: self.border,
            selection: self.selection,
            caret: self.caret,
            highlight_styles: match &self.highlight_styles {
                Some(theme) => Some(share_arc(theme)),
                None => None,
            },
            editor_active_line: self.editor_active_line,
            editor_gutter_background: self.editor_gutter_background,
            editor_invisible: self.editor_invisible,
        }
    }
}

impl<H> Default for EditorStyleOverrides<H> {
    /// Overrides that set nothing: the theme's palette stands as it is.
    fn default() -> (o: Self)
        ensures
            o.sets_nothing(),
    {
        EditorStyleOverrides {
            foreground: None,
            muted_foreground: None,
            background: None,
            border: None,
            selection: None,
            caret: None,
            highlight_styles: None,
            editor_active_line: None,
            editor_gutter_background: None,
            editor_invisible: None,
        }
    }
}

/// Each field of the style an overlay paints is decided by the same-named
/// field alone: a colour the overrides set is the painted colour, a field
/// they leave unset keeps the value the style had, and the component's own
/// parts are never touched.
pub proof fn lemma_overlay_field_by_field<H, R>(
    overrides: EditorStyleOverrides<H>,
    style: InputEditorStyle<H, R>,
)
    ensures
        overrides.foreground matches Some(c) ==> overrides.over(style).foreground == c,
        overrides.foreground is None ==> overrides.over(style).foreground == style.foreground,
        overrides.muted_foreground matches Some(c) ==> overrides.over(style).muted_foreground == c,
        overrides.muted_foreground is None ==> overrides.over(style).muted_foreground == style.muted_foreground,
        overrides.background matches Some(c) ==> overrides.over(style).background == c,
        overrides.background is None ==> overrides.over(style).background == style.background,
        overrides.border matches Some(c) ==> overrides.over(style).border == c,
        overrides.border is None ==> overrides.over(style).border == style.border,
        overrides.selection matches Some(c) ==> overrides.over(style).selection == c,
        overrides.selection is None ==> overrides.over(style).selection == style.selection,
        overrides.caret matches Some(c) ==> overrides.over(style).caret == c,
        overrides.caret is None ==> overrides.over(style).caret == style.caret,
        overrides.highlight_styles matches Some(theme) ==> overrides.over(style).highlight_styles == theme,
        overrides.highlight_styles is None ==> overrides.over(style).highlight_styles == style.highlight_styles,
        overrides.editor_active_line matches Some(c) ==> overrides.over(style).editor_active_line == Some(c),
        overrides.editor_active_line is None ==> overrides.over(style).editor_active_line == style.editor_active_line,
        overrides.editor_gutter_background matches Some(c) ==> overrides.over(style).editor_gutter_background == Some(c),
        overrides.editor_gutter_background is None ==> overrides.over(style).editor_gutter_background == style.editor_gutter_background,
        overrides.editor_invisible matches Some(c) ==> overrides.over(style).editor_invisible == Some(c),
        overrides.editor_invisible is None ==> overrides.over(style).editor_invisible == style.editor_invisible,
        overrides.over(style).fold_icon_renderer == style.fold_icon_renderer,
{
}

/// Overrides that set nothing leave a style exactly as it was: a host that
/// supplies no colour gets the theme's palette.
pub proof fn lemma_unset_overrides_change_nothing<H, R>(
    overrides: EditorStyleOverrides<H>,
    style: InputEditorStyle<H, R>,
)
    requires
        overrides.sets_nothing(),
    ensures
        overrides.over(style) == style,
{
}

/// Laying the same overrides over a style a second time changes nothing
/// more: the painted style depends on what is set, not on how often it was
/// applied.
pub proof fn lemma_overlay_is_idempotent<H, R>(
    overrides: EditorStyleOverrides<H>,
    style: InputEditorStyle<H, R>,
)
    ensures
        overrides.over(overrides.over(style)) == overrides.over(style),
{
}

/// Two overrides that set no field in common may be laid over a style in
/// either order with the same result: each touches only the fields it sets.
pub proof fn lemma_disjoint_overlays_commute<H, R>(
    first: EditorStyleOverrides<H>,
    second: EditorStyleOverrides<H>,
    style: InputEditorStyle<H, R>,
)
    requires
        first.disjoint_from(second),
    ensures
        second.over(first.over(style)) == first.over(second.over(style)),
{
}

/// Laying one overlay and then another paints the same as laying once the
/// overrides in which the later one wins wherever it sets a field and the
/// earlier one stands wherever the later sets nothing.
pub proof fn lemma_overlays_compose<H, R>(
    earlier: EditorStyleOverrides<H>,
    later: EditorStyleOverrides<H>,
    style: InputEditorStyle<H, R>,
)
    ensures
        later.over(earlier.over(style)) == earlier.followed_by(later).over(style),
{
}

/// `Arc::clone`: a second pointer to the same allocation. The contract
/// claims that the value behind the new pointer is the value behind `a`.
#[verifier::external_body]
fn share_arc<T>(a: &Arc<T>) -> (shared: Arc<T>)
    ensures
        shared == *a,
{
    Arc::clone(a)
}

} // verus!
