//! The mapping from theme roles to palette keys, and the resolution of each
//! role to a colour.

use vstd::prelude::*;
use vstd::string::*;
use crate::colors::{white, Color, Colors, Palette};
use crate::toml_doc::{entry, parse_table, text_of, toml_document, toml_model, Toml};
use crate::text::{same_text, str_view, text_view};

verus! {

/// Which palette key each role takes its colour from. A role without a key
/// of its own takes its built-in key.
#[derive(Debug, PartialEq, Eq)]
pub struct ColorConfig {
    pub accent_color: Option<String>,
    pub success_color: Option<String>,
    pub warning_color: Option<String>,
    pub destructive_color: Option<String>,
    pub bg_color: Option<String>,
    pub primary_container_color: Option<String>,
    pub neutral_tint_color: Option<String>,
    pub text_tint_color: Option<String>,
}

/// What a mapping holds.
pub struct Mapping {
    pub accent_color: Option<Seq<char>>,
    pub success_color: Option<Seq<char>>,
    pub warning_color: Option<Seq<char>>,
    pub destructive_color: Option<Seq<char>>,
    pub bg_color: Option<Seq<char>>,
    pub primary_container_color: Option<Seq<char>>,
    pub neutral_tint_color: Option<Seq<char>>,
    pub text_tint_color: Option<Seq<char>>,
}

impl View for ColorConfig {
    type V = Mapping;

    open spec fn view(&self) -> Mapping {
        Mapping {
            accent_color: text_view(self.accent_color),
            success_color: text_view(self.success_color),
            warning_color: text_view(self.warning_color),
            destructive_color: text_view(self.destructive_color),
            bg_color: text_view(self.bg_color),
            primary_container_color: text_view(self.primary_container_color),
            neutral_tint_color: text_view(self.neutral_tint_color),
            text_tint_color: text_view(self.text_tint_color),
        }
    }
}

/// The eight colours of a theme, in the order accent, success, warning,
/// destructive, background, primary container, neutral tint, text tint.
pub type ResolvedTheme = (Color, Color, Color, Color, Color, Color, Color, Color);

/// The mapping in which every role names its built-in key.
pub open spec fn default_mapping() -> Mapping {
    Mapping {
        accent_color: Some("color13"@),
        success_color: Some("color12"@),
        warning_color: Some("color14"@),
        destructive_color: Some("color11"@),
        bg_color: Some("background"@),
        primary_container_color: Some("color1"@),
        neutral_tint_color: Some("color9"@),
        text_tint_color: Some("foreground"@),
    }
}

/// The mapping in which no role has a key of its own.
pub open spec fn empty_mapping() -> Mapping {
    Mapping {
        accent_color: None,
        success_color: None,
        warning_color: None,
        destructive_color: None,
        bg_color: None,
        primary_container_color: None,
        neutral_tint_color: None,
        text_tint_color: None,
    }
}

/// The colour that `palette` has under `key`: one of the three named
/// colours for their names, a numbered colour for any other key.
pub open spec fn color_by_key(palette: Palette, key: Seq<char>) -> Option<Color> {
    if key == "background"@ {
        Some(palette.special.background)
    } else if key == "foreground"@ {
        Some(palette.special.foreground)
    } else if key == "cursor"@ {
        Some(palette.special.cursor)
    } else if palette.colors.contains_key(key) {
        Some(palette.colors[key])
    } else {
        None
    }
}

/// The key that a role is looked up under first: its own where it has one
/// that is not empty, else the built-in one.
pub open spec fn effective_key(config_key: Option<Seq<char>>, default_key: Seq<char>) -> Seq<char> {
    match config_key {
        Some(key) if key.len() > 0 => key,
        _ => default_key,
    }
}

/// The colour of a role: that under its effective key; failing that, that
/// under its built-in key; failing that, white.
pub open spec fn color_or_default(
    palette: Palette,
    config_key: Option<Seq<char>>,
    default_key: Seq<char>,
) -> Color {
    match color_by_key(palette, effective_key(config_key, default_key)) {
        Some(color) => color,
        None => match color_by_key(palette, default_key) {
            Some(color) => color,
            None => white(),
        },
    }
}

/// The theme that `mapping` makes of `palette`.
pub open spec fn resolved_theme(mapping: Mapping, palette: Palette) -> ResolvedTheme {
    (
        color_or_default(palette, mapping.accent_color, "color13"@),
        color_or_default(palette, mapping.success_color, "color12"@),
        color_or_default(palette, mapping.warning_color, "color14"@),
        color_or_default(palette, mapping.destructive_color, "color11"@),
        color_or_default(palette, mapping.bg_color, "background"@),
        color_or_default(palette, mapping.primary_container_color, "color1"@),
        color_or_default(palette, mapping.neutral_tint_color, "color9"@),
        color_or_default(palette, mapping.text_tint_color, "foreground"@),
    )
}

impl ColorConfig {
    /// Resolves the eight roles against `wal_colors`. This cannot fail:
    /// every role gets a colour, whatever the palette lacks.
    pub fn load_cosmic_colors(&self, wal_colors: &Colors) -> (res: ResolvedTheme)
        ensures
            res == resolved_theme(self@, wal_colors@),
    {
        (
            self.get_color_or_default(wal_colors, &self.accent_color, "color13"),
            self.get_color_or_default(wal_colors, &self.success_color, "color12"),
            self.get_color_or_default(wal_colors, &self.warning_color, "color14"),
            self.get_color_or_default(wal_colors, &self.destructive_color, "color11"),
            self.get_color_or_default(wal_colors, &self.bg_color, "background"),
            self.get_color_or_default(wal_colors, &self.primary_container_color, "color1"),
            self.get_color_or_default(wal_colors, &self.neutral_tint_color, "color9"),
            self.get_color_or_default(wal_colors, &self.text_tint_color, "foreground"),
        )
    }

    /// Resolves one role, given its key in the mapping and its built-in key.
    pub fn get_color_or_default(
        &self,
        wal_colors: &Colors,
        config_key: &Option<String>,
        default_key: &str,
    ) -> (res: Color)
        ensures
            res == color_or_default(wal_colors@, text_view(*config_key), default_key@),
    {
        let key: &str = match config_key {
            Some(key) => if key.as_str().is_empty() {
                default_key
            } else {
                key.as_str()
            },
            None => default_key,
        };
        match self.get_color_by_key(wal_colors, key) {
            Some(color) => color,
            None => match self.get_color_by_key(wal_colors, default_key) {
                Some(color) => color,
                None => Color::white(),
            },
        }
    }

    /// Looks one key up in the palette.
    pub fn get_color_by_key(&self, wal_colors: &Colors, key: &str) -> (res: Option<Color>)
        ensures
            res == color_by_key(wal_colors@, key@),
    {
        if same_text(key, "background") {
            Some(wal_colors.special.background)
        } else if same_text(key, "foreground") {
            Some(wal_colors.special.foreground)
        } else if same_text(key, "cursor") {
            Some(wal_colors.special.cursor)
        } else {
            match wal_colors.colors.get(key) {
                Some(color) => Some(*color),
                None => None,
            }
        }
    }
}

/// Whether `color` is the colour that the palette has under the role's own
/// key, where the role has a key that is not empty and the palette has a
/// colour under it.
pub open spec fn takes_own_key(
    palette: Palette,
    config_key: Option<Seq<char>>,
    color: Color,
) -> bool {
    config_key matches Some(key) && key.len() > 0 && color_by_key(palette, key) is Some
        ==> color == color_by_key(palette, config_key.unwrap()).unwrap()
}

/// Whether `color` is the fallback: the colour under the role's built-in
/// key where the palette has one there, else white. This is asked of a role
/// whose own key the palette has no colour under.
pub open spec fn falls_back(
    palette: Palette,
    config_key: Option<Seq<char>>,
    default_key: Seq<char>,
    color: Color,
) -> bool {
    config_key matches Some(key) && color_by_key(palette, key) is None ==> color == (
    match color_by_key(palette, default_key) {
        Some(found) => found,
        None => white(),
    })
}

/// A role whose own key is in the palette takes exactly the colour that the
/// palette has under that key, whatever its built-in key is and whether or
/// not the palette has that one. The key must not be empty: an empty key
/// counts as none.
pub proof fn lemma_own_key_wins(mapping: Mapping, palette: Palette)
    ensures
        ({
            let theme = resolved_theme(mapping, palette);
            &&& takes_own_key(palette, mapping.accent_color, theme.0)
            &&& takes_own_key(palette, mapping.success_color, theme.1)
            &&& takes_own_key(palette, mapping.warning_color, theme.2)
            &&& takes_own_key(palette, mapping.destructive_color, theme.3)
            &&& takes_own_key(palette, mapping.bg_color, theme.4)
            &&& takes_own_key(palette, mapping.primary_container_color, theme.5)
            &&& takes_own_key(palette, mapping.neutral_tint_color, theme.6)
            &&& takes_own_key(palette, mapping.text_tint_color, theme.7)
        }),
{
}

/// A role whose own key is not in the palette takes the colour under its
/// built-in key where the palette has that key, and white where it has not.
pub proof fn lemma_missing_key_falls_back(mapping: Mapping, palette: Palette)
    ensures
        ({
            let theme = resolved_theme(mapping, palette);
            &&& falls_back(palette, mapping.accent_color, "color13"@, theme.0)
            &&& falls_back(palette, mapping.success_color, "color12"@, theme.1)
            &&& falls_back(palette, mapping.warning_color, "color14"@, theme.2)
            &&& falls_back(palette, mapping.destructive_color, "color11"@, theme.3)
            &&& falls_back(palette, mapping.bg_color, "background"@, theme.4)
            &&& falls_back(palette, mapping.primary_container_color, "color1"@, theme.5)
            &&& falls_back(palette, mapping.neutral_tint_color, "color9"@, theme.6)
            &&& falls_back(palette, mapping.text_tint_color, "foreground"@, theme.7)
        }),
{
}

/// The background and the text tint never fall back to white: their
/// built-in keys name colours that every palette has.
pub proof fn lemma_special_roles_have_colors(mapping: Mapping, palette: Palette)
    requires
        mapping.bg_color is None,
        mapping.text_tint_color is None,
    ensures
        resolved_theme(mapping, palette).4 == palette.special.background,
        resolved_theme(mapping, palette).7 == palette.special.foreground,
{
    reveal_strlit("background");
    reveal_strlit("foreground");
    assert("background"@[0] == 'b' && "foreground"@[0] == 'f');
}

/// The built-in mapping resolves every palette as the mapping without any
/// key does: to name a role's built-in key is to name none.
pub proof fn lemma_built_in_mapping_adds_nothing(palette: Palette)
    ensures
        resolved_theme(default_mapping(), palette) == resolved_theme(empty_mapping(), palette),
{
}

/// Resolving is repeatable: two themes resolved from the same mapping and
/// the same palette are the same theme.
pub proof fn lemma_resolve_is_repeatable(
    mapping: Mapping,
    palette: Palette,
    first: ResolvedTheme,
    second: ResolvedTheme,
)
    requires
        first == resolved_theme(mapping, palette),
        second == resolved_theme(mapping, palette),
    ensures
        first == second,
{
}

/// What a mapping file says of one role: `Some(None)` where it does not
/// name the role, `Some(Some(key))` where it gives it a string, and `None`
/// where it gives it anything else.
pub open spec fn key_of(doc: Toml, name: Seq<char>) -> Option<Option<Seq<char>>> {
    match doc.entry(name) {
        None => Some(None),
        Some(found) => match found.text() {
            Some(key) => Some(Some(key)),
            None => None,
        },
    }
}

/// The mapping that a parsed mapping file spells; `None` where it gives one
/// of the eight roles something other than a string. Roles that it does not
/// name have no key, and entries under other names are passed over.
pub open spec fn mapping_of_table(doc: Toml) -> Option<Mapping> {
    if key_of(doc, "accent_color"@) is None || key_of(doc, "success_color"@) is None || key_of(
        doc,
        "warning_color"@,
    ) is None || key_of(doc, "destructive_color"@) is None || key_of(doc, "bg_color"@) is None
        || key_of(doc, "primary_container_color"@) is None || key_of(doc, "neutral_tint_color"@)
        is None || key_of(doc, "text_tint_color"@) is None {
        None
    } else {
        Some(
            Mapping {
                accent_color: key_of(doc, "accent_color"@).unwrap(),
                success_color: key_of(doc, "success_color"@).unwrap(),
                warning_color: key_of(doc, "warning_color"@).unwrap(),
                destructive_color: key_of(doc, "destructive_color"@).unwrap(),
                bg_color: key_of(doc, "bg_color"@).unwrap(),
                primary_container_color: key_of(doc, "primary_container_color"@).unwrap(),
                neutral_tint_color: key_of(doc, "neutral_tint_color"@).unwrap(),
                text_tint_color: key_of(doc, "text_tint_color"@).unwrap(),
            },
        )
    }
}

/// What loading makes of a mapping file: `read` is the file's content, or
/// `None` where there is no file to read. A file that is missing, that is
/// not a TOML document, or that gives a role something other than a string
/// yields the built-in mapping.
pub open spec fn loaded_mapping(read: Option<Seq<char>>) -> Mapping {
    match read {
        None => default_mapping(),
        Some(text) => match toml_document(text) {
            None => default_mapping(),
            Some(doc) => match mapping_of_table(doc) {
                Some(mapping) => mapping,
                None => default_mapping(),
            },
        },
    }
}

/// The entry `name` of a mapping file, copied out.
fn key_in(doc: &::toml::Value, name: &str) -> (res: Option<Option<String>>)
    ensures
        match res {
            Some(key) => key_of(toml_model(*doc), name@) == Some(text_view(key)),
            None => key_of(toml_model(*doc), name@) is None,
        },
{
    match entry(doc, name) {
        None => Some(None),
        Some(found) => match text_of(found) {
            Some(key) => Some(Some(key.to_owned())),
            None => None,
        },
    }
}

impl ColorConfig {
    /// Takes the mapping out of a parsed mapping file. The result is `None`
    /// exactly where the file gives a role something other than a string.
    pub fn from_table(doc: &::toml::Value) -> (res: Option<ColorConfig>)
        ensures
            match res {
                Some(config) => mapping_of_table(toml_model(*doc)) == Some(config@),
                None => mapping_of_table(toml_model(*doc)) is None,
            },
    {
        let accent_color = match key_in(doc, "accent_color") {
            Some(key) => key,
            None => {
                return None;
            },
        };
        let success_color = match key_in(doc, "success_color") {
            Some(key) => key,
            None => {
                return None;
            },
        };
        let warning_color = match key_in(doc, "warning_color") {
            Some(key) => key,
            None => {
                return None;
            },
        };
        let destructive_color = match key_in(doc, "destructive_color") {
            Some(key) => key,
            None => {
                return None;
            },
        };
        let bg_color = match key_in(doc, "bg_color") {
            Some(key) => key,
            None => {
                return None;
            },
        };
        let primary_container_color = match key_in(doc, "primary_container_color") {
            Some(key) => key,
            None => {
                return None;
            },
        };
        let neutral_tint_color = match key_in(doc, "neutral_tint_color") {
            Some(key) => key,
            None => {
                return None;
            },
        };
        let text_tint_color = match key_in(doc, "text_tint_color") {
            Some(key) => key,
            None => {
                return None;
            },
        };
        Some(
            ColorConfig {
                accent_color,
                success_color,
                warning_color,
                destructive_color,
                bg_color,
                primary_container_color,
                neutral_tint_color,
                text_tint_color,
            },
        )
    }

    /// Loads the mapping from what reading the mapping file gave: its
    /// content, or `None` where there is no file to read. This cannot fail:
    /// where the file is missing or malformed, the built-in mapping is
    /// returned.
    pub fn load(read: Option<&str>) -> (res: ColorConfig)
        ensures
            res@ == loaded_mapping(str_view(read)),
            read matches Some(text) && toml_document(text@) is None ==> res@ == default_mapping(),
    {
        let text = match read {
            Some(text) => text,
            None => {
                return ColorConfig::default();
            },
        };
        let doc = match parse_table(text) {
            Ok(doc) => doc,
            Err(_) => {
                return ColorConfig::default();
            },
        };
        match ColorConfig::from_table(&doc) {
            Some(config) => config,
            None => ColorConfig::default(),
        }
    }
}

impl Default for ColorConfig {
    /// The mapping in which every role names its built-in key.
    fn default() -> (res: Self)
        ensures
            res@ == default_mapping(),
    {
        ColorConfig {
            accent_color: Some("color13".to_owned()),
            success_color: Some("color12".to_owned()),
            warning_color: Some("color14".to_owned()),
            destructive_color: Some("color11".to_owned()),
            bg_color: Some("background".to_owned()),
            primary_container_color: Some("color1".to_owned()),
            neutral_tint_color: Some("color9".to_owned()),
            text_tint_color: Some("foreground".to_owned()),
        }
    }
}

} // verus!
