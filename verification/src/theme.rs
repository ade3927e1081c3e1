//! The colours of the two themes.

use vstd::prelude::*;

verus! {

/// A colour by its red, green and blue parts.
#[derive(Clone, Copy, Debug, PartialEq, Eq, Structural)]
pub struct Rgb {
    pub red: u8,
    pub green: u8,
    pub blue: u8,
}

/// How a piece of text is drawn.
#[derive(Clone, Copy, Debug, PartialEq, Eq, Structural)]
pub struct TextStyle {
    /// The colour of the text, where the style sets one.
    pub foreground: Option<Rgb>,
    /// The colour behind the text, where the style sets one.
    pub background: Option<Rgb>,
    pub bold: bool,
    pub italic: bool,
    pub reversed: bool,
}

/// What a style is for.
#[derive(Clone, Copy, Debug, PartialEq, Eq, Hash, PartialOrd, Ord, Structural)]
pub enum Styles {
    Default,
    Logo,
    Failure,
    Warning,
    Success,
    Primary,
    Secondary,
    Help,
    Background,
}

/// The colour with the given parts.
pub open spec fn rgb(red: u8, green: u8, blue: u8) -> Rgb {
    Rgb { red, green, blue }
}

/// The background of the dark theme.
pub open spec fn color_teal() -> Rgb {
    rgb(35, 50, 55)
}

/// The primary colour of the dark theme.
pub open spec fn color_cyan() -> Rgb {
    rgb(0, 230, 230)
}

/// The colour of help texts in the dark theme.
pub open spec fn color_light_blue() -> Rgb {
    rgb(138, 196, 255)
}

/// The secondary colour of the dark theme.
pub open spec fn color_yellow() -> Rgb {
    rgb(249, 229, 113)
}

/// The colour of success and of the logo in the dark theme.
pub open spec fn color_green() -> Rgb {
    rgb(72, 213, 150)
}

/// The colour of failures in the dark theme.
pub open spec fn color_red() -> Rgb {
    rgb(249, 167, 164)
}

/// The colour of warnings in the dark theme.
pub open spec fn color_orange() -> Rgb {
    rgb(255, 170, 66)
}

/// The text of the dark theme and the background of the light one.
pub open spec fn color_white() -> Rgb {
    rgb(255, 255, 255)
}

/// The secondary colour of the light theme.
pub open spec fn color_magenta() -> Rgb {
    rgb(139, 0, 139)
}

/// The text of the light theme.
pub open spec fn color_gray() -> Rgb {
    rgb(91, 87, 87)
}

/// The primary colour and that of help texts in the light theme.
pub open spec fn color_blue() -> Rgb {
    rgb(0, 82, 163)
}

/// The colour of success and of the logo in the light theme.
pub open spec fn color_green_dark() -> Rgb {
    rgb(20, 97, 73)
}

/// The colour of failures in the light theme.
pub open spec fn color_red_dark() -> Rgb {
    rgb(173, 25, 20)
}

/// The colour of warnings in the light theme.
pub open spec fn color_orange_dark() -> Rgb {
    rgb(184, 49, 15)
}

/// The style without colours or emphasis.
pub open spec fn plain() -> TextStyle {
    TextStyle { foreground: None, background: None, bold: false, italic: false, reversed: false }
}

/// The plain style with a colour for the text.
pub open spec fn colored(foreground: Rgb) -> TextStyle {
    TextStyle { foreground: Some(foreground), ..plain() }
}

/// The colour of the text for each use, in the light and in the dark theme.
pub open spec fn foreground_of(style: Styles, light: bool) -> Rgb {
    if light {
        match style {
            Styles::Default => color_gray(),
            Styles::Logo => color_green_dark(),
            Styles::Failure => color_red_dark(),
            Styles::Warning => color_orange_dark(),
            Styles::Success => color_green_dark(),
            Styles::Primary => color_blue(),
            Styles::Secondary => color_magenta(),
            Styles::Help => color_blue(),
            Styles::Background => color_gray(),
        }
    } else {
        match style {
            Styles::Default => color_white(),
            Styles::Logo => color_green(),
            Styles::Failure => color_red(),
            Styles::Warning => color_orange(),
            Styles::Success => color_green(),
            Styles::Primary => color_cyan(),
            Styles::Secondary => color_yellow(),
            Styles::Help => color_light_blue(),
            Styles::Background => color_white(),
        }
    }
}

/// The style for each use: its text colour, and for the background the
/// colour behind it, white in the light theme and teal in the dark one.
pub open spec fn themed(style: Styles, light: bool) -> TextStyle {
    TextStyle {
        foreground: Some(foreground_of(style, light)),
        background: if style == Styles::Background {
            Some(
                if light {
                    color_white()
                } else {
                    color_teal()
                },
            )
        } else {
            None
        },
        ..plain()
    }
}

/// The uses of a style, in ascending order.
pub open spec fn all_styles() -> Seq<Styles> {
    seq![
        Styles::Default,
        Styles::Logo,
        Styles::Failure,
        Styles::Warning,
        Styles::Success,
        Styles::Primary,
        Styles::Secondary,
        Styles::Help,
        Styles::Background,
    ]
}

impl Rgb {
    /// The colour with the given parts.
    pub fn new(red: u8, green: u8, blue: u8) -> (r: Rgb)
        ensures
            r == rgb(red, green, blue),
    {
        Rgb { red, green, blue }
    }
}

impl TextStyle {
    /// The style without colours or emphasis.
    pub fn plain() -> (r: TextStyle)
        ensures
            r == plain(),
    {
        TextStyle {
            foreground: None,
            background: None,
            bold: false,
            italic: false,
            reversed: false,
        }
    }
}

/// The text colour for a use, in the light or in the dark theme.
pub fn foreground(style: Styles, light: bool) -> (r: Rgb)
    ensures
        r == foreground_of(style, light),
{
    if light {
        match style {
            Styles::Default => Rgb::new(91, 87, 87),
            Styles::Logo => Rgb::new(20, 97, 73),
            Styles::Failure => Rgb::new(173, 25, 20),
            Styles::Warning => Rgb::new(184, 49, 15),
            Styles::Success => Rgb::new(20, 97, 73),
            Styles::Primary => Rgb::new(0, 82, 163),
            Styles::Secondary => Rgb::new(139, 0, 139),
            Styles::Help => Rgb::new(0, 82, 163),
            Styles::Background => Rgb::new(91, 87, 87),
        }
    } else {
        match style {
            Styles::Default => Rgb::new(255, 255, 255),
            Styles::Logo => Rgb::new(72, 213, 150),
            Styles::Failure => Rgb::new(249, 167, 164),
            Styles::Warning => Rgb::new(255, 170, 66),
            Styles::Success => Rgb::new(72, 213, 150),
            Styles::Primary => Rgb::new(0, 230, 230),
            Styles::Secondary => Rgb::new(249, 229, 113),
            Styles::Help => Rgb::new(138, 196, 255),
            Styles::Background => Rgb::new(255, 255, 255),
        }
    }
}

/// The style for a use, in the light or in the dark theme.
pub fn style_for(style: Styles, light: bool) -> (r: TextStyle)
    ensures
        r == themed(style, light),
{
    let background = match style {
        Styles::Background => Some(
            if light {
                Rgb::new(255, 255, 255)
            } else {
                Rgb::new(35, 50, 55)
            },
        ),
        _ => None,
    };
    TextStyle {
        foreground: Some(foreground(style, light)),
        background,
        bold: false,
        italic: false,
        reversed: false,
    }
}

/// The styles of a theme: one entry for each use, in ascending order of the
/// uses.
pub fn theme_styles(light: bool) -> (r: Vec<(Styles, TextStyle)>)
    ensures
        r@.len() == all_styles().len(),
        forall|i: int|
            0 <= i < r@.len() ==> #[trigger] r@[i] == (
                all_styles()[i],
                themed(all_styles()[i], light),
            ),
{
    let mut table: Vec<(Styles, TextStyle)> = Vec::new();
    table.push((Styles::Default, style_for(Styles::Default, light)));
    table.push((Styles::Logo, style_for(Styles::Logo, light)));
    table.push((Styles::Failure, style_for(Styles::Failure, light)));
    table.push((Styles::Warning, style_for(Styles::Warning, light)));
    table.push((Styles::Success, style_for(Styles::Success, light)));
    table.push((Styles::Primary, style_for(Styles::Primary, light)));
    table.push((Styles::Secondary, style_for(Styles::Secondary, light)));
    table.push((Styles::Help, style_for(Styles::Help, light)));
    table.push((Styles::Background, style_for(Styles::Background, light)));
    table
}

/// The style of a title's logo: the logo's colour, bold and italic.
pub fn title_style_logo(light: bool) -> (r: TextStyle)
    ensures
        r == (TextStyle { bold: true, italic: true, ..themed(Styles::Logo, light) }),
{
    let base = style_logo(light);
    TextStyle { bold: true, italic: true, ..base }
}

/// The plain style, bold.
pub fn style_bold() -> (r: TextStyle)
    ensures
        r == (TextStyle { bold: true, ..plain() }),
{
    TextStyle { bold: true, ..TextStyle::plain() }
}

/// The style of ordinary text.
pub fn style_default(light: bool) -> (r: TextStyle)
    ensures
        r == themed(Styles::Default, light),
{
    style_for(Styles::Default, light)
}

/// The style of the logo.
pub fn style_logo(light: bool) -> (r: TextStyle)
    ensures
        r == themed(Styles::Logo, light),
{
    style_for(Styles::Logo, light)
}

/// The style of a failure.
pub fn style_failure(light: bool) -> (r: TextStyle)
    ensures
        r == themed(Styles::Failure, light),
{
    style_for(Styles::Failure, light)
}

/// The style of a warning.
pub fn style_warning(light: bool) -> (r: TextStyle)
    ensures
        r == themed(Styles::Warning, light),
{
    style_for(Styles::Warning, light)
}

/// The style of a success.
pub fn style_success(light: bool) -> (r: TextStyle)
    ensures
        r == themed(Styles::Success, light),
{
    style_for(Styles::Success, light)
}

/// The style of what stands out first.
pub fn style_primary(light: bool) -> (r: TextStyle)
    ensures
        r == themed(Styles::Primary, light),
{
    style_for(Styles::Primary, light)
}

/// The style of help texts.
pub fn style_help(light: bool) -> (r: TextStyle)
    ensures
        r == themed(Styles::Help, light),
{
    style_for(Styles::Help, light)
}

/// The style of what stands out second, and of the block that has the focus.
pub fn style_secondary(light: bool) -> (r: TextStyle)
    ensures
        r == themed(Styles::Secondary, light),
{
    style_for(Styles::Secondary, light)
}

/// The style of the background: the only one that sets the colour behind the text.
pub fn style_main_background(light: bool) -> (r: TextStyle)
    ensures
        r == themed(Styles::Background, light),
{
    style_for(Styles::Background, light)
}

/// The plain style, with text and background exchanged.
pub fn style_highlight() -> (r: TextStyle)
    ensures
        r == (TextStyle { reversed: true, ..plain() }),
{
    TextStyle { reversed: true, ..TextStyle::plain() }
}

/// The style of a block: the secondary colour where the block has the
/// focus, the default colour otherwise.
pub fn block_style(light: bool, is_active: bool) -> (r: TextStyle)
    ensures
        r == if is_active {
            themed(Styles::Secondary, light)
        } else {
            themed(Styles::Default, light)
        },
{
    if is_active {
        style_secondary(light)
    } else {
        style_default(light)
    }
}

} // verus!
