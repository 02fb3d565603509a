//! Terminal styling of the CLI's messages.
//!
//! Each message is built with colour on or off; with colour on, styled text
//! is wrapped in the ANSI escapes that owo-colors writes for the theme.

use vstd::prelude::*;
use owo_colors::OwoColorize;
use owo_colors::Style;
use crate::text::{pad_left, pad_left_spec, repeat, repeat_seq};

verus! {

/// The styles of the CLI's theme.
#[derive(Debug, Clone, Copy, PartialEq, Eq, Structural)]
pub enum Theme {
    /// Bold bright blue.
    Header,
    /// Bold cyan.
    Accent,
    /// Dimmed.
    Muted,
    /// Bright green.
    Success,
    /// Bright yellow.
    Warn,
    /// Bright red.
    Error,
    /// Bold.
    Bold,
    /// Bright cyan.
    Label,
    /// Bright white.
    Value,
}

/// Whether output is coloured, given `NO_COLOR`: on unless it is set to `1`
/// or set but empty (an unreadable value counts as unset).
pub fn color_enabled(no_color_var: Option<String>) -> (res: bool)
    ensures
        res == match no_color_var {
            None => true,
            Some(v) => v@ != "1"@ && v@.len() > 0,
        },
{
    match no_color_var {
        None => true,
        Some(v) => !crate::text::str_eq(v.as_str(), "1") && v.unicode_len() > 0,
    }
}

/// The ANSI escape that starts text in the style `t`.
pub open spec fn style_prefix(t: Theme) -> Seq<char> {
    match t {
        Theme::Header => "\u{1b}[94;1m"@,
        Theme::Accent => "\u{1b}[36;1m"@,
        Theme::Muted => "\u{1b}[2m"@,
        Theme::Success => "\u{1b}[92m"@,
        Theme::Warn => "\u{1b}[93m"@,
        Theme::Error => "\u{1b}[91m"@,
        Theme::Bold => "\u{1b}[1m"@,
        Theme::Label => "\u{1b}[96m"@,
        Theme::Value => "\u{1b}[97m"@,
    }
}

/// The ANSI escape that ends styled text.
pub open spec fn style_reset() -> Seq<char> {
    "\u{1b}[0m"@
}

/// owo-colors' `OwoColorize::style` applied to `text`, then `to_string`.
/// Trusted: the result is the style's ANSI prefix (foreground colour code,
/// then `1` for bold, then `2` for dimmed, `;`-separated), the text, and the
/// reset escape, as owo-colors' `Style::fmt_prefix` and `fmt_suffix` write them.
#[verifier::external_body]
fn paint(text: &str, theme: Theme) -> (res: String)
    ensures
        res@ == style_prefix(theme) + text@ + style_reset(),
{
    let style = match theme {
        Theme::Header => Style::new().bold().bright_blue(),
        Theme::Accent => Style::new().bold().cyan(),
        Theme::Muted => Style::new().dimmed(),
        Theme::Success => Style::new().bright_green(),
        Theme::Warn => Style::new().bright_yellow(),
        Theme::Error => Style::new().bright_red(),
        Theme::Bold => Style::new().bold(),
        Theme::Label => Style::new().bright_cyan(),
        Theme::Value => Style::new().bright_white(),
    };
    text.style(style).to_string()
}

/// `text` in the style `t` when colour is on, plain otherwise.
pub open spec fn apply_spec(text: Seq<char>, t: Theme, color: bool) -> Seq<char> {
    if color {
        style_prefix(t) + text + style_reset()
    } else {
        text
    }
}

/// `text` in the style `theme` when `color` is on.
pub fn apply(text: &str, theme: Theme, color: bool) -> (res: String)
    ensures
        res@ == apply_spec(text@, theme, color),
{
    if color {
        paint(text, theme)
    } else {
        String::from_str(text)
    }
}

/// The lines of the proto logo.
pub open spec fn banner_lines() -> Seq<Seq<char>> {
    seq![
        "    ⣀⡀"@,
        "⢠⣤⡀⣾⣿⣿⠀⣤⣤⡄"@,
        "⢿⣿⡇⠘⠛⠁⢸⣿⣿⠃"@,
        "⠈⣉⣤⣾⣿⣿⡆⠉⣴⣶⣶"@,
        "⣾⣿⣿⣿⣿⣿⣿⡀⠻⠟⠃"@,
        "⠙⠛⠻⢿⣿⣿⣿⡇"@,
        "    ⠈⠙⠋⠁"@,
    ]
}

/// The logo: each line in the accent style, lines separated by newlines.
pub open spec fn banner_spec(color: bool) -> Seq<char> {
    let l = banner_lines();
    apply_spec(l[0], Theme::Accent, color) + "\n"@
        + apply_spec(l[1], Theme::Accent, color) + "\n"@
        + apply_spec(l[2], Theme::Accent, color) + "\n"@
        + apply_spec(l[3], Theme::Accent, color) + "\n"@
        + apply_spec(l[4], Theme::Accent, color) + "\n"@
        + apply_spec(l[5], Theme::Accent, color) + "\n"@
        + apply_spec(l[6], Theme::Accent, color)
}

/// The proto logo.
pub fn proto_banner(color: bool) -> (res: String)
    ensures
        res@ == banner_spec(color),
{
    let mut out = apply("    ⣀⡀", Theme::Accent, color);
    out.append("\n");
    out.append(apply("⢠⣤⡀⣾⣿⣿⠀⣤⣤⡄", Theme::Accent, color).as_str());
    out.append("\n");
    out.append(apply("⢿⣿⡇⠘⠛⠁⢸⣿⣿⠃", Theme::Accent, color).as_str());
    out.append("\n");
    out.append(apply("⠈⣉⣤⣾⣿⣿⡆⠉⣴⣶⣶", Theme::Accent, color).as_str());
    out.append("\n");
    out.append(apply("⣾⣿⣿⣿⣿⣿⣿⡀⠻⠟⠃", Theme::Accent, color).as_str());
    out.append("\n");
    out.append(apply("⠙⠛⠻⢿⣿⣿⣿⡇", Theme::Accent, color).as_str());
    out.append("\n");
    out.append(apply("    ⠈⠙⠋⠁", Theme::Accent, color).as_str());
    out
}

/// A muted horizontal rule of 40 `─`.
pub fn divider(color: bool) -> (res: String)
    ensures
        res@ == apply_spec(repeat_seq("─"@, 40), Theme::Muted, color),
{
    let rule = repeat("─", 40);
    apply(rule.as_str(), Theme::Muted, color)
}

/// A label right-aligned in 14 columns and followed by `:`, in the label
/// style, a space, and the value in the value style.
pub open spec fn label_value_spec(label: Seq<char>, value: Seq<char>, color: bool) -> Seq<char> {
    apply_spec(pad_left_spec(label, 14) + ":"@, Theme::Label, color) + " "@ + apply_spec(value, Theme::Value, color)
}

/// A labelled value, as in the system overview.
pub fn label_value(label: &str, value: &str, color: bool) -> (res: String)
    ensures
        res@ == label_value_spec(label@, value@, color),
{
    let mut padded = pad_left(label, 14);
    padded.append(":");
    let mut out = apply(padded.as_str(), Theme::Label, color);
    out.append(" ");
    out.append(apply(value, Theme::Value, color).as_str());
    out
}

/// An accent diamond, a space, and `text` in the header style.
pub fn header(text: &str, color: bool) -> (res: String)
    ensures
        res@ == apply_spec("◆"@, Theme::Accent, color) + " "@ + apply_spec(text@, Theme::Header, color),
{
    let mut out = apply("◆", Theme::Accent, color);
    out.append(" ");
    out.append(apply(text, Theme::Header, color).as_str());
    out
}

/// `mark` in the style `theme`, a space, then `msg` unstyled.
fn marked(mark: &str, theme: Theme, msg: &str, color: bool) -> (res: String)
    ensures
        res@ == apply_spec(mark@, theme, color) + " "@ + msg@,
{
    let mut out = apply(mark, theme, color);
    out.append(" ");
    out.append(msg);
    out
}

/// A success message: a green check mark, a space, and `msg`.
pub fn success(msg: &str, color: bool) -> (res: String)
    ensures
        res@ == apply_spec("✔"@, Theme::Success, color) + " "@ + msg@,
{
    marked("✔", Theme::Success, msg, color)
}

/// A warning: a yellow warning sign, a space, and `msg`.
pub fn warn(msg: &str, color: bool) -> (res: String)
    ensures
        res@ == apply_spec("⚠"@, Theme::Warn, color) + " "@ + msg@,
{
    marked("⚠", Theme::Warn, msg, color)
}

/// An error: a red cross, a space, and `msg`.
pub fn error(msg: &str, color: bool) -> (res: String)
    ensures
        res@ == apply_spec("✗"@, Theme::Error, color) + " "@ + msg@,
{
    marked("✗", Theme::Error, msg, color)
}

/// `msg` in the muted style.
pub fn muted(msg: &str, color: bool) -> (res: String)
    ensures
        res@ == apply_spec(msg@, Theme::Muted, color),
{
    apply(msg, Theme::Muted, color)
}

/// A failed step: a red cross, a space, and `msg`, both in the error style.
pub fn failure(msg: &str, color: bool) -> (res: String)
    ensures
        res@ == apply_spec("✗"@, Theme::Error, color) + " "@ + apply_spec(msg@, Theme::Error, color),
{
    let mut out = apply("✗", Theme::Error, color);
    out.append(" ");
    out.append(apply(msg, Theme::Error, color).as_str());
    out
}

/// A section heading: a blank line, the title in the header style, and a
/// muted rule of as many `─` as the title has bytes in UTF-8, each on its own line.
pub open spec fn section_spec(title: &str, color: bool) -> Seq<char> {
    "\n"@ + apply_spec(title@, Theme::Header, color) + "\n"@
        + apply_spec(repeat_seq("─"@, title.len() as nat), Theme::Muted, color) + "\n"@
}

/// A section heading.
pub fn section(title: &str, color: bool) -> (res: String)
    ensures
        res@ == section_spec(title, color),
{
    let mut out = String::from_str("\n");
    out.append(apply(title, Theme::Header, color).as_str());
    out.append("\n");
    let rule = repeat("─", title.len());
    out.append(apply(rule.as_str(), Theme::Muted, color).as_str());
    out.append("\n");
    out
}

} // verus!
