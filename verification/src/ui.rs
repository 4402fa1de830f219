use vstd::prelude::*;

use crate::config::{AppConfig, ModeConfig};
use crate::monitor::PowerMode;
use crate::text::{append_decimal, decimal};

verus! {

/// The Pango markup of the overlay label: the configured text in white,
/// at the configured size and weight.
pub open spec fn label_markup(font_size: int, font_weight: Seq<char>, text: Seq<char>) -> Seq<
    char,
> {
    "<span size='"@ + decimal(font_size) + "' weight='"@ + font_weight
        + "' font_family='sans-serif' color='white'>"@ + text + "</span>"@
}

/// The style sheet of the overlay window: the configured background and
/// rounded corners.
pub open spec fn window_style(background: Seq<char>) -> Seq<char> {
    "window { background-color: "@ + background + "; border-radius: 24px; }"@
}

/// Builds the label markup for `text` with the configured font size and
/// weight.
pub fn label_markup_for(font_size: i32, font_weight: &str, text: &str) -> (m: String)
    ensures
        m@ == label_markup(font_size as int, font_weight@, text@),
{
    let mut m = String::new();
    m.append("<span size='");
    append_decimal(&mut m, font_size);
    m.append("' weight='");
    m.append(font_weight);
    m.append("' font_family='sans-serif' color='white'>");
    m.append(text);
    m.append("</span>");
    assert(m@ =~= label_markup(font_size as int, font_weight@, text@));
    m
}

/// Builds the style sheet of the overlay window.
pub fn window_css(background: &str) -> (css: String)
    ensures
        css@ == window_style(background@),
{
    let mut css = String::new();
    css.append("window { background-color: ");
    css.append(background);
    css.append("; border-radius: 24px; }");
    assert(css@ =~= window_style(background@));
    css
}

/// The settings for `mode`: the low-power mode shows the "quiet" settings;
/// `Unknown` has none.
pub open spec fn mode_settings(config: AppConfig, mode: PowerMode) -> Option<ModeConfig> {
    match mode {
        PowerMode::Performance => Some(config.performance),
        PowerMode::Balanced => Some(config.balanced),
        PowerMode::LowPower => Some(config.quiet),
        PowerMode::Unknown => None,
    }
}

impl AppConfig {
    /// The settings for `mode`, if it has any.
    pub fn mode_config(&self, mode: PowerMode) -> (r: Option<&ModeConfig>)
        ensures
            match mode_settings(*self, mode) {
                Some(m) => r == Some(&m),
                None => r is None,
            },
    {
        match mode {
            PowerMode::Performance => Some(&self.performance),
            PowerMode::Balanced => Some(&self.balanced),
            PowerMode::LowPower => Some(&self.quiet),
            PowerMode::Unknown => None,
        }
    }
}

/// The icons built into the application.
#[derive(Clone, Copy, Debug, PartialEq, Eq, Structural)]
pub enum BuiltinIcon {
    Quiet,
    Balanced,
    Performance,
}

/// The built-in icon for a known mode.
pub open spec fn builtin_icon(mode: PowerMode) -> BuiltinIcon {
    match mode {
        PowerMode::Performance => BuiltinIcon::Performance,
        PowerMode::Balanced => BuiltinIcon::Balanced,
        _ => BuiltinIcon::Quiet,
    }
}

/// Where the overlay takes its icon from.
#[derive(Debug)]
pub enum IconSource {
    /// A picture file named in the configuration.
    File(String),
    /// An icon built into the application.
    Builtin(BuiltinIcon),
}

/// What the overlay is to show for one mode change.
#[derive(Debug)]
pub struct OverlayUpdate {
    /// The label markup.
    pub markup: String,
    /// The icon.
    pub icon: IconSource,
    /// How long to stay visible, in milliseconds.
    pub hide_after_ms: u64,
    /// The display this update starts: only the timer that carries the
    /// latest token hides the window.
    pub token: u64,
}

/// Whether `u` shows the settings `m` for `mode` as configured in `config`.
pub open spec fn shows(u: OverlayUpdate, config: AppConfig, m: ModeConfig, mode: PowerMode) -> bool {
    &&& u.markup@ == label_markup(
        config.window.font_size as int,
        config.window.font_weight@,
        m.text@,
    )
    &&& match m.icon_path {
        Some(p) => u.icon is File && u.icon->File_0@ == p@,
        None => u.icon == IconSource::Builtin(builtin_icon(mode)),
    }
    &&& u.hide_after_ms == config.display_duration_ms
}

/// Counts the displays of the overlay, so that a hide timer can tell
/// whether a newer display has started since it was set.
pub struct DisplayEpoch {
    current: u64,
}

impl View for DisplayEpoch {
    type V = nat;

    closed spec fn view(&self) -> nat {
        self.current as nat
    }
}

/// The display counter after an overlay update for `mode`: a known mode
/// starts a display, `Unknown` changes nothing.
pub open spec fn epoch_step(epoch: nat, mode: PowerMode) -> nat {
    if mode == PowerMode::Unknown {
        epoch
    } else {
        epoch + 1
    }
}

/// The display counter after overlay updates for `modes`, in order.
pub open spec fn epoch_after(epoch: nat, modes: Seq<PowerMode>) -> nat
    decreases modes.len(),
{
    if modes.len() == 0 {
        epoch
    } else {
        epoch_after(epoch_step(epoch, modes[0]), modes.drop_first())
    }
}

/// How many of `modes` are known modes.
pub open spec fn known_count(modes: Seq<PowerMode>) -> nat
    decreases modes.len(),
{
    if modes.len() == 0 {
        0
    } else {
        (if modes[0] == PowerMode::Unknown {
            0nat
        } else {
            1nat
        }) + known_count(modes.drop_first())
    }
}

/// Whether the timer of the display with `token` hides the window when the
/// epoch stands at `epoch`: only that of the latest display does.
pub open spec fn hides(epoch: nat, token: nat) -> bool {
    epoch == token
}

impl DisplayEpoch {
    /// No display has started yet.
    pub fn new() -> (e: DisplayEpoch)
        ensures
            e@ == 0,
    {
        DisplayEpoch { current: 0 }
    }

    /// The token of the latest display (0 before the first).
    pub fn current(&self) -> (token: u64)
        ensures
            token == self@,
    {
        self.current
    }

    /// Starts a display and returns its token.
    pub fn begin_display(&mut self) -> (token: u64)
        requires
            old(self)@ < u64::MAX,
        ensures
            final(self)@ == old(self)@ + 1,
            token == final(self)@,
    {
        self.current = self.current + 1;
        self.current
    }

    /// Whether the timer of the display with `token` is to hide the window.
    pub fn should_hide(&self, token: u64) -> (r: bool)
        ensures
            r == hides(self@, token as nat),
    {
        self.current == token
    }
}

/// Decides what the overlay shows for `mode`: nothing for `Unknown`;
/// otherwise the label and icon that the configuration gives the mode, how
/// long to show them, and the token of the new display.
pub fn plan_overlay(config: &AppConfig, epoch: &mut DisplayEpoch, mode: PowerMode) -> (r: Option<
    OverlayUpdate,
>)
    requires
        mode != PowerMode::Unknown ==> old(epoch)@ < u64::MAX,
    ensures
        r is None <==> mode == PowerMode::Unknown,
        r is None ==> final(epoch)@ == old(epoch)@,
        final(epoch)@ == epoch_step(old(epoch)@, mode),
        match (r, mode_settings(*config, mode)) {
            (Some(u), Some(m)) => shows(u, *config, m, mode) && final(epoch)@ == old(epoch)@ + 1
                && u.token == final(epoch)@,
            _ => true,
        },
{
    let target = match config.mode_config(mode) {
        Some(t) => t,
        None => return None,
    };
    let markup = label_markup_for(
        config.window.font_size,
        config.window.font_weight.as_str(),
        target.text.as_str(),
    );
    let icon = match &target.icon_path {
        Some(path) => IconSource::File(path.clone()),
        None => IconSource::Builtin(
            match mode {
                PowerMode::Performance => BuiltinIcon::Performance,
                PowerMode::Balanced => BuiltinIcon::Balanced,
                _ => BuiltinIcon::Quiet,
            },
        ),
    };
    let token = epoch.begin_display();
    Some(OverlayUpdate { markup, icon, hide_after_ms: config.display_duration_ms, token })
}

/// A hide timer set by an earlier display does not hide the window once a
/// newer display has started; the timer of the latest display does.
pub proof fn law_only_latest_display_hides(start: nat, later: nat)
    ensures
        hides(start + 1 + later, start + 1 + later),
        later > 0 ==> !hides(start + 1 + later, start + 1),
{
}

/// The display counter grows by the number of updates for a known mode:
/// started at 0 it counts them, and it never decreases.
pub proof fn law_epoch_counts_displays(epoch: nat, modes: Seq<PowerMode>)
    ensures
        epoch_after(epoch, modes) == epoch + known_count(modes),
        epoch_after(epoch, modes) >= epoch,
        epoch_after(0, modes) == known_count(modes),
    decreases modes.len(),
{
    if modes.len() > 0 {
        law_epoch_counts_displays(epoch_step(epoch, modes[0]), modes.drop_first());
        law_epoch_counts_displays(0, modes.drop_first());
        law_epoch_counts_displays(epoch_step(0, modes[0]), modes.drop_first());
    }
}

/// The timer of a display hides the window exactly when no update for a
/// known mode came after it: a newer display makes every earlier timer
/// stale, and updates for `Unknown` leave the latest timer in force.
pub proof fn law_stale_timers_do_not_hide(epoch: nat, mode: PowerMode, later: Seq<PowerMode>)
    requires
        mode != PowerMode::Unknown,
    ensures
        hides(epoch_after(epoch_step(epoch, mode), later), epoch_step(epoch, mode))
            <==> known_count(later) == 0,
{
    law_epoch_counts_displays(epoch_step(epoch, mode), later);
}

/// The label markup shows the configured weight and the mode's text
/// unchanged, whatever they are: the weight stands inside `weight='...'`
/// right after the size, and the text stands just before the closing tag.
pub proof fn law_markup_carries_weight_and_text(size: int, weight: Seq<char>, text: Seq<char>)
    ensures
        ({
            let m = label_markup(size, weight, text);
            let w = ("<span size='"@ + decimal(size) + "' weight='"@).len() as int;
            let t = m.len() - "</span>"@.len() - text.len();
            &&& m.subrange(0, w) == "<span size='"@ + decimal(size) + "' weight='"@
            &&& m.subrange(w, (w + weight.len()) as int) == weight
            &&& m.subrange((w + weight.len()) as int, t) == "' font_family='sans-serif' color='white'>"@
            &&& m.subrange(t, (t + text.len()) as int) == text
            &&& m.subrange((t + text.len()) as int, m.len() as int) == "</span>"@
        }),
{
    let a = "<span size='"@ + decimal(size) + "' weight='"@;
    let b = "' font_family='sans-serif' color='white'>"@;
    let c = "</span>"@;
    let m = label_markup(size, weight, text);
    assert(m =~= a + weight + b + text + c);
    let w = a.len() as int;
    let t = m.len() - c.len() - text.len();
    assert(m.subrange(0, w) =~= a);
    assert(m.subrange(w, (w + weight.len()) as int) =~= weight);
    assert(m.subrange((w + weight.len()) as int, t) =~= b);
    assert(m.subrange(t, (t + text.len()) as int) =~= text);
    assert(m.subrange((t + text.len()) as int, m.len() as int) =~= c);
}

/// Different weights, or different texts, give different markup.
pub proof fn law_markup_tells_weights_and_texts_apart(
    size: int,
    w1: Seq<char>,
    t1: Seq<char>,
    w2: Seq<char>,
    t2: Seq<char>,
)
    requires
        label_markup(size, w1, t1) == label_markup(size, w2, t2),
        w1.len() == w2.len(),
    ensures
        w1 == w2,
        t1 == t2,
{
    law_markup_carries_weight_and_text(size, w1, t1);
    law_markup_carries_weight_and_text(size, w2, t2);
}

/// The style sheet holds the configured background unchanged, right after
/// `background-color: `, and different backgrounds give different style
/// sheets.
pub proof fn law_style_carries_background(b1: Seq<char>, b2: Seq<char>)
    ensures
        window_style(b1).subrange(
            "window { background-color: "@.len() as int,
            ("window { background-color: "@.len() + b1.len()) as int,
        ) == b1,
        window_style(b1).len() == "window { background-color: "@.len() + b1.len()
            + "; border-radius: 24px; }"@.len(),
        window_style(b1) == window_style(b2) ==> b1 == b2,
{
    let p = "window { background-color: "@;
    let q = "; border-radius: 24px; }"@;
    assert(window_style(b1) =~= p + b1 + q);
    assert(window_style(b2) =~= p + b2 + q);
    assert(window_style(b1).subrange(p.len() as int, (p.len() + b1.len()) as int) =~= b1);
    assert(window_style(b2).subrange(p.len() as int, (p.len() + b2.len()) as int) =~= b2);
}

/// Each mode shows its own section of the configuration, whatever the other
/// sections hold: low-power the quiet section, balanced the balanced one,
/// performance the performance one; `Unknown` shows none.
pub proof fn law_each_mode_shows_its_own_section(c1: AppConfig, c2: AppConfig)
    ensures
        mode_settings(c1, PowerMode::LowPower) == Some(c1.quiet),
        mode_settings(c1, PowerMode::Balanced) == Some(c1.balanced),
        mode_settings(c1, PowerMode::Performance) == Some(c1.performance),
        mode_settings(c1, PowerMode::Unknown) is None,
        c1.quiet == c2.quiet ==> mode_settings(c1, PowerMode::LowPower) == mode_settings(
            c2,
            PowerMode::LowPower,
        ),
        c1.balanced == c2.balanced ==> mode_settings(c1, PowerMode::Balanced) == mode_settings(
            c2,
            PowerMode::Balanced,
        ),
        c1.performance == c2.performance ==> mode_settings(c1, PowerMode::Performance)
            == mode_settings(c2, PowerMode::Performance),
{
}

/// What an update shows: the section's text in the markup, a configured
/// icon file by its path (the built-in icon of the mode otherwise), and the
/// configured duration.
pub proof fn law_update_shows_the_section(
    u: OverlayUpdate,
    config: AppConfig,
    m: ModeConfig,
    mode: PowerMode,
)
    requires
        shows(u, config, m, mode),
    ensures
        u.markup@ == "<span size='"@ + decimal(config.window.font_size as int) + "' weight='"@
            + config.window.font_weight@ + "' font_family='sans-serif' color='white'>"@ + m.text@
            + "</span>"@,
        u.hide_after_ms == config.display_duration_ms,
        m.icon_path is Some ==> u.icon is File && u.icon->File_0@ == m.icon_path->0@,
        m.icon_path is None && mode == PowerMode::LowPower ==> u.icon == IconSource::Builtin(
            BuiltinIcon::Quiet,
        ),
        m.icon_path is None && mode == PowerMode::Balanced ==> u.icon == IconSource::Builtin(
            BuiltinIcon::Balanced,
        ),
        m.icon_path is None && mode == PowerMode::Performance ==> u.icon == IconSource::Builtin(
            BuiltinIcon::Performance,
        ),
{
}

} // verus!
