//! System-tray model: the state shown by the tray icon, the fallback icon
//! drawn in memory, the tooltip and menu texts, and the short history of
//! recent dictations offered in the tray menu.
use vstd::prelude::*;
use std::collections::VecDeque;
use vstd::string::StringExecFns;

use crate::text::{chars_equal, chars_of, decimal, trim_chars, trim_seq, views, opt_string_view, push_chars, push_decimal, push_str, string_from_chars, vec_from_range};

verus! {

/// What the tray icon shows.
#[derive(Debug, Clone, Copy, PartialEq, Eq, Structural)]
pub enum TrayState {
    Idle,
    Recording,
    Transcribing,
    Degraded,
    Error,
}

/// An ARGB32 image, four bytes per pixel (alpha, red, green, blue), row by row.
pub struct FallbackIcon {
    pub width: i32,
    pub height: i32,
    pub data: Vec<u8>,
}

/// Side length of the fallback icon, in pixels.
pub const ICON_SIZE: usize = 24;

/// The silhouette colour (red, green, blue) of each state.
pub open spec fn base_color(state: TrayState) -> (u8, u8, u8) {
    match state {
        TrayState::Idle => (248, 250, 252),
        TrayState::Recording => (239, 68, 68),
        TrayState::Transcribing => (56, 189, 248),
        TrayState::Degraded => (245, 158, 11),
        TrayState::Error => (148, 163, 184),
    }
}

/// Whether pixel `(x, y)` belongs to the microphone silhouette: a capsule with
/// clipped corners, a U-shaped cradle, a stem and a base.
pub open spec fn in_silhouette(x: int, y: int) -> bool {
    let capsule = 8 <= x <= 15 && 2 <= y <= 12 && !((x == 8 || x == 15) && (y == 2 || y == 12));
    let left_arm = 5 <= x <= 6 && 9 <= y <= 14;
    let right_arm = 17 <= x <= 18 && 9 <= y <= 14;
    let cradle = (y == 15 || y == 16) && 6 <= x <= 17;
    let stem = 11 <= x <= 12 && 16 <= y <= 20;
    let base = 7 <= x <= 16 && 20 <= y <= 21;
    capsule || left_arm || right_arm || cradle || stem || base
}

/// Whether `x` lies in one of the two side columns used for the state accents.
pub open spec fn in_side_columns(x: int) -> bool {
    (2 <= x <= 3) || (20 <= x <= 21)
}

/// The ARGB value of pixel `(x, y)` of the fallback icon for `state`: sound-wave
/// arcs while recording, bracket arcs while transcribing, a badge in the top
/// right corner for recording, degraded and error, and otherwise the silhouette
/// in the state's colour on a transparent background.
pub open spec fn icon_pixel(state: TrayState, x: int, y: int) -> (u8, u8, u8, u8) {
    if state == TrayState::Recording && in_side_columns(x) && 8 <= y <= 14 {
        (255, 239, 68, 68)
    } else if state == TrayState::Transcribing && in_side_columns(x) && 8 <= y <= 15 {
        (255, 56, 189, 248)
    } else if 18 <= x <= 21 && 2 <= y <= 5 && (state == TrayState::Recording || state == TrayState::Error) {
        (255, 239, 68, 68)
    } else if 18 <= x <= 21 && 2 <= y <= 5 && state == TrayState::Degraded {
        (255, 245, 158, 11)
    } else if in_silhouette(x, y) {
        (255, base_color(state).0, base_color(state).1, base_color(state).2)
    } else {
        (0, 0, 0, 0)
    }
}

/// The four bytes of pixel `(x, y)` in a 24-pixel-wide ARGB image.
pub open spec fn pixel_bytes(data: Seq<u8>, x: int, y: int) -> (u8, u8, u8, u8) {
    let i = 4 * (24 * y + x);
    (data[i], data[i + 1], data[i + 2], data[i + 3])
}

fn color_of(state: TrayState) -> (c: (u8, u8, u8))
    ensures
        c == base_color(state),
{
    match state {
        TrayState::Idle => (248, 250, 252),
        TrayState::Recording => (239, 68, 68),
        TrayState::Transcribing => (56, 189, 248),
        TrayState::Degraded => (245, 158, 11),
        TrayState::Error => (148, 163, 184),
    }
}

fn pixel_at(state: TrayState, x: usize, y: usize) -> (p: (u8, u8, u8, u8))
    ensures
        p == icon_pixel(state, x as int, y as int),
{
    let mut filled = false;
    if 8 <= x && x <= 15 && 2 <= y && y <= 12 {
        let is_top_corner = (x == 8 || x == 15) && y == 2;
        let is_bottom_corner = (x == 8 || x == 15) && y == 12;
        if !is_top_corner && !is_bottom_corner {
            filled = true;
        }
    }
    if 5 <= x && x <= 6 && 9 <= y && y <= 14 {
        filled = true;
    }
    if 17 <= x && x <= 18 && 9 <= y && y <= 14 {
        filled = true;
    }
    if (y == 15 || y == 16) && 6 <= x && x <= 17 {
        filled = true;
    }
    if 11 <= x && x <= 12 && 16 <= y && y <= 20 {
        filled = true;
    }
    if 7 <= x && x <= 16 && 20 <= y && y <= 21 {
        filled = true;
    }
    let side = (2 <= x && x <= 3) || (20 <= x && x <= 21);
    if state == TrayState::Recording && side && 8 <= y && y <= 14 {
        return (255, 239, 68, 68);
    }
    if state == TrayState::Transcribing && side && 8 <= y && y <= 15 {
        return (255, 56, 189, 248);
    }
    if 18 <= x && x <= 21 && 2 <= y && y <= 5 {
        match state {
            TrayState::Recording => {
                return (255, 239, 68, 68);
            },
            TrayState::Degraded => {
                return (255, 245, 158, 11);
            },
            TrayState::Error => {
                return (255, 239, 68, 68);
            },
            _ => {},
        }
    }
    if filled {
        let (r, g, b) = color_of(state);
        (255, r, g, b)
    } else {
        (0, 0, 0, 0)
    }
}

/// Draws the 24x24 fallback tray icon for `state`.
pub fn generate_fallback_icon(state: TrayState) -> (icon: FallbackIcon)
    ensures
        icon.width == 24,
        icon.height == 24,
        icon.data@.len() == 24 * 24 * 4,
        forall|x: int, y: int|
            0 <= x < 24 && 0 <= y < 24 ==> #[trigger] pixel_bytes(icon.data@, x, y) == icon_pixel(state, x, y),
{
    let mut data: Vec<u8> = Vec::new();
    let mut y: usize = 0;
    while y < ICON_SIZE
        invariant
            y <= 24,
            data@.len() == 4 * 24 * y,
            forall|xx: int, yy: int|
                0 <= xx < 24 && 0 <= yy < y ==> #[trigger] pixel_bytes(data@, xx, yy) == icon_pixel(state, xx, yy),
        decreases 24 - y,
    {
        let mut x: usize = 0;
        assert(data@.len() == 4 * (24 * y + x)) by (nonlinear_arith)
            requires
                data@.len() == 4 * 24 * y,
                x == 0,
        ;
        while x < ICON_SIZE
            invariant
                y < 24,
                x <= 24,
                data@.len() == 4 * (24 * y + x),
                forall|xx: int, yy: int|
                    0 <= xx < 24 && 0 <= yy < 24 && 24 * yy + xx < 24 * y + x
                        ==> #[trigger] pixel_bytes(data@, xx, yy) == icon_pixel(state, xx, yy),
            decreases 24 - x,
        {
            let (a, r, g, b) = pixel_at(state, x, y);
            let ghost before = data@;
            data.push(a);
            data.push(r);
            data.push(g);
            data.push(b);
            assert forall|xx: int, yy: int|
                0 <= xx < 24 && 0 <= yy < 24 && 24 * yy + xx < 24 * y + x + 1
                    implies #[trigger] pixel_bytes(data@, xx, yy) == icon_pixel(state, xx, yy) by {
                if 24 * yy + xx < 24 * y + x {
                    assert(pixel_bytes(before, xx, yy) == icon_pixel(state, xx, yy));
                } else {
                    assert(xx == x && yy == y) by (nonlinear_arith)
                        requires
                            0 <= xx < 24,
                            0 <= yy < 24,
                            x < 24,
                            24 * yy + xx == 24 * y + x,
                    ;
                }
            }
            x = x + 1;
        }
        assert forall|xx: int, yy: int|
            0 <= xx < 24 && 0 <= yy < y + 1 implies #[trigger] pixel_bytes(data@, xx, yy) == icon_pixel(state, xx, yy) by {
            assert(24 * yy + xx < 24 * y + 24);
        }
        y = y + 1;
    }
    FallbackIcon { width: 24, height: 24, data }
}


/// The tooltip line that describes each state.
pub open spec fn status_description(state: TrayState) -> Seq<char> {
    match state {
        TrayState::Idle => "Ready (Idle)"@,
        TrayState::Recording => "Recording audio..."@,
        TrayState::Transcribing => "Transcribing with Whisper..."@,
        TrayState::Degraded => "Degraded (Fallback Mic / Network Warning)"@,
        TrayState::Error => "Error during transcription"@,
    }
}

/// The themed icon name of each state.
pub open spec fn state_icon_name(state: TrayState) -> Seq<char> {
    match state {
        TrayState::Idle => "openwhisper-tray-idle"@,
        TrayState::Recording => "openwhisper-tray-recording"@,
        TrayState::Transcribing => "openwhisper-tray-transcribing"@,
        TrayState::Degraded => "openwhisper-tray-degraded"@,
        TrayState::Error => "openwhisper-tray-error"@,
    }
}

/// The disabled first line of the tray menu for each state.
pub open spec fn status_menu_label(state: TrayState) -> Seq<char> {
    match state {
        TrayState::Idle => "● Status: Ready (Idle)"@,
        TrayState::Recording => "🔴 Status: Recording..."@,
        TrayState::Transcribing => "⏳ Status: Transcribing..."@,
        TrayState::Degraded => "⚠️ Status: Degraded (Fallback Mic)"@,
        TrayState::Error => "❌ Status: Error"@,
    }
}

/// The tooltip body: status and server, then the microphone, the last latency
/// (already written in seconds) and the last error where there are any.
pub open spec fn tooltip_description(
    state: TrayState,
    server: Seq<char>,
    device: Option<Seq<char>>,
    latency: Option<Seq<char>>,
    error: Option<Seq<char>>,
) -> Seq<char> {
    let head = "Status: "@ + status_description(state) + "\nServer: "@ + server;
    let with_device = match device {
        Some(d) => head + "\nMicrophone: "@ + d,
        None => head,
    };
    let with_latency = match latency {
        Some(l) => with_device + "\nLast Latency: "@ + l + "s"@,
        None => with_device,
    };
    match error {
        Some(e) => with_latency + "\nLast Error: "@ + e,
        None => with_latency,
    }
}

/// The menu label of the `idx`-th recent dictation (counted from zero): its
/// number, then the text, cut to 36 characters and marked with `...` when
/// longer.
pub open spec fn recent_item_label(idx: nat, text: Seq<char>) -> Seq<char> {
    if text.len() > 36 {
        decimal(idx + 1) + ". "@ + text.take(36) + "..."@
    } else {
        decimal(idx + 1) + ". "@ + text
    }
}

/// Tray tooltip content.
pub struct TrayToolTip {
    pub title: String,
    pub description: String,
    pub icon_name: String,
}

/// What the tray shows: its state, the daemon socket it sends commands to, the
/// recent dictations (newest first), and the diagnostics for the tooltip.
pub struct OpenWhisperTray {
    pub state: TrayState,
    pub socket_path: String,
    pub history: VecDeque<String>,
    pub server_url: String,
    /// Latency of the last transcription, in seconds, as the tooltip writes it.
    pub last_latency: Option<String>,
    pub last_error: Option<String>,
    pub active_device: Option<String>,
}

impl OpenWhisperTray {
    /// A tray for the given daemon socket and server, idle, with no history and
    /// no diagnostics.
    pub fn new(socket_path: String, server_url: String) -> (t: Self)
        ensures
            t.state == TrayState::Idle,
            t.socket_path@ == socket_path@,
            t.server_url@ == server_url@,
            t.history@.len() == 0,
            t.last_latency is None,
            t.last_error is None,
            t.active_device is None,
    {
        OpenWhisperTray {
            state: TrayState::Idle,
            socket_path,
            history: VecDeque::new(),
            server_url,
            last_latency: None,
            last_error: None,
            active_device: None,
        }
    }

    /// The status-notifier id.
    pub fn id(&self) -> (r: String)
        ensures
            r@ == "openwhisper"@,
    {
        String::from_str("openwhisper")
    }

    /// The status-notifier title.
    pub fn title(&self) -> (r: String)
        ensures
            r@ == "OpenWhisper Dictation Assistant"@,
    {
        String::from_str("OpenWhisper Dictation Assistant")
    }

    /// The themed icon name for the current state.
    pub fn icon_name(&self) -> (r: String)
        ensures
            r@ == state_icon_name(self.state),
    {
        match self.state {
            TrayState::Idle => String::from_str("openwhisper-tray-idle"),
            TrayState::Recording => String::from_str("openwhisper-tray-recording"),
            TrayState::Transcribing => String::from_str("openwhisper-tray-transcribing"),
            TrayState::Degraded => String::from_str("openwhisper-tray-degraded"),
            TrayState::Error => String::from_str("openwhisper-tray-error"),
        }
    }

    /// Draws the fallback icon for `state`.
    pub fn generate_fallback_icon(&self, state: TrayState) -> (icon: FallbackIcon)
        ensures
            icon.width == 24,
            icon.height == 24,
            icon.data@.len() == 24 * 24 * 4,
            forall|x: int, y: int|
                0 <= x < 24 && 0 <= y < 24 ==> #[trigger] pixel_bytes(icon.data@, x, y) == icon_pixel(state, x, y),
    {
        generate_fallback_icon(state)
    }

    /// The tooltip: title, the description of the current state and
    /// diagnostics, and the icon name.
    pub fn tool_tip(&self) -> (t: TrayToolTip)
        ensures
            t.title@ == "OpenWhisper Dictation Assistant"@,
            t.description@ == tooltip_description(
                self.state,
                self.server_url@,
                opt_string_view(self.active_device),
                opt_string_view(self.last_latency),
                opt_string_view(self.last_error),
            ),
            t.icon_name@ == state_icon_name(self.state),
    {
        let mut d: Vec<char> = Vec::new();
        push_str(&mut d, "Status: ");
        match self.state {
            TrayState::Idle => push_str(&mut d, "Ready (Idle)"),
            TrayState::Recording => push_str(&mut d, "Recording audio..."),
            TrayState::Transcribing => push_str(&mut d, "Transcribing with Whisper..."),
            TrayState::Degraded => push_str(&mut d, "Degraded (Fallback Mic / Network Warning)"),
            TrayState::Error => push_str(&mut d, "Error during transcription"),
        }
        push_str(&mut d, "\nServer: ");
        push_str(&mut d, self.server_url.as_str());
        if let Some(dev) = &self.active_device {
            push_str(&mut d, "\nMicrophone: ");
            push_str(&mut d, dev.as_str());
        }
        if let Some(lat) = &self.last_latency {
            push_str(&mut d, "\nLast Latency: ");
            push_str(&mut d, lat.as_str());
            push_str(&mut d, "s");
        }
        if let Some(err) = &self.last_error {
            push_str(&mut d, "\nLast Error: ");
            push_str(&mut d, err.as_str());
        }
        TrayToolTip {
            title: self.title(),
            description: string_from_chars(d.as_slice()),
            icon_name: self.icon_name(),
        }
    }

    /// The disabled status line at the top of the menu.
    pub fn status_label(&self) -> (r: String)
        ensures
            r@ == status_menu_label(self.state),
    {
        match self.state {
            TrayState::Idle => String::from_str("● Status: Ready (Idle)"),
            TrayState::Recording => String::from_str("🔴 Status: Recording..."),
            TrayState::Transcribing => String::from_str("⏳ Status: Transcribing..."),
            TrayState::Degraded => String::from_str("⚠️ Status: Degraded (Fallback Mic)"),
            TrayState::Error => String::from_str("❌ Status: Error"),
        }
    }

    /// The labels of the "Recent Dictations" submenu entries: the first ten
    /// items of the history, numbered from one.
    pub fn recent_labels(&self) -> (r: Vec<String>)
        requires
            self.history@.len() < usize::MAX,
        ensures
            r@.len() == (if self.history@.len() < 10 { self.history@.len() } else { 10 }),
            forall|i: int| 0 <= i < r@.len() ==> #[trigger] r@[i]@ == recent_item_label(i as nat, self.history@[i]@),
    {
        let mut out: Vec<String> = Vec::new();
        let mut i: usize = 0;
        let n = self.history.len();
        while i < n && i < 10
            invariant
                n == self.history@.len(),
                n < usize::MAX,
                i <= n,
                i <= 10,
                out@.len() == i,
                forall|k: int| 0 <= k < i ==> #[trigger] out@[k]@ == recent_item_label(k as nat, self.history@[k]@),
            decreases 10 - i,
        {
            out.push(recent_entry_label(i, self.history[i].as_str()));
            i = i + 1;
        }
        out
    }

    /// The "Recent Dictations" submenu: an entry per recent dictation (the
    /// first ten), which copies its full text, then a separator when there
    /// is any, then the entry that opens the full history.
    pub fn recent_menu(&self) -> (r: Vec<RecentMenuEntry>)
        requires
            self.history@.len() < usize::MAX,
        ensures
            is_recent_menu(r@, self.history@),
    {
        let labels = self.recent_labels();
        let mut out: Vec<RecentMenuEntry> = Vec::new();
        let mut i: usize = 0;
        while i < labels.len()
            invariant
                labels@.len() == (if self.history@.len() < 10 { self.history@.len() } else { 10 }),
                forall|k: int| 0 <= k < labels@.len() ==> #[trigger] labels@[k]@ == recent_item_label(k as nat, self.history@[k]@),
                i <= labels@.len(),
                out@.len() == i,
                forall|k: int| 0 <= k < i ==> (#[trigger] out@[k] matches RecentMenuEntry::Copy { label, text }
                    && label@ == recent_item_label(k as nat, self.history@[k]@) && text@ == self.history@[k]@),
            decreases labels.len() - i,
        {
            let label = labels[i].clone();
            let text = self.history[i].clone();
            out.push(RecentMenuEntry::Copy { label, text });
            i = i + 1;
        }
        if labels.len() > 0 {
            out.push(RecentMenuEntry::Separator);
        }
        out.push(RecentMenuEntry::BrowseHistory);
        out
    }

    /// The tray menu, top to bottom: the greyed-out status line, a separator,
    /// toggle dictation, the recent-dictations submenu, settings, a separator
    /// and quit.
    pub fn menu(&self) -> (r: Vec<TrayMenuEntry>)
        requires
            self.history@.len() < usize::MAX,
        ensures
            r@.len() == 7,
            r@[0] matches TrayMenuEntry::Status(l) && l@ == status_menu_label(self.state),
            r@[1] is Separator,
            r@[2] is ToggleDictation,
            r@[3] matches TrayMenuEntry::RecentDictations(sub) && is_recent_menu(sub@, self.history@),
            r@[4] is Settings,
            r@[5] is Separator,
            r@[6] is Quit,
    {
        let mut r: Vec<TrayMenuEntry> = Vec::new();
        r.push(TrayMenuEntry::Status(self.status_label()));
        r.push(TrayMenuEntry::Separator);
        r.push(TrayMenuEntry::ToggleDictation);
        r.push(TrayMenuEntry::RecentDictations(self.recent_menu()));
        r.push(TrayMenuEntry::Settings);
        r.push(TrayMenuEntry::Separator);
        r.push(TrayMenuEntry::Quit);
        r
    }
}

/// `r` is the recent-dictations submenu for the history `h` (newest first): an
/// entry per item of the first ten, labelled by `recent_item_label` and
/// copying the item's full text, then a separator when `h` is not empty, then
/// the entry that opens the full history.
pub open spec fn is_recent_menu(r: Seq<RecentMenuEntry>, h: Seq<String>) -> bool {
    let n = if h.len() < 10 { h.len() as int } else { 10 };
    &&& r.len() == n + (if n > 0 { 1int } else { 0 }) + 1
    &&& forall|i: int| 0 <= i < n ==> (#[trigger] r[i] matches RecentMenuEntry::Copy { label, text } && label@
        == recent_item_label(i as nat, h[i]@) && text@ == h[i]@)
    &&& n > 0 ==> r[n] is Separator
    &&& r[r.len() - 1] is BrowseHistory
}

/// An entry of the tray menu.
#[derive(Debug, Clone)]
pub enum TrayMenuEntry {
    /// The greyed-out status line.
    Status(String),
    /// A separating line.
    Separator,
    /// Starts or stops a dictation.
    ToggleDictation,
    /// The "Recent Dictations" submenu with its entries.
    RecentDictations(Vec<RecentMenuEntry>),
    /// Opens the settings window.
    Settings,
    /// Quits the program.
    Quit,
}

/// An entry of the tray's "Recent Dictations" submenu.
#[derive(Debug, Clone)]
pub enum RecentMenuEntry {
    /// Copies `text` to the clipboard; shown as `label`.
    Copy { label: String, text: String },
    /// A separating line.
    Separator,
    /// Opens the full history window.
    BrowseHistory,
}

/// The menu label of the `idx`-th recent dictation, counted from zero.
pub fn recent_entry_label(idx: usize, text: &str) -> (r: String)
    requires
        idx < usize::MAX,
    ensures
        r@ == recent_item_label(idx as nat, text@),
{
    let cs = chars_of(text);
    let mut out: Vec<char> = Vec::new();
    push_decimal(&mut out, idx + 1);
    push_str(&mut out, ". ");
    if cs.len() > 36 {
        let head = vec_from_range(cs.as_slice(), 0, 36);
        assert(head@ =~= text@.take(36));
        push_chars(&mut out, head.as_slice());
        push_str(&mut out, "...");
    } else {
        push_chars(&mut out, cs.as_slice());
    }
    string_from_chars(out.as_slice())
}

/// Most recent dictations kept for the tray menu.
pub const HISTORY_CAPACITY: usize = 10;

/// The recent-dictation list after offering `text`: the text trimmed goes to the
/// front unless it is empty or equal to the current front; the oldest entry
/// leaves beyond ten.
pub open spec fn history_after_add(h: Seq<Seq<char>>, text: Seq<char>) -> Seq<Seq<char>> {
    let t = trim_seq(text);
    if t.len() == 0 || (h.len() > 0 && h[0] == t) {
        h
    } else {
        let grown = seq![t] + h;
        if grown.len() > 10 {
            grown.take(10)
        } else {
            grown
        }
    }
}

/// Well-formed recent-dictation lists: at most ten entries, none empty, no entry
/// equal to the one after it.
pub open spec fn history_wf(h: Seq<Seq<char>>) -> bool {
    &&& h.len() <= 10
    &&& forall|i: int| 0 <= i < h.len() ==> #[trigger] h[i].len() > 0
    &&& forall|i: int| 0 <= i < h.len() - 1 ==> #[trigger] h[i] != h[i + 1]
}

/// Offering a text keeps a recent-dictation list well formed.
pub proof fn lemma_add_keeps_history_wf(h: Seq<Seq<char>>, text: Seq<char>)
    requires
        history_wf(h),
    ensures
        history_wf(history_after_add(h, text)),
{
    let t = trim_seq(text);
    if !(t.len() == 0 || (h.len() > 0 && h[0] == t)) {
        let grown = seq![t] + h;
        let r = history_after_add(h, text);
        assert forall|i: int| 0 <= i < r.len() implies #[trigger] r[i].len() > 0 by {
            assert(r[i] == grown[i]);
            if i > 0 {
                assert(grown[i] == h[i - 1]);
            }
        }
        assert forall|i: int| 0 <= i < r.len() - 1 implies #[trigger] r[i] != r[i + 1] by {
            assert(r[i] == grown[i] && r[i + 1] == grown[i + 1]);
            if i > 0 {
                assert(grown[i] == h[i - 1] && grown[i + 1] == h[i]);
            }
        }
    }
}

/// Offering the same text twice in a row changes the list only once.
pub proof fn lemma_add_twice_same_as_once(h: Seq<Seq<char>>, text: Seq<char>)
    requires
        history_wf(h),
    ensures
        history_after_add(history_after_add(h, text), text) == history_after_add(h, text),
{
}

/// Offering a text that is not blank puts it, trimmed, at the front.
pub proof fn lemma_add_puts_text_in_front(h: Seq<Seq<char>>, text: Seq<char>)
    requires
        trim_seq(text).len() > 0,
    ensures
        history_after_add(h, text).len() > 0,
        history_after_add(h, text)[0] == trim_seq(text),
{
}

/// Keeps the tray's state and recent dictations up to date.
pub struct TrayController {
    tray: OpenWhisperTray,
}

impl View for TrayController {
    type V = OpenWhisperTray;

    /// What the tray currently shows.
    closed spec fn view(&self) -> OpenWhisperTray {
        self.tray
    }
}

impl TrayController {
    /// The controller's invariant: its recent-dictation list is well formed.
    pub open spec fn wf(&self) -> bool {
        history_wf(views(self@.history@))
    }

    /// A controller for a new idle tray.
    pub fn new(socket_path: String, server_url: String) -> (c: Self)
        ensures
            c.wf(),
            c@.state == TrayState::Idle,
            c@.socket_path@ == socket_path@,
            c@.server_url@ == server_url@,
            c@.history@.len() == 0,
            c@.last_latency is None,
            c@.last_error is None,
            c@.active_device is None,
    {
        let c = TrayController { tray: OpenWhisperTray::new(socket_path, server_url) };
        assert(views(c@.history@) =~= Seq::<Seq<char>>::empty());
        c
    }

    /// The tray as it currently stands.
    pub fn tray(&self) -> (t: &OpenWhisperTray)
        ensures
            *t == self@,
    {
        &self.tray
    }

    /// Shows `new_state`.
    pub fn set_state(&mut self, new_state: TrayState)
        requires
            old(self).wf(),
        ensures
            final(self).wf(),
            final(self)@ == (OpenWhisperTray { state: new_state, ..old(self)@ }),
    {
        self.tray.state = new_state;
    }

    /// Records the outcome of the last transcription: its latency where one
    /// was measured (an earlier one stays otherwise) and its error, if any.
    pub fn set_diagnostics(&mut self, latency: Option<String>, error: Option<String>)
        requires
            old(self).wf(),
        ensures
            final(self).wf(),
            final(self)@ == (OpenWhisperTray {
                last_latency: if latency is Some { latency } else { old(self)@.last_latency },
                last_error: error,
                ..old(self)@
            }),
    {
        if latency.is_some() {
            self.tray.last_latency = latency;
        }
        self.tray.last_error = error;
    }

    /// Shows `url` as the transcription server.
    pub fn set_server_url(&mut self, url: String)
        requires
            old(self).wf(),
        ensures
            final(self).wf(),
            final(self)@ == (OpenWhisperTray { server_url: url, ..old(self)@ }),
    {
        self.tray.server_url = url;
    }

    /// Shows `dev` as the microphone in use.
    pub fn set_active_device(&mut self, dev: Option<String>)
        requires
            old(self).wf(),
        ensures
            final(self).wf(),
            final(self)@ == (OpenWhisperTray { active_device: dev, ..old(self)@ }),
    {
        self.tray.active_device = dev;
    }

    /// Offers a finished dictation to the recent list (see `history_after_add`).
    pub fn add_history(&mut self, text: String)
        requires
            old(self).wf(),
        ensures
            final(self).wf(),
            views(final(self)@.history@) == history_after_add(views(old(self)@.history@), text@),
            final(self)@ == (OpenWhisperTray { history: final(self)@.history, ..old(self)@ }),
    {
        proof {
            lemma_add_keeps_history_wf(views(self@.history@), text@);
        }
        let cs = chars_of(text.as_str());
        let t = trim_chars(cs.as_slice());
        if t.len() == 0 {
            return;
        }
        let n = self.tray.history.len();
        if n > 0 {
            let front = chars_of(self.tray.history[0].as_str());
            if chars_equal(front.as_slice(), t.as_slice()) {
                return;
            }
        }
        let ghost before = views(self@.history@);
        self.tray.history.push_front(string_from_chars(t.as_slice()));
        assert(views(self@.history@) =~= seq![trim_seq(text@)] + before);
        if self.tray.history.len() > HISTORY_CAPACITY {
            let _ = self.tray.history.pop_back();
            assert(views(self@.history@) =~= (seq![trim_seq(text@)] + before).take(10));
        }
    }

    /// The recent dictations, newest first.
    pub fn history(&self) -> (r: Vec<String>)
        ensures
            r@ == self@.history@,
    {
        let mut out: Vec<String> = Vec::new();
        let n = self.tray.history.len();
        let mut i: usize = 0;
        while i < n
            invariant
                n == self@.history@.len(),
                i <= n,
                out@ == self@.history@.take(i as int),
            decreases n - i,
        {
            out.push(self.tray.history[i].clone());
            assert(out@ =~= self@.history@.take(i + 1));
            i = i + 1;
        }
        assert(self@.history@.take(n as int) =~= self@.history@);
        out
    }
}

} // verus!
