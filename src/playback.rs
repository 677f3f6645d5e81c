//! The playback state machine. It walks an encoded message and yields one
//! frame per step: what the display shows, the light's color, the tone, and
//! how long to hold that state before the next step. Whoever owns the devices
//! applies each frame, waits, and asks for the next one.
use vstd::prelude::*;
use vstd::utf8::{decode_utf8, valid_utf8};

use crate::encoder::{
    encode, lemma_unit_shape, spec_encode, units_wf, EncodeError, EncodedMessage, CAPACITY,
};

verus! {

/// Bytes the display line holds.
pub const DISPLAY_CAPACITY: usize = 128;

/// How long the start banner stays up, in milliseconds.
pub const BANNER_HOLD_MS: u64 = 1000;

/// How long a unit's character stays up before its symbols, and how long
/// the cleared display is held between units, in milliseconds.
pub const UNIT_HOLD_MS: u64 = 500;

/// How long a dot sounds, in milliseconds.
pub const DOT_HOLD_MS: u64 = 100;

/// How long a dash sounds, in milliseconds.
pub const DASH_HOLD_MS: u64 = 300;

/// Full-scale duty of a light channel.
pub const LIGHT_TOP: u16 = 0x8000;

/// Full-scale duty of the tone channel.
pub const TONE_TOP: u16 = 0xFFFF;

#[verifier::external_type_specification]
#[verifier::external_body]
pub struct ExHeaplessString<const N: usize>(heapless::String<N>);

/// The characters a display line holds.
pub uninterp spec fn display_text(s: heapless::String<DISPLAY_CAPACITY>) -> Seq<char>;

/// Every character is ASCII, so takes one byte.
pub open spec fn all_ascii(s: Seq<char>) -> bool {
    forall|k: int| 0 <= k < s.len() ==> (#[trigger] s[k] as int) < 128
}

/// Relies on heapless::String::new: a new line is empty.
#[verifier::external_body]
fn text_new() -> (r: heapless::String<DISPLAY_CAPACITY>)
    ensures
        display_text(r) == Seq::<char>::empty(),
{
    heapless::String::new()
}

/// Relies on heapless::String::push: an ASCII character takes one byte and is
/// appended while the line is under capacity; at capacity the line is left as it was.
#[verifier::external_body]
fn text_push(s: &mut heapless::String<DISPLAY_CAPACITY>, c: char) -> (r: Result<(), ()>)
    requires
        all_ascii(display_text(*old(s))),
        (c as int) < 128,
    ensures
        display_text(*old(s)).len() < DISPLAY_CAPACITY ==> (r is Ok && display_text(*final(s))
            == display_text(*old(s)).push(c)),
        display_text(*old(s)).len() >= DISPLAY_CAPACITY ==> (r is Err && display_text(*final(s))
            == display_text(*old(s))),
{
    s.push(c)
}

/// Relies on heapless::String::as_str: the line's characters as a string slice.
#[verifier::external_body]
fn text_as_str<'a>(s: &'a heapless::String<DISPLAY_CAPACITY>) -> (r: &'a str)
    ensures
        r@ == display_text(*s),
{
    s.as_str()
}

/// Appends an ASCII character to a line known to have room for it.
fn push_ascii(s: &mut heapless::String<DISPLAY_CAPACITY>, c: char)
    requires
        all_ascii(display_text(*old(s))),
        (c as int) < 128,
        display_text(*old(s)).len() < DISPLAY_CAPACITY,
    ensures
        display_text(*final(s)) == display_text(*old(s)).push(c),
        all_ascii(display_text(*final(s))),
{
    let _ = text_push(s, c);
    assert(forall|k: int|
        0 <= k < display_text(*s).len() ==> #[trigger] display_text(*s)[k] == if k < display_text(
            *old(s),
        ).len() {
            display_text(*old(s))[k]
        } else {
            c
        });
}

/// A display line holding the characters of `s`.
fn line_of(s: &str) -> (r: heapless::String<DISPLAY_CAPACITY>)
    requires
        all_ascii(s@),
        s@.len() <= DISPLAY_CAPACITY,
    ensures
        display_text(r) == s@,
        all_ascii(display_text(r)),
{
    let n = s.unicode_len();
    let mut line = text_new();
    let mut i: usize = 0;
    while i < n
        invariant
            n == s@.len(),
            n <= DISPLAY_CAPACITY,
            i <= n,
            all_ascii(s@),
            all_ascii(display_text(line)),
            display_text(line) == s@.subrange(0, i as int),
        decreases n - i,
    {
        let c = s.get_char(i);
        push_ascii(&mut line, c);
        assert(s@.subrange(0, i + 1) == s@.subrange(0, i as int).push(c));
        i = i + 1;
    }
    assert(s@.subrange(0, n as int) == s@);
    line
}

/// Relies on core::str::from_utf8: a text exactly where the bytes are valid
/// UTF-8, and then the text they encode.
#[verifier::external_body]
fn text_of_bytes<'a>(b: &'a [u8]) -> (r: Option<&'a str>)
    ensures
        r is Some <==> valid_utf8(b@),
        r is Some ==> r->Some_0@ == decode_utf8(b@),
{
    core::str::from_utf8(b).ok()
}

/// Why a received payload is not played.
#[derive(Debug, Clone, Copy, PartialEq, Eq, Structural)]
pub enum MessageError {
    /// The payload is not valid UTF-8 text.
    MalformedInput,
    /// The text has more units than one message holds.
    CapacityExceeded,
}

/// The color of the tri-color light.
#[derive(Debug, Clone, Copy, PartialEq, Eq, Structural)]
pub enum Light {
    /// All channels dark: the idle state.
    Off,
    /// Red: a dot is sounding.
    DotColor,
    /// Yellow (red and green): a dash is sounding.
    DashColor,
    /// Blue: the message has been played.
    DoneColor,
}

impl Light {
    /// The duties of the red, green and blue channels.
    pub fn duties(self) -> (r: (u16, u16, u16))
        ensures
            r == match self {
                Light::Off => (0u16, 0u16, 0u16),
                Light::DotColor => (LIGHT_TOP, 0u16, 0u16),
                Light::DashColor => (LIGHT_TOP, LIGHT_TOP, 0u16),
                Light::DoneColor => (0u16, 0u16, LIGHT_TOP),
            },
    {
        match self {
            Light::Off => (0, 0, 0),
            Light::DotColor => (LIGHT_TOP, 0, 0),
            Light::DashColor => (LIGHT_TOP, LIGHT_TOP, 0),
            Light::DoneColor => (0, 0, LIGHT_TOP),
        }
    }
}

/// The state of the tone generator.
#[derive(Debug, Clone, Copy, PartialEq, Eq, Structural)]
pub enum Tone {
    /// No sound: the idle state.
    Silent,
    /// The tone of a dot.
    Dot,
    /// The tone of a dash.
    Dash,
}

impl Tone {
    /// The duty of the tone channel: a quarter of full scale for a dot, half
    /// for a dash, nothing when silent.
    pub fn duty(self) -> (r: u16)
        ensures
            r == match self {
                Tone::Silent => 0u16,
                Tone::Dot => (TONE_TOP / 4) as u16,
                Tone::Dash => (TONE_TOP / 2) as u16,
            },
    {
        match self {
            Tone::Silent => 0,
            Tone::Dot => TONE_TOP / 4,
            Tone::Dash => TONE_TOP / 2,
        }
    }
}

/// What the devices show for one step, and for how long.
#[derive(Debug)]
pub struct Frame {
    /// The display line; an empty line leaves the display cleared.
    pub text: heapless::String<DISPLAY_CAPACITY>,
    pub light: Light,
    pub tone: Tone,
    /// How long to hold this state before the next step, in milliseconds.
    pub hold_ms: u64,
}

/// A frame as a mathematical value.
pub struct FrameView {
    pub text: Seq<char>,
    pub light: Light,
    pub tone: Tone,
    pub hold_ms: u64,
}

impl View for Frame {
    type V = FrameView;

    open spec fn view(&self) -> FrameView {
        FrameView {
            text: display_text(self.text),
            light: self.light,
            tone: self.tone,
            hold_ms: self.hold_ms,
        }
    }
}

impl Frame {
    /// The display line as a string slice.
    pub fn text_str(&self) -> (r: &str)
        ensures
            r@ == self@.text,
    {
        text_as_str(&self.text)
    }

    /// Whether the light or the tone is active.
    pub fn is_active(&self) -> (r: bool)
        ensures
            r == self@.active(),
    {
        !(self.light == Light::Off && self.tone == Tone::Silent)
    }
}

impl FrameView {
    /// The light or the tone is active.
    pub open spec fn active(self) -> bool {
        !(self.light == Light::Off && self.tone == Tone::Silent)
    }
}

/// Where the state machine stands.
#[derive(Debug, Clone, Copy, PartialEq, Eq, Structural)]
pub enum Phase {
    /// Nothing to play.
    Idle,
    /// The start banner is next.
    AnnouncingStart,
    /// The character of unit `i` is next.
    EmittingUnit(usize),
    /// Symbol `j` of unit `i` is next.
    EmittingSymbol(usize, usize),
    /// The pause after symbol `j` of unit `i` is next.
    InterSymbolGap(usize, usize),
    /// The pause after unit `i` is next.
    InterUnitGap(usize),
    /// The completion banner is next.
    AnnouncingDone,
    /// Returning every channel to idle is next.
    Resetting,
}

/// The start banner.
pub open spec fn start_banner() -> Seq<char> {
    "START CONVERSION"@
}

/// The completion banner.
pub open spec fn done_banner() -> Seq<char> {
    "TRANSLATION DONE"@
}

/// Each symbol followed by a space.
pub open spec fn spaced(s: Seq<char>) -> Seq<char>
    decreases s.len(),
{
    if s.len() == 0 {
        Seq::empty()
    } else {
        spaced(s.drop_last()) + seq![s.last(), ' ']
    }
}

/// The line that introduces unit `i`: its character, followed by ` = `
/// unless it is a space or the last unit.
pub open spec fn header(u: Seq<(char, Seq<char>)>, i: int) -> Seq<char> {
    if i + 1 != u.len() && u[i].0 != ' ' {
        seq![u[i].0, ' ', '=', ' ']
    } else {
        seq![u[i].0]
    }
}

/// The line while symbol `j` of unit `i` sounds, and during the pause after it.
pub open spec fn symbol_line(u: Seq<(char, Seq<char>)>, i: int, j: int) -> Seq<char> {
    header(u, i) + spaced(u[i].1.take(j + 1))
}

/// The light for a symbol character.
pub open spec fn light_of(c: char) -> Light {
    if c == '.' {
        Light::DotColor
    } else {
        Light::DashColor
    }
}

/// The tone for a symbol character.
pub open spec fn tone_of(c: char) -> Tone {
    if c == '.' {
        Tone::Dot
    } else {
        Tone::Dash
    }
}

/// How long a symbol character sounds.
pub open spec fn hold_of(c: char) -> u64 {
    if c == '.' {
        DOT_HOLD_MS
    } else {
        DASH_HOLD_MS
    }
}

/// A frame with the light off and the tone silent.
pub open spec fn quiet(text: Seq<char>, hold_ms: u64) -> FrameView {
    FrameView { text, light: Light::Off, tone: Tone::Silent, hold_ms }
}

/// Where to go once unit `i` is done.
pub open spec fn after_unit(u: Seq<(char, Seq<char>)>, i: int) -> Phase {
    if i + 1 < u.len() {
        Phase::InterUnitGap(i as usize)
    } else {
        Phase::AnnouncingDone
    }
}

/// The phase refers to units and symbols that exist.
pub open spec fn phase_wf(u: Seq<(char, Seq<char>)>, p: Phase) -> bool {
    match p {
        Phase::EmittingUnit(i) => i < u.len(),
        Phase::EmittingSymbol(i, j) => i < u.len() && j < u[i as int].1.len(),
        Phase::InterSymbolGap(i, j) => i < u.len() && j < u[i as int].1.len(),
        Phase::InterUnitGap(i) => i + 1 < u.len(),
        _ => true,
    }
}

/// One step: from the message's units and a phase, the next phase and the
/// frame to show, if any.
pub open spec fn spec_step(u: Seq<(char, Seq<char>)>, p: Phase) -> (Phase, Option<FrameView>) {
    match p {
        Phase::Idle => (Phase::Idle, None),
        Phase::AnnouncingStart => (
            if u.len() == 0 {
                Phase::AnnouncingDone
            } else {
                Phase::EmittingUnit(0)
            },
            Some(quiet(start_banner(), BANNER_HOLD_MS)),
        ),
        Phase::EmittingUnit(i) => (
            if u[i as int].1.len() > 0 {
                Phase::EmittingSymbol(i, 0)
            } else {
                after_unit(u, i as int)
            },
            Some(quiet(header(u, i as int), UNIT_HOLD_MS)),
        ),
        Phase::EmittingSymbol(i, j) => {
            let c = u[i as int].1[j as int];
            (
                Phase::InterSymbolGap(i, j),
                Some(
                    FrameView {
                        text: symbol_line(u, i as int, j as int),
                        light: light_of(c),
                        tone: tone_of(c),
                        hold_ms: hold_of(c),
                    },
                ),
            )
        },
        Phase::InterSymbolGap(i, j) => (
            if j + 1 < u[i as int].1.len() {
                Phase::EmittingSymbol(i, (j + 1) as usize)
            } else {
                after_unit(u, i as int)
            },
            Some(quiet(symbol_line(u, i as int, j as int), 0)),
        ),
        Phase::InterUnitGap(i) => (
            Phase::EmittingUnit((i + 1) as usize),
            Some(quiet(Seq::empty(), UNIT_HOLD_MS)),
        ),
        Phase::AnnouncingDone => (
            Phase::Resetting,
            Some(
                FrameView {
                    text: done_banner(),
                    light: Light::DoneColor,
                    tone: Tone::Silent,
                    hold_ms: BANNER_HOLD_MS,
                },
            ),
        ),
        Phase::Resetting => (Phase::Idle, Some(quiet(done_banner(), 0))),
    }
}

/// The start banner as a display line.
fn start_line() -> (r: heapless::String<DISPLAY_CAPACITY>)
    ensures
        display_text(r) == start_banner(),
{
    proof {
        reveal_strlit("START CONVERSION");
    }
    line_of("START CONVERSION")
}

/// The completion banner as a display line.
fn done_line() -> (r: heapless::String<DISPLAY_CAPACITY>)
    ensures
        display_text(r) == done_banner(),
{
    proof {
        reveal_strlit("TRANSLATION DONE");
    }
    line_of("TRANSLATION DONE")
}

/// `spaced` doubles the length.
proof fn lemma_spaced_len(s: Seq<char>)
    ensures
        spaced(s).len() == 2 * s.len(),
    decreases s.len(),
{
    if s.len() > 0 {
        lemma_spaced_len(s.drop_last());
    }
}

/// The line that introduces unit `i` of `msg`.
fn header_line(msg: &EncodedMessage, i: usize) -> (r: heapless::String<DISPLAY_CAPACITY>)
    requires
        msg.wf(),
        i < msg@.len(),
    ensures
        display_text(r) == header(msg@, i as int),
        all_ascii(display_text(r)),
{
    let units = msg.units();
    let n = units.len();
    let c = units[i].0;
    assert(c == msg@[i as int].0);
    proof {
        lemma_unit_shape(c);
    }
    let mut line = text_new();
    push_ascii(&mut line, c);
    if i + 1 != n && c != ' ' {
        push_ascii(&mut line, ' ');
        push_ascii(&mut line, '=');
        push_ascii(&mut line, ' ');
    }
    assert(display_text(line) =~= header(msg@, i as int));
    line
}

/// The line while symbol `j` of unit `i` of `msg` sounds.
fn symbol_line_of(msg: &EncodedMessage, i: usize, j: usize) -> (r: heapless::String<
    DISPLAY_CAPACITY,
>)
    requires
        msg.wf(),
        i < msg@.len(),
        j < msg@[i as int].1.len(),
    ensures
        display_text(r) == symbol_line(msg@, i as int, j as int),
{
    let mut line = header_line(msg, i);
    let units = msg.units();
    let sym = units[i].1;
    let ghost u = msg@;
    let ghost head = display_text(line);
    assert(sym@ == u[i as int].1);
    proof {
        lemma_unit_shape(u[i as int].0);
    }
    let mut k: usize = 0;
    while k <= j
        invariant
            j < sym@.len(),
            sym@.len() <= 5,
            forall|m: int| 0 <= m < sym@.len() ==> (#[trigger] sym@[m] == '.' || sym@[m] == '-'),
            head.len() <= 4,
            k <= j + 1,
            all_ascii(display_text(line)),
            display_text(line) == head + spaced(sym@.take(k as int)),
        decreases j + 1 - k,
    {
        let c = sym.get_char(k);
        proof {
            lemma_spaced_len(sym@.take(k as int));
        }
        push_ascii(&mut line, c);
        push_ascii(&mut line, ' ');
        assert(sym@.take(k + 1).drop_last() == sym@.take(k as int));
        assert(display_text(line) =~= head + spaced(sym@.take(k + 1)));
        k = k + 1;
    }
    line
}

/// A frame with the light off and the tone silent.
fn quiet_frame(text: heapless::String<DISPLAY_CAPACITY>, hold_ms: u64) -> (r: Frame)
    ensures
        r@ == quiet(display_text(text), hold_ms),
{
    Frame { text, light: Light::Off, tone: Tone::Silent, hold_ms }
}

/// Plays one message: yields its frames one step at a time, from the start
/// banner to the return of every channel to idle.
#[derive(Debug)]
pub struct PlaybackController {
    message: EncodedMessage,
    phase: Phase,
    light: Light,
    tone: Tone,
    failures: u32,
}

impl PlaybackController {
    /// The units being played.
    pub closed spec fn spec_units(&self) -> Seq<(char, Seq<char>)> {
        self.message@
    }

    /// Where the state machine stands.
    pub closed spec fn spec_phase(&self) -> Phase {
        self.phase
    }

    /// The light as last set.
    pub closed spec fn spec_light(&self) -> Light {
        self.light
    }

    /// The tone as last set.
    pub closed spec fn spec_tone(&self) -> Tone {
        self.tone
    }

    /// Device writes reported as failed.
    pub closed spec fn spec_failures(&self) -> u32 {
        self.failures
    }

    /// The message is well formed, the phase refers to units and symbols it
    /// has, and when idle the light is off and the tone silent.
    pub closed spec fn wf(&self) -> bool {
        &&& self.message.wf()
        &&& phase_wf(self.message@, self.phase)
        &&& self.phase == Phase::Idle ==> (self.light == Light::Off && self.tone == Tone::Silent)
    }

    /// A controller for `message`, about to show the start banner.
    pub fn new(message: EncodedMessage) -> (r: PlaybackController)
        requires
            message.wf(),
        ensures
            r.wf(),
            r.spec_units() == message@,
            r.spec_phase() == Phase::AnnouncingStart,
            r.spec_light() == Light::Off,
            r.spec_tone() == Tone::Silent,
            r.spec_failures() == 0,
    {
        PlaybackController {
            message,
            phase: Phase::AnnouncingStart,
            light: Light::Off,
            tone: Tone::Silent,
            failures: 0,
        }
    }

    /// A controller with nothing to play.
    pub fn idle() -> (r: PlaybackController)
        ensures
            r.wf(),
            r.spec_units() == Seq::<(char, Seq<char>)>::empty(),
            r.spec_phase() == Phase::Idle,
            r.spec_light() == Light::Off,
            r.spec_tone() == Tone::Silent,
            r.spec_failures() == 0,
    {
        PlaybackController {
            message: EncodedMessage::empty(),
            phase: Phase::Idle,
            light: Light::Off,
            tone: Tone::Silent,
            failures: 0,
        }
    }

    /// Encodes `text` and readies it for playback. Where it has more units
    /// than a message holds, the text is discarded with `CapacityExceeded`
    /// and no controller, so nothing is shown.
    pub fn from_text(text: &str) -> (r: Result<PlaybackController, EncodeError>)
        ensures
            match r {
                Ok(c) => {
                    &&& spec_encode(text@).len() <= CAPACITY
                    &&& c.wf()
                    &&& c.spec_units() == spec_encode(text@)
                    &&& c.spec_phase() == Phase::AnnouncingStart
                    &&& c.spec_light() == Light::Off
                    &&& c.spec_tone() == Tone::Silent
                    &&& c.spec_failures() == 0
                },
                Err(e) => e == EncodeError::CapacityExceeded && spec_encode(text@).len() > CAPACITY,
            },
    {
        match encode(text) {
            Ok(m) => Ok(PlaybackController::new(m)),
            Err(e) => Err(e),
        }
    }

    /// Decodes a received payload as UTF-8 and readies its text for
    /// playback. A payload that is not valid UTF-8 is dropped with
    /// `MalformedInput`; a text with more units than a message holds with
    /// `CapacityExceeded`. Either way no controller is made, so nothing is shown.
    pub fn from_payload(bytes: &[u8]) -> (r: Result<PlaybackController, MessageError>)
        ensures
            match r {
                Ok(c) => {
                    &&& valid_utf8(bytes@)
                    &&& spec_encode(decode_utf8(bytes@)).len() <= CAPACITY
                    &&& c.wf()
                    &&& c.spec_units() == spec_encode(decode_utf8(bytes@))
                    &&& c.spec_phase() == Phase::AnnouncingStart
                    &&& c.spec_light() == Light::Off
                    &&& c.spec_tone() == Tone::Silent
                    &&& c.spec_failures() == 0
                },
                Err(MessageError::MalformedInput) => !valid_utf8(bytes@),
                Err(MessageError::CapacityExceeded) => {
                    &&& valid_utf8(bytes@)
                    &&& spec_encode(decode_utf8(bytes@)).len() > CAPACITY
                },
            },
    {
        match text_of_bytes(bytes) {
            None => Err(MessageError::MalformedInput),
            Some(text) => match PlaybackController::from_text(text) {
                Ok(c) => Ok(c),
                Err(_) => Err(MessageError::CapacityExceeded),
            },
        }
    }

    /// Where the state machine stands.
    pub fn phase(&self) -> (r: Phase)
        ensures
            r == self.spec_phase(),
    {
        self.phase
    }

    /// Whether playback is over.
    pub fn is_idle(&self) -> (r: bool)
        ensures
            r == (self.spec_phase() == Phase::Idle),
    {
        self.phase == Phase::Idle
    }

    /// The light and the tone as last set.
    pub fn channels(&self) -> (r: (Light, Tone))
        ensures
            r == (self.spec_light(), self.spec_tone()),
    {
        (self.light, self.tone)
    }

    /// Device writes reported as failed.
    pub fn failures(&self) -> (r: u32)
        ensures
            r == self.spec_failures(),
    {
        self.failures
    }

    /// Notes a failed device write. Playback goes on as before: the phase,
    /// the message and the channels are untouched, so a controller that is
    /// idle still has the light off and the tone silent.
    pub fn record_failure(&mut self)
        requires
            old(self).wf(),
        ensures
            final(self).wf(),
            final(self).spec_units() == old(self).spec_units(),
            final(self).spec_phase() == old(self).spec_phase(),
            final(self).spec_light() == old(self).spec_light(),
            final(self).spec_tone() == old(self).spec_tone(),
            final(self).spec_phase() == Phase::Idle ==> (final(self).spec_light() == Light::Off
                && final(self).spec_tone() == Tone::Silent),
            final(self).spec_failures() == if old(self).spec_failures() == u32::MAX {
                u32::MAX
            } else {
                (old(self).spec_failures() + 1) as u32
            },
    {
        self.failures = self.failures.saturating_add(1);
    }

    /// Takes one step: returns the frame to show, or `None` once idle, and
    /// moves to the next phase as `spec_step` says. The light and the tone
    /// are recorded as the frame sets them.
    pub fn step(&mut self) -> (r: Option<Frame>)
        requires
            old(self).wf(),
        ensures
            final(self).wf(),
            final(self).spec_units() == old(self).spec_units(),
            final(self).spec_failures() == old(self).spec_failures(),
            final(self).spec_phase() == spec_step(old(self).spec_units(), old(self).spec_phase()).0,
            final(self).spec_phase() == Phase::Idle ==> (final(self).spec_light() == Light::Off
                && final(self).spec_tone() == Tone::Silent),
            match r {
                Some(f) => {
                    &&& spec_step(old(self).spec_units(), old(self).spec_phase()).1 == Some(f@)
                    &&& final(self).spec_light() == f.light
                    &&& final(self).spec_tone() == f.tone
                },
                None => {
                    &&& spec_step(old(self).spec_units(), old(self).spec_phase()).1 is None
                    &&& final(self).spec_light() == old(self).spec_light()
                    &&& final(self).spec_tone() == old(self).spec_tone()
                },
            },
    {
        let ghost u = self.message@;
        let n = self.message.len();
        let (next, frame): (Phase, Option<Frame>) = match self.phase {
            Phase::Idle => (Phase::Idle, None),
            Phase::AnnouncingStart => {
                let next = if n == 0 {
                    Phase::AnnouncingDone
                } else {
                    Phase::EmittingUnit(0)
                };
                (next, Some(quiet_frame(start_line(), BANNER_HOLD_MS)))
            },
            Phase::EmittingUnit(i) => {
                let sym = self.message.units()[i].1;
                assert(sym@ == u[i as int].1);
                let next = if sym.unicode_len() > 0 {
                    Phase::EmittingSymbol(i, 0)
                } else if i + 1 < n {
                    Phase::InterUnitGap(i)
                } else {
                    Phase::AnnouncingDone
                };
                (next, Some(quiet_frame(header_line(&self.message, i), UNIT_HOLD_MS)))
            },
            Phase::EmittingSymbol(i, j) => {
                let sym = self.message.units()[i].1;
                assert(sym@ == u[i as int].1);
                let c = sym.get_char(j);
                let text = symbol_line_of(&self.message, i, j);
                let frame = if c == '.' {
                    Frame { text, light: Light::DotColor, tone: Tone::Dot, hold_ms: DOT_HOLD_MS }
                } else {
                    Frame { text, light: Light::DashColor, tone: Tone::Dash, hold_ms: DASH_HOLD_MS }
                };
                (Phase::InterSymbolGap(i, j), Some(frame))
            },
            Phase::InterSymbolGap(i, j) => {
                let sym = self.message.units()[i].1;
                assert(sym@ == u[i as int].1);
                let len = sym.unicode_len();
                let next = if j + 1 < len {
                    Phase::EmittingSymbol(i, j + 1)
                } else if i + 1 < n {
                    Phase::InterUnitGap(i)
                } else {
                    Phase::AnnouncingDone
                };
                (next, Some(quiet_frame(symbol_line_of(&self.message, i, j), 0)))
            },
            Phase::InterUnitGap(i) => {
                (Phase::EmittingUnit(i + 1), Some(quiet_frame(text_new(), UNIT_HOLD_MS)))
            },
            Phase::AnnouncingDone => {
                let frame = Frame {
                    text: done_line(),
                    light: Light::DoneColor,
                    tone: Tone::Silent,
                    hold_ms: BANNER_HOLD_MS,
                };
                (Phase::Resetting, Some(frame))
            },
            Phase::Resetting => (Phase::Idle, Some(quiet_frame(done_line(), 0))),
        };
        match &frame {
            Some(f) => {
                self.light = f.light;
                self.tone = f.tone;
            },
            None => {},
        }
        self.phase = next;
        frame
    }
}

/// An upper bound on the steps left before the state machine is idle.
pub open spec fn steps_left(u: Seq<(char, Seq<char>)>, p: Phase) -> int {
    match p {
        Phase::Idle => 0,
        Phase::Resetting => 1,
        Phase::AnnouncingDone => 2,
        Phase::AnnouncingStart => 3 + 13 * (u.len() as int),
        Phase::EmittingUnit(i) => 2 + 13 * (u.len() - i),
        Phase::EmittingSymbol(i, j) => 1 + 13 * (u.len() - i) - 2 * j,
        Phase::InterSymbolGap(i, j) => 13 * (u.len() - i) - 2 * j,
        Phase::InterUnitGap(i) => 13 * (u.len() - i) - 10,
    }
}

/// Playback always ends: each step from a phase other than `Idle` yields a
/// frame, keeps the phase well formed and brings idleness strictly closer;
/// `Idle` yields nothing and stays `Idle`.
pub proof fn lemma_step_progress(u: Seq<(char, Seq<char>)>, p: Phase)
    requires
        u.len() <= CAPACITY,
        units_wf(u),
        phase_wf(u, p),
    ensures
        phase_wf(u, spec_step(u, p).0),
        p == Phase::Idle ==> spec_step(u, p) == (Phase::Idle, None::<FrameView>),
        p != Phase::Idle ==> {
            &&& spec_step(u, p).1 is Some
            &&& 0 <= steps_left(u, spec_step(u, p).0) < steps_left(u, p)
        },
{
    match p {
        Phase::EmittingUnit(i) => {
            lemma_unit_shape(u[i as int].0);
        },
        Phase::EmittingSymbol(i, j) => {
            lemma_unit_shape(u[i as int].0);
        },
        Phase::InterSymbolGap(i, j) => {
            lemma_unit_shape(u[i as int].0);
        },
        _ => {},
    }
}

/// Idle at the end: the step that brings playback to `Idle` shows a frame
/// with the light off and the tone silent, and the display on the
/// completion banner.
pub proof fn lemma_finish_idle(u: Seq<(char, Seq<char>)>, p: Phase)
    requires
        p != Phase::Idle,
        spec_step(u, p).0 == Phase::Idle,
    ensures
        spec_step(u, p).1 == Some(quiet(done_banner(), 0)),
        !quiet(done_banner(), 0).active(),
{
}

/// No two activations overlap: a step whose frame lights the light or
/// sounds the tone is always followed by a step whose frame does neither.
pub proof fn lemma_active_then_quiet(u: Seq<(char, Seq<char>)>, p: Phase)
    requires
        units_wf(u),
        phase_wf(u, p),
        spec_step(u, p).1 is Some,
        spec_step(u, p).1->Some_0.active(),
    ensures
        spec_step(u, spec_step(u, p).0).1 is Some,
        !spec_step(u, spec_step(u, p).0).1->Some_0.active(),
{
}

/// A word separator lights nothing: the step on an empty-symbol unit shows
/// a quiet frame and goes straight to the pause after the unit.
pub proof fn lemma_separator_quiet(u: Seq<(char, Seq<char>)>, i: usize)
    requires
        i < u.len(),
        u[i as int].1.len() == 0,
    ensures
        spec_step(u, Phase::EmittingUnit(i)) == (
            after_unit(u, i as int),
            Some(quiet(header(u, i as int), UNIT_HOLD_MS)),
        ),
{
}

} // verus!
