//! The AE-5's five onboard RGB LEDs: the names the patched driver gives
//! them, the files that hold their colors, the saved lighting, and the
//! write transaction that rolls back when one LED refuses a color.

use vstd::prelude::*;
use vstd::string::*;

use crate::text;
use crate::text::{
    ends_with, owned, parse_unsigned_text, push_decimal, push_str, push_upper_hex2, rfind,
    split_whitespace, str_eq, trim, u16_parse_error,
};

verus! {

/// The number of onboard LEDs.
pub const ONBOARD_LED_COUNT: usize = 5;

/// The version of the saved lighting format.
pub const LIGHTING_FORMAT_VERSION: u32 = 1;

/// The card a saved lighting belongs to.
pub const LIGHTING_TARGET: &'static str = "1102:0012/1102:0051";

/// The largest saved lighting file that is read.
pub const MAX_LIGHTING_CONFIG_BYTES: u64 = 4096;

/// The marker between the driver's device name and an LED's number.
pub const LED_NAME_MARKER: &'static str = ":rgb:ae5-";

/// The color of one LED.
#[derive(Clone, Copy, Debug, PartialEq, Eq, Structural)]
pub struct RgbColor {
    pub red: u8,
    pub green: u8,
    pub blue: u8,
}

/// A color as `#RRGGBB`.
pub open spec fn color_text(c: RgbColor) -> Seq<char> {
    "#"@ + text::upper_hex2(c.red) + text::upper_hex2(c.green) + text::upper_hex2(c.blue)
}

impl RgbColor {
    /// The color with these channel values.
    pub fn new(red: u8, green: u8, blue: u8) -> (r: Self)
        ensures
            r == (RgbColor { red, green, blue }),
    {
        RgbColor { red, green, blue }
    }

    /// The color as `#RRGGBB`, as users see it.
    pub fn hex_text(&self) -> (r: String)
        ensures
            r@ == color_text(*self),
    {
        let mut s = owned("#");
        push_upper_hex2(&mut s, self.red);
        push_upper_hex2(&mut s, self.green);
        push_upper_hex2(&mut s, self.blue);
        s
    }
}

/// What the Lighting page says of the current colors: the one color all
/// LEDs share, or that they differ.
pub open spec fn lighting_summary_text(colors: Seq<RgbColor>) -> Seq<char> {
    if forall|i: int| 0 <= i < colors.len() ==> #[trigger] colors[i] == colors[0] {
        "All five LEDs are "@ + color_text(colors[0])
    } else {
        "The five LEDs currently use different colors"@
    }
}

/// The Lighting page names one color only when every LED shows it: when
/// any two of the five LEDs differ, the summary says the colors differ, and
/// when all five show the same color, it names that color.
pub proof fn lemma_lighting_summary_names_only_a_shared_color(colors: Seq<RgbColor>, i: int, j: int)
    requires
        colors.len() == ONBOARD_LED_COUNT,
        0 <= i < ONBOARD_LED_COUNT,
        0 <= j < ONBOARD_LED_COUNT,
    ensures
        colors[i] != colors[j] ==> lighting_summary_text(colors) == "The five LEDs currently use different colors"@,
        (forall|k: int| 0 <= k < ONBOARD_LED_COUNT ==> #[trigger] colors[k] == colors[i])
            ==> lighting_summary_text(colors) == "All five LEDs are "@ + color_text(colors[i]),
{
    if colors[i] != colors[j] {
        assert(colors[i] != colors[0] || colors[j] != colors[0]);
    }
    if forall|k: int| 0 <= k < ONBOARD_LED_COUNT ==> #[trigger] colors[k] == colors[i] {
        assert(colors[0] == colors[i]);
    }
}

/// What the Lighting page says of the current colors.
pub fn lighting_summary(colors: &[RgbColor; ONBOARD_LED_COUNT]) -> (r: String)
    ensures
        r@ == lighting_summary_text(colors@),
{
    let mut i: usize = 1;
    while i < ONBOARD_LED_COUNT
        invariant
            1 <= i <= ONBOARD_LED_COUNT,
            colors@.len() == ONBOARD_LED_COUNT,
            forall|j: int| 0 <= j < i ==> #[trigger] colors@[j] == colors@[0],
        decreases ONBOARD_LED_COUNT - i,
    {
        if colors[i] != colors[0] {
            return owned("The five LEDs currently use different colors");
        }
        i += 1;
    }
    let mut out = owned("All five LEDs are ");
    let hex = colors[0].hex_text();
    push_str(&mut out, hex.as_str());
    out
}

impl Default for RgbColor {
    /// Black: every channel off.
    fn default() -> (r: Self)
        ensures
            r == (RgbColor { red: 0, green: 0, blue: 0 }),
    {
        RgbColor { red: 0, green: 0, blue: 0 }
    }
}

/// A failed lighting operation, by the kind of I/O error it reports.
#[derive(Debug, Eq, PartialEq)]
pub enum LightingError {
    /// A file holds something other than what the driver writes.
    InvalidData(String),
    /// The LEDs are not all there.
    NotFound(String),
    /// The request names no LED.
    InvalidInput(String),
    /// An I/O operation failed, or a rollback failed after it.
    Other(String),
}

/// The text a user sees for a lighting error.
pub open spec fn lighting_error_text(e: LightingError) -> Seq<char> {
    match e {
        LightingError::InvalidData(m) => m@,
        LightingError::NotFound(m) => m@,
        LightingError::InvalidInput(m) => m@,
        LightingError::Other(m) => m@,
    }
}

impl Clone for LightingError {
    fn clone(&self) -> (r: Self)
        ensures
            r == *self,
    {
        match self {
            LightingError::InvalidData(m) => LightingError::InvalidData(m.clone()),
            LightingError::NotFound(m) => LightingError::NotFound(m.clone()),
            LightingError::InvalidInput(m) => LightingError::InvalidInput(m.clone()),
            LightingError::Other(m) => LightingError::Other(m.clone()),
        }
    }
}

impl LightingError {
    /// The text a user sees for this error.
    pub fn message(&self) -> (r: String)
        ensures
            r@ == lighting_error_text(*self),
    {
        match self {
            LightingError::InvalidData(m) => m.clone(),
            LightingError::NotFound(m) => m.clone(),
            LightingError::InvalidInput(m) => m.clone(),
            LightingError::Other(m) => m.clone(),
        }
    }
}

/// The saved lighting.
#[derive(Clone, Debug, Eq, PartialEq)]
pub struct LightingConfig {
    pub format_version: u32,
    pub target: String,
    pub leds: [RgbColor; ONBOARD_LED_COUNT],
}

/// Why a saved lighting is refused, if it is.
pub open spec fn lighting_config_problem(c: LightingConfig) -> Option<Seq<char>> {
    if c.format_version != LIGHTING_FORMAT_VERSION {
        Some("unsupported lighting format version "@ + text::decimal(c.format_version as nat))
    } else if c.target@ != LIGHTING_TARGET@ {
        Some("lighting targets '"@ + c.target@ + "', expected '"@ + LIGHTING_TARGET@ + "'"@)
    } else {
        None
    }
}

/// The message for a saved lighting file that is too large.
pub open spec fn too_large_text() -> Seq<char> {
    "lighting configuration is too large"@
}

impl LightingConfig {
    /// The lighting to save for these LED colors.
    pub fn new(leds: [RgbColor; ONBOARD_LED_COUNT]) -> (r: Self)
        ensures
            r.format_version == LIGHTING_FORMAT_VERSION,
            r.target@ == LIGHTING_TARGET@,
            r.leds == leds,
    {
        LightingConfig { format_version: LIGHTING_FORMAT_VERSION, target: owned(LIGHTING_TARGET), leds }
    }

    /// Refuses a lighting of another format version or for another card.
    pub fn validate(&self) -> (r: Result<(), LightingError>)
        ensures
            match lighting_config_problem(*self) {
                Some(m) => r matches Err(LightingError::InvalidData(x)) && x@ == m,
                None => r is Ok,
            },
    {
        if self.format_version != LIGHTING_FORMAT_VERSION {
            let mut m = owned("unsupported lighting format version ");
            push_decimal(&mut m, self.format_version as u64);
            return Err(LightingError::InvalidData(m));
        }
        if !str_eq(self.target.as_str(), LIGHTING_TARGET) {
            let mut m = owned("lighting targets '");
            push_str(&mut m, self.target.as_str());
            push_str(&mut m, "', expected '");
            push_str(&mut m, LIGHTING_TARGET);
            push_str(&mut m, "'");
            return Err(LightingError::InvalidData(m));
        }
        Ok(())
    }

    /// The saved lighting from a read of its file: `None` when the file
    /// does not exist, else its size in bytes and what parsing it gave.
    pub fn load(stored: Option<(u64, Result<LightingConfig, String>)>) -> (r: Result<Option<LightingConfig>, LightingError>)
        ensures
            stored is None ==> r == Ok::<Option<LightingConfig>, LightingError>(None),
            stored matches Some((size, parsed)) ==> if size > MAX_LIGHTING_CONFIG_BYTES {
                r matches Err(LightingError::InvalidData(x)) && x@ == too_large_text()
            } else {
                match parsed {
                    Err(m) => r matches Err(LightingError::InvalidData(x)) && x@ == m@,
                    Ok(c) => match lighting_config_problem(c) {
                        Some(m) => r matches Err(LightingError::InvalidData(x)) && x@ == m,
                        None => r == Ok::<Option<LightingConfig>, LightingError>(Some(c)),
                    },
                }
            },
    {
        match stored {
            None => Ok(None),
            Some((size, parsed)) => {
                if size > MAX_LIGHTING_CONFIG_BYTES {
                    return Err(LightingError::InvalidData(owned("lighting configuration is too large")));
                }
                match parsed {
                    Err(m) => Err(LightingError::InvalidData(m)),
                    Ok(c) => {
                        c.validate()?;
                        Ok(Some(c))
                    },
                }
            },
        }
    }
}

/// The LED an entry of `/sys/class/leds` is, counted from zero: a name
/// that ends, after its last `:rgb:ae5-` and a non-empty device part, in
/// one of the numbers 1 to 5 written plainly.
pub open spec fn led_index_of(name: Seq<char>) -> Option<int> {
    match text::rfind_from(name, LED_NAME_MARKER@, name.len() - LED_NAME_MARKER@.len()) {
        Some(k) => {
            let suffix = name.subrange(k + LED_NAME_MARKER@.len(), name.len() as int);
            if k > 0 && suffix.len() == 1 && '1' <= suffix[0] && suffix[0] <= '5' {
                Some(suffix[0] as int - '1' as int)
            } else {
                None
            }
        },
        None => None,
    }
}

/// The LED a `/sys/class/leds` entry is, counted from zero, if it is one.
pub fn led_index(name: &str) -> (r: Option<usize>)
    ensures
        match led_index_of(name@) {
            Some(i) => r == Some(i as usize) && i < ONBOARD_LED_COUNT,
            None => r is None,
        },
{
    proof {
        reveal_strlit(":rgb:ae5-");
        text::lemma_rfind_from_bounds(name@, LED_NAME_MARKER@, name@.len() - LED_NAME_MARKER@.len());
    }
    let k = match rfind(name, LED_NAME_MARKER) {
        Some(k) => k,
        None => return None,
    };
    let n = name.unicode_len();
    if k == 0 || n - k != 10 {
        return None;
    }
    let c = name.get_char(k + 9);
    if '1' <= c && c <= '5' {
        let index = (c as u32 - '1' as u32) as usize;
        Some(index)
    } else {
        None
    }
}

/// Why an LED's channel order is refused, if it is.
pub open spec fn channel_order_problem(path: Seq<char>, multi_index: Seq<char>) -> Option<Seq<char>> {
    if text::trimmed(multi_index) != "red green blue"@ {
        Some(path + " has an unexpected multicolor channel order"@)
    } else {
        None
    }
}

/// Refuses an LED whose `multi_index` file lists another channel order.
pub fn check_led_channels(path: &str, multi_index: &str) -> (r: Result<(), LightingError>)
    ensures
        match channel_order_problem(path@, multi_index@) {
            Some(m) => r matches Err(LightingError::InvalidData(x)) && x@ == m,
            None => r is Ok,
        },
{
    let order = trim(multi_index);
    if !str_eq(order.as_str(), "red green blue") {
        let mut m = owned(path);
        push_str(&mut m, " has an unexpected multicolor channel order");
        return Err(LightingError::InvalidData(m));
    }
    Ok(())
}

/// The number a sysfs file holds: its trimmed text read as a `u16`.
pub open spec fn sysfs_number(contents: Seq<char>) -> Result<u16, Seq<char>> {
    match text::parse_unsigned(text::trimmed(contents), 65535) {
        Some(v) => Ok(v as u16),
        None => Err(text::u16_parse_error_text(text::trimmed(contents))),
    }
}

/// Reads the number a sysfs file holds.
pub fn read_number(contents: &str) -> (r: Result<u16, LightingError>)
    ensures
        match sysfs_number(contents@) {
            Ok(v) => r == Ok::<u16, LightingError>(v),
            Err(m) => r matches Err(LightingError::InvalidData(x)) && x@ == m,
        },
{
    let t = trim(contents);
    match parse_unsigned_text(t.as_str(), 65535) {
        Some(v) => Ok(v as u16),
        None => Err(LightingError::InvalidData(u16_parse_error(t.as_str()))),
    }
}

/// LEDs found so far while the LED directory is listed: the path of each,
/// by position.
pub struct LedDiscovery {
    found: Vec<Option<String>>,
}

impl LedDiscovery {
    /// The paths found so far, by position.
    pub closed spec fn found_view(self) -> Seq<Option<Seq<char>>> {
        self.found@.map_values(|f: Option<String>| text::opt_string_view(f))
    }

    /// The discovery holds one slot per LED.
    pub closed spec fn wf(self) -> bool {
        self.found@.len() == ONBOARD_LED_COUNT
    }

    /// No LED found yet.
    pub fn new() -> (r: Self)
        ensures
            r.wf(),
            r.found_view() == seq![None::<Seq<char>>, None, None, None, None],
    {
        let r = LedDiscovery { found: vec![None, None, None, None, None] };
        assert(r.found_view() =~= seq![None::<Seq<char>>, None, None, None, None]);
        r
    }

    /// Adds the LED at position `index` (from `led_index`) found at `path`,
    /// with the contents of its `max_brightness` file; its channel order was
    /// checked before.  A brightness limit other than 255 and a second LED
    /// at the same position are refused.
    pub fn add(&mut self, index: usize, path: String, max_brightness: &str) -> (r: Result<(), LightingError>)
        requires
            old(self).wf(),
            index < ONBOARD_LED_COUNT,
        ensures
            final(self).wf(),
            match sysfs_number(max_brightness@) {
                Err(m) => r matches Err(LightingError::InvalidData(x)) && x@ == m && final(self).found_view() == old(self).found_view(),
                Ok(v) => if v != 255 {
                    r matches Err(LightingError::InvalidData(x)) && x@ == path@ + " has an unexpected maximum brightness"@
                        && final(self).found_view() == old(self).found_view()
                } else if old(self).found_view()[index as int] is Some {
                    r matches Err(LightingError::InvalidData(x)) && x@ == "duplicate AE-5 onboard LED "@ + text::decimal(index as nat + 1)
                        && final(self).found_view() == old(self).found_view()
                } else {
                    r is Ok && final(self).found_view() == old(self).found_view().update(index as int, Some(path@))
                },
            },
    {
        let max = read_number(max_brightness)?;
        if max != 255 {
            let mut m = path.clone();
            push_str(&mut m, " has an unexpected maximum brightness");
            return Err(LightingError::InvalidData(m));
        }
        if self.found[index].is_some() {
            let mut m = owned("duplicate AE-5 onboard LED ");
            push_decimal(&mut m, index as u64 + 1);
            return Err(LightingError::InvalidData(m));
        }
        let ghost before = self.found@;
        self.found.set(index, Some(path));
        assert(self.found_view() =~= before.map_values(|f: Option<String>| text::opt_string_view(f)).update(index as int, Some(path@)));
        Ok(())
    }

    /// The LEDs, when all five were found.
    pub fn finish(&self) -> (r: Result<Ae5Lighting, LightingError>)
        requires
            self.wf(),
        ensures
            (forall|i: int| 0 <= i < ONBOARD_LED_COUNT ==> (#[trigger] self.found_view()[i]) is Some) ==> (r matches Ok(l) && forall|i: int|
                0 <= i < ONBOARD_LED_COUNT ==> Some(#[trigger] l.leds@[i]@) == self.found_view()[i]),
            !(forall|i: int| 0 <= i < ONBOARD_LED_COUNT ==> (#[trigger] self.found_view()[i]) is Some) ==> (r matches Err(LightingError::NotFound(x))
                && x@ == "expected 5 AE-5 onboard LEDs from the patched CA0132 driver"@),
    {
        let mut i: usize = 0;
        while i < ONBOARD_LED_COUNT
            invariant
                self.wf(),
                i <= ONBOARD_LED_COUNT,
                forall|j: int| 0 <= j < i ==> (#[trigger] self.found_view()[j]) is Some,
            decreases ONBOARD_LED_COUNT - i,
        {
            if self.found[i].is_none() {
                assert(self.found_view()[i as int] is None);
                return Err(LightingError::NotFound(owned("expected 5 AE-5 onboard LEDs from the patched CA0132 driver")));
            }
            i += 1;
        }
        let leds = [
            slot_path(&self.found[0]),
            slot_path(&self.found[1]),
            slot_path(&self.found[2]),
            slot_path(&self.found[3]),
            slot_path(&self.found[4]),
        ];
        proof {
            assert forall|i: int| 0 <= i < ONBOARD_LED_COUNT implies Some(#[trigger] leds@[i]@) == self.found_view()[i] by {
                assert(self.found_view()[i] == text::opt_string_view(self.found@[i]));
            }
        }
        Ok(Ae5Lighting { leds })
    }
}

/// The path in a filled slot.
fn slot_path(slot: &Option<String>) -> (r: String)
    ensures
        slot is Some ==> r@ == slot->0@,
{
    match slot {
        Some(p) => p.clone(),
        None => String::new(),
    }
}

/// The five onboard LEDs, by the sysfs directory of each.
#[derive(Clone, Debug, Eq, PartialEq)]
pub struct Ae5Lighting {
    pub leds: [String; ONBOARD_LED_COUNT],
}

/// Why one intensity value is refused, if it is.
pub open spec fn intensity_word_problem(w: Seq<char>) -> Option<Seq<char>> {
    match text::parse_unsigned(w, 65535) {
        None => Some(text::u16_parse_error_text(w)),
        Some(v) => if v > 255 {
            Some("lighting intensity exceeds 255"@)
        } else {
            None
        },
    }
}

/// The problem of the first refused intensity value at or after `i`.
pub open spec fn first_intensity_problem(ws: Seq<Seq<char>>, i: int) -> Option<Seq<char>>
    decreases ws.len() - i,
{
    if i < 0 || i >= ws.len() {
        None
    } else {
        match intensity_word_problem(ws[i]) {
            Some(m) => Some(m),
            None => first_intensity_problem(ws, i + 1),
        }
    }
}

/// The red, green and blue intensities a `multi_intensity` file holds, or
/// why they are refused: the first value that is not a number up to 255,
/// else a count other than three.
pub open spec fn led_intensity(contents: Seq<char>) -> Result<Seq<u8>, Seq<char>> {
    let ws = text::words_from(text::trimmed(contents), 0);
    match first_intensity_problem(ws, 0) {
        Some(m) => Err(m),
        None => if ws.len() != 3 {
            Err("lighting intensity must contain red, green, and blue"@)
        } else {
            Ok(Seq::new(3, |i: int| text::parse_unsigned(ws[i], 65535)->0 as u8))
        },
    }
}

/// Reads the red, green and blue intensities of a `multi_intensity` file.
pub fn parse_led_intensity(contents: &str) -> (r: Result<[u8; 3], LightingError>)
    ensures
        match led_intensity(contents@) {
            Ok(v) => r matches Ok(a) && a@ == v,
            Err(m) => r matches Err(LightingError::InvalidData(x)) && x@ == m,
        },
{
    let t = trim(contents);
    let words = split_whitespace(t.as_str());
    let ghost ws = text::strings_view(words@);
    let mut values: Vec<u8> = Vec::new();
    let mut i: usize = 0;
    while i < words.len()
        invariant
            i <= words@.len(),
            ws == text::strings_view(words@),
            ws == text::words_from(text::trimmed(contents@), 0),
            first_intensity_problem(ws, 0) == first_intensity_problem(ws, i as int),
            values@.len() == i,
            forall|j: int| 0 <= j < i ==> intensity_word_problem(#[trigger] ws[j]) is None
                && values@[j] == text::parse_unsigned(ws[j], 65535)->0 as u8,
        decreases words.len() - i,
    {
        let w = words[i].as_str();
        assert(ws[i as int] == w@);
        match parse_unsigned_text(w, 65535) {
            None => {
                return Err(LightingError::InvalidData(u16_parse_error(w)));
            },
            Some(v) => {
                if v > 255 {
                    return Err(LightingError::InvalidData(owned("lighting intensity exceeds 255")));
                }
                values.push(v as u8);
            },
        }
        i += 1;
    }
    if values.len() != 3 {
        return Err(LightingError::InvalidData(owned("lighting intensity must contain red, green, and blue")));
    }
    let a = [values[0], values[1], values[2]];
    assert(a@ =~= Seq::new(3, |k: int| text::parse_unsigned(ws[k], 65535)->0 as u8));
    Ok(a)
}

/// One channel as seen at a brightness: `(value * brightness + 127) / 255`.
pub open spec fn scaled(value: u8, brightness: u8) -> u8 {
    ((value as int * brightness as int + 127) / 255) as u8
}

/// The color an LED shows with these intensities and the contents of its
/// `brightness` file, or why the brightness is refused.
pub open spec fn led_color(intensity: Seq<u8>, brightness: Seq<char>) -> Result<RgbColor, Seq<char>> {
    match sysfs_number(brightness) {
        Err(m) => Err(m),
        Ok(b) => if b > 255 {
            Err("lighting brightness exceeds 255"@)
        } else {
            Ok(RgbColor {
                red: scaled(intensity[0], b as u8),
                green: scaled(intensity[1], b as u8),
                blue: scaled(intensity[2], b as u8),
            })
        },
    }
}

/// One channel scaled by a brightness.
fn scale(value: u8, brightness: u8) -> (r: u8)
    ensures
        r == scaled(value, brightness),
{
    assert((value as u32) * (brightness as u32) <= 65025) by (nonlinear_arith)
        requires
            value <= 255,
            brightness <= 255,
    ;
    let product: u32 = value as u32 * brightness as u32;
    ((product + 127) / 255) as u8
}

/// The color an LED shows, from its intensities and its `brightness` file.
pub fn read_color(intensity: &[u8; 3], brightness: &str) -> (r: Result<RgbColor, LightingError>)
    ensures
        match led_color(intensity@, brightness@) {
            Ok(c) => r == Ok::<RgbColor, LightingError>(c),
            Err(m) => r matches Err(LightingError::InvalidData(x)) && x@ == m,
        },
{
    let b = read_number(brightness)?;
    if b > 255 {
        return Err(LightingError::InvalidData(owned("lighting brightness exceeds 255")));
    }
    let b = b as u8;
    Ok(RgbColor { red: scale(intensity[0], b), green: scale(intensity[1], b), blue: scale(intensity[2], b) })
}

/// The `multi_intensity` text that sets a color: `r g b` and a line feed.
pub open spec fn intensity_text(c: RgbColor) -> Seq<char> {
    text::decimal(c.red as nat) + " "@ + text::decimal(c.green as nat) + " "@ + text::decimal(c.blue as nat) + "\n"@
}

/// The `multi_intensity` text that sets a color.
pub fn write_color_text(color: RgbColor) -> (r: String)
    ensures
        r@ == intensity_text(color),
{
    let mut s = String::new();
    push_decimal(&mut s, color.red as u64);
    push_str(&mut s, " ");
    push_decimal(&mut s, color.green as u64);
    push_str(&mut s, " ");
    push_decimal(&mut s, color.blue as u64);
    push_str(&mut s, "\n");
    s
}

/// Refuses a written color that read back as another.
pub fn check_written_color(path: &str, actual: RgbColor, expected: RgbColor) -> (r: Result<(), LightingError>)
    ensures
        actual == expected ==> r is Ok,
        actual != expected ==> (r matches Err(LightingError::InvalidData(x))
            && x@ == path@ + " read back as "@ + color_text(actual) + ", expected "@ + color_text(expected)),
{
    if actual == expected {
        return Ok(());
    }
    let mut m = owned(path);
    push_str(&mut m, " read back as ");
    let a = actual.hex_text();
    push_str(&mut m, a.as_str());
    push_str(&mut m, ", expected ");
    let e = expected.hex_text();
    push_str(&mut m, e.as_str());
    Err(LightingError::InvalidData(m))
}

/// The message for an LED number outside 1 to 5.
pub open spec fn led_number_text() -> Seq<char> {
    "LED index must be 1 through 5"@
}

/// The position of LED `index`, numbered from 1.
pub fn led_slot(index: usize) -> (r: Result<usize, LightingError>)
    ensures
        1 <= index <= ONBOARD_LED_COUNT ==> r == Ok::<usize, LightingError>((index - 1) as usize),
        !(1 <= index <= ONBOARD_LED_COUNT) ==> (r matches Err(LightingError::InvalidInput(x)) && x@ == led_number_text()),
{
    if !(1 <= index && index <= ONBOARD_LED_COUNT) {
        return Err(LightingError::InvalidInput(owned("LED index must be 1 through 5")));
    }
    Ok(index - 1)
}

/// The colors after LED `index` (numbered from 1) of `before` is set to `color`.
pub fn set_saved_led(index: usize, color: RgbColor, before: &[RgbColor; ONBOARD_LED_COUNT]) -> (r: Result<[RgbColor; ONBOARD_LED_COUNT], LightingError>)
    ensures
        1 <= index <= ONBOARD_LED_COUNT ==> (r matches Ok(c) && c@ == before@.update(index - 1, color)),
        !(1 <= index <= ONBOARD_LED_COUNT) ==> (r matches Err(LightingError::InvalidInput(x)) && x@ == led_number_text()),
{
    let slot = led_slot(index)?;
    let mut colors = *before;
    colors[slot] = color;
    assert(colors@ =~= before@.update(index - 1, color));
    Ok(colors)
}

/// The error of a failed save: the save error itself when the hardware was
/// rolled back, else both failures.
pub fn save_failure(error: &LightingError, rollback: &Result<(), LightingError>) -> (r: LightingError)
    ensures
        rollback is Ok ==> r == *error,
        rollback is Err ==> (r matches LightingError::Other(x) && x@ == "saving lighting failed: "@
            + lighting_error_text(*error) + "; hardware rollback failed: "@ + lighting_error_text(rollback->Err_0)),
{
    match rollback {
        Ok(()) => error.clone(),
        Err(e) => {
            let mut m = owned("saving lighting failed: ");
            let a = error.message();
            push_str(&mut m, a.as_str());
            push_str(&mut m, "; hardware rollback failed: ");
            let b = e.message();
            push_str(&mut m, b.as_str());
            LightingError::Other(m)
        },
    }
}

/// The saved lighting's path in the application directory.
pub open spec fn lighting_path_text(app_dir: Seq<char>) -> Seq<char> {
    if text::has_suffix(app_dir, "/"@) {
        app_dir + "lighting.json"@
    } else {
        app_dir + "/lighting.json"@
    }
}

/// Where the saved lighting lives: `lighting.json` in the application
/// directory that holds the profile library.
pub fn lighting_config_path(app_dir: &str) -> (r: String)
    ensures
        r@ == lighting_path_text(app_dir@),
{
    let mut p = owned(app_dir);
    if ends_with(app_dir, "/") {
        push_str(&mut p, "lighting.json");
    } else {
        push_str(&mut p, "/lighting.json");
    }
    p
}

/// What a lighting write transaction asks the application to do next.
#[derive(Debug, Eq, PartialEq)]
pub enum LightingStep {
    /// Write this color to the LED in this directory, then report how it
    /// went with `ColorTransaction::written`.
    Write(String, RgbColor),
    /// Read the color of the LED in this directory, then report it with
    /// `ColorTransaction::read`.
    Read(String),
    /// The transaction is over, with this outcome.
    Done(Result<(), LightingError>),
}

/// `outcome` is the error of a failed write: the write error itself when
/// the rollback restored every LED, else both failures.
pub open spec fn is_write_failure(outcome: Result<(), LightingError>, failure: LightingError, rollback: Option<LightingError>) -> bool {
    match rollback {
        None => outcome == Err::<(), LightingError>(failure),
        Some(r) => outcome matches Err(LightingError::Other(m)) && m@ == "lighting write failed: "@
            + lighting_error_text(failure) + "; rollback failed: "@ + lighting_error_text(r),
    }
}

/// A write transaction as plain values: the colors before and the colors
/// being written, the LED it is at (5 once it is over), the write failure
/// that started a rollback, the first rollback failure, and whether it
/// waits for the outcome of a write (else of a read).
pub struct TxModel {
    pub before: Seq<RgbColor>,
    pub target: Seq<RgbColor>,
    pub position: int,
    pub failure: Option<LightingError>,
    pub rollback: Option<LightingError>,
    pub awaiting_write: bool,
}

/// A step as plain values, with LEDs by position.
pub enum StepModel {
    Write(int, RgbColor),
    Read(int),
    /// Over: successfully without a failure, else with the write failure
    /// and the first rollback failure.
    Finished(Option<LightingError>, Option<LightingError>),
}

/// The next LED of a rollback, or its end.
pub open spec fn advance_model(t: TxModel) -> (TxModel, StepModel) {
    let next = TxModel { position: t.position + 1, awaiting_write: false, ..t };
    if t.position + 1 < ONBOARD_LED_COUNT {
        (next, StepModel::Read(t.position + 1))
    } else {
        (next, StepModel::Finished(t.failure, t.rollback))
    }
}

/// The first rollback failure, keeping an earlier one.
pub open spec fn keep_first(kept: Option<LightingError>, e: Option<LightingError>) -> Option<LightingError> {
    if kept is Some {
        kept
    } else {
        e
    }
}

/// What reporting a write's outcome does to a transaction.
pub open spec fn written_next(t: TxModel, result: Result<(), LightingError>) -> (TxModel, StepModel) {
    if t.failure is None {
        match result {
            Ok(()) => if t.position + 1 < ONBOARD_LED_COUNT {
                (TxModel { position: t.position + 1, ..t }, StepModel::Write(t.position + 1, t.target[t.position + 1]))
            } else {
                (TxModel { position: ONBOARD_LED_COUNT as int, ..t }, StepModel::Finished(None, None))
            },
            Err(e) => (
                TxModel { position: 0, failure: Some(e), rollback: None, awaiting_write: false, ..t },
                StepModel::Read(0),
            ),
        }
    } else {
        advance_model(TxModel {
            rollback: keep_first(t.rollback, match result {
                Ok(()) => None,
                Err(e) => Some(e),
            }),
            ..t
        })
    }
}

/// What reporting a color read back during a rollback does to a transaction.
pub open spec fn read_next(t: TxModel, result: Result<RgbColor, LightingError>) -> (TxModel, StepModel) {
    match result {
        Ok(actual) => if actual != t.before[t.position] {
            (TxModel { awaiting_write: true, ..t }, StepModel::Write(t.position, t.before[t.position]))
        } else {
            advance_model(t)
        },
        Err(e) => advance_model(TxModel { rollback: keep_first(t.rollback, Some(e)), ..t }),
    }
}

/// Writing colors to the five LEDs one by one; when a write fails, every
/// LED that no longer shows its previous color is written back, and the
/// first rollback failure is kept.
pub struct ColorTransaction {
    paths: Vec<String>,
    before: [RgbColor; ONBOARD_LED_COUNT],
    target: [RgbColor; ONBOARD_LED_COUNT],
    position: usize,
    failure: Option<LightingError>,
    rollback: Option<LightingError>,
    awaiting_write: bool,
}

impl ColorTransaction {
    /// The LED directories, by position.
    pub closed spec fn paths_view(self) -> Seq<Seq<char>> {
        text::strings_view(self.paths@)
    }

    /// The transaction as plain values.
    pub closed spec fn model(self) -> TxModel {
        TxModel {
            before: self.before@,
            target: self.target@,
            position: self.position as int,
            failure: self.failure,
            rollback: self.rollback,
            awaiting_write: self.awaiting_write,
        }
    }

    /// The transaction is consistent: one directory per LED, a position
    /// within the LEDs while it runs, and reads only during a rollback.
    pub closed spec fn wf(self) -> bool {
        &&& self.paths@.len() == ONBOARD_LED_COUNT
        &&& self.position <= ONBOARD_LED_COUNT
        &&& (!self.awaiting_write ==> self.failure is Some)
    }

    /// The transaction is over.
    pub open spec fn is_over(self) -> bool {
        self.model().position >= ONBOARD_LED_COUNT
    }

    /// `r` is the step `s` asks for, with LEDs named by their directories.
    pub open spec fn step_matches(self, r: LightingStep, s: StepModel) -> bool {
        match s {
            StepModel::Write(i, c) => r matches LightingStep::Write(p, rc) && p@ == self.paths_view()[i] && rc == c,
            StepModel::Read(i) => r matches LightingStep::Read(p) && p@ == self.paths_view()[i],
            StepModel::Finished(f, rb) => r matches LightingStep::Done(o) && match f {
                None => o is Ok,
                Some(failure) => is_write_failure(o, failure, rb),
            },
        }
    }

    /// The next LED of a rollback, or the end of the transaction.
    fn advance_rollback(&mut self) -> (r: LightingStep)
        requires
            old(self).wf(),
            old(self).failure is Some,
            old(self).position < ONBOARD_LED_COUNT,
        ensures
            final(self).wf(),
            final(self).paths == old(self).paths,
            final(self).model() == advance_model(old(self).model()).0,
            final(self).step_matches(r, advance_model(old(self).model()).1),
    {
        self.position = self.position + 1;
        self.awaiting_write = false;
        if self.position < ONBOARD_LED_COUNT {
            return LightingStep::Read(self.paths[self.position].clone());
        }
        let failure = match &self.failure {
            Some(f) => f.clone(),
            None => LightingError::Other(String::new()),
        };
        match &self.rollback {
            None => LightingStep::Done(Err(failure)),
            Some(r) => {
                let mut m = owned("lighting write failed: ");
                let a = failure.message();
                push_str(&mut m, a.as_str());
                push_str(&mut m, "; rollback failed: ");
                let b = r.message();
                push_str(&mut m, b.as_str());
                LightingStep::Done(Err(LightingError::Other(m)))
            },
        }
    }

    /// Reports how the last write went.
    pub fn written(&mut self, result: Result<(), LightingError>) -> (r: LightingStep)
        requires
            old(self).wf(),
            old(self).model().awaiting_write,
            !old(self).is_over(),
        ensures
            final(self).wf(),
            final(self).paths_view() == old(self).paths_view(),
            final(self).model() == written_next(old(self).model(), result).0,
            final(self).step_matches(r, written_next(old(self).model(), result).1),
    {
        if self.failure.is_none() {
            match result {
                Ok(()) => {
                    if self.position + 1 < ONBOARD_LED_COUNT {
                        self.position = self.position + 1;
                        let path = self.paths[self.position].clone();
                        let color = self.target[self.position];
                        LightingStep::Write(path, color)
                    } else {
                        self.position = ONBOARD_LED_COUNT;
                        LightingStep::Done(Ok(()))
                    }
                },
                Err(e) => {
                    self.failure = Some(e);
                    self.rollback = None;
                    self.position = 0;
                    self.awaiting_write = false;
                    LightingStep::Read(self.paths[0].clone())
                },
            }
        } else {
            if self.rollback.is_none() {
                match result {
                    Ok(()) => {},
                    Err(e) => {
                        self.rollback = Some(e);
                    },
                }
            }
            self.advance_rollback()
        }
    }

    /// Reports the color read back from an LED during a rollback.
    pub fn read(&mut self, result: Result<RgbColor, LightingError>) -> (r: LightingStep)
        requires
            old(self).wf(),
            !old(self).model().awaiting_write,
            !old(self).is_over(),
        ensures
            final(self).wf(),
            final(self).paths_view() == old(self).paths_view(),
            old(self).model().failure is Some,
            final(self).model() == read_next(old(self).model(), result).0,
            final(self).step_matches(r, read_next(old(self).model(), result).1),
    {
        match result {
            Ok(actual) => {
                let expected = self.before[self.position];
                if actual != expected {
                    self.awaiting_write = true;
                    let path = self.paths[self.position].clone();
                    return LightingStep::Write(path, expected);
                }
                self.advance_rollback()
            },
            Err(e) => {
                if self.rollback.is_none() {
                    self.rollback = Some(e);
                }
                self.advance_rollback()
            },
        }
    }
}

/// A transaction about to write the first LED.
pub open spec fn start_model(before: Seq<RgbColor>, target: Seq<RgbColor>) -> TxModel {
    TxModel { before, target, position: 0, failure: None, rollback: None, awaiting_write: true }
}

impl Ae5Lighting {
    /// Starts writing `colors` to the LEDs, which showed `before`: the
    /// first step writes the first LED.
    pub fn set_colors(&self, before: [RgbColor; ONBOARD_LED_COUNT], colors: [RgbColor; ONBOARD_LED_COUNT]) -> (r: (ColorTransaction, LightingStep))
        ensures
            r.0.wf(),
            r.0.paths_view() == self.leds@.map_values(|p: String| p@),
            r.0.model() == start_model(before@, colors@),
            r.1 matches LightingStep::Write(p, c) && p@ == self.leds@[0]@ && c == colors@[0],
    {
        let mut paths: Vec<String> = Vec::new();
        let mut i: usize = 0;
        while i < ONBOARD_LED_COUNT
            invariant
                i <= ONBOARD_LED_COUNT,
                paths@.len() == i,
                forall|j: int| 0 <= j < i ==> (#[trigger] paths@[j])@ == self.leds@[j]@,
            decreases ONBOARD_LED_COUNT - i,
        {
            paths.push(self.leds[i].clone());
            i += 1;
        }
        assert(text::strings_view(paths@) =~= self.leds@.map_values(|p: String| p@));
        let first = self.leds[0].clone();
        let tx = ColorTransaction {
            paths,
            before,
            target: colors,
            position: 0,
            failure: None,
            rollback: None,
            awaiting_write: true,
        };
        (tx, LightingStep::Write(first, colors[0]))
    }
}

/// Every LED name the patched driver gives is recognized as its LED: a
/// non-empty device part, the marker, and the LED's number from 1 to 5.
pub proof fn lemma_led_name_round_trip(device: Seq<char>, i: int)
    requires
        device.len() > 0,
        0 <= i < ONBOARD_LED_COUNT,
    ensures
        led_index_of(device + LED_NAME_MARKER@ + seq![text::digit_char((i + 1) as nat)]) == Some(i),
{
    reveal_strlit(":rgb:ae5-");
    let marker = LED_NAME_MARKER@;
    let digit = text::digit_char((i + 1) as nat);
    let name = device + marker + seq![digit];
    let k = device.len() as int;
    assert(name.len() == k + 10);
    assert(name.subrange(k, k + 9) =~= marker);
    assert(text::occurs_at(name, marker, k));
    assert(!text::occurs_at(name, marker, k + 1)) by {
        assert(name[k + 9] == digit);
        assert(name.subrange(k + 1, k + 10)[8] == digit);
        assert(marker[8] == '-');
    }
    assert(text::rfind_from(name, marker, k) == Some(k));
    assert(text::rfind_from(name, marker, k + 1) == Some(k));
    assert(name.subrange(k + 9, name.len() as int) =~= seq![digit]);
}

/// A lighting with the current format version and this card's target is
/// accepted, so what `LightingConfig::new` builds loads back.
pub proof fn lemma_current_lighting_is_valid(c: LightingConfig)
    requires
        c.format_version == LIGHTING_FORMAT_VERSION,
        c.target@ == LIGHTING_TARGET@,
    ensures
        lighting_config_problem(c) is None,
{
}

/// Runs a transaction against LEDs that take every write, except that the
/// first write to LED `failing` fails with `error` while `armed` holds, and
/// that read back the color they show: the step it ends at, and the colors
/// the LEDs show then.  `fuel` bounds the number of steps.
pub open spec fn run_against(
    t: TxModel,
    s: StepModel,
    leds: Seq<RgbColor>,
    failing: int,
    armed: bool,
    error: LightingError,
    fuel: nat,
) -> (StepModel, Seq<RgbColor>)
    decreases fuel,
{
    if fuel == 0 {
        (s, leds)
    } else {
        match s {
            StepModel::Write(i, c) => if armed && i == failing {
                let n = written_next(t, Err(error));
                run_against(n.0, n.1, leds, failing, false, error, (fuel - 1) as nat)
            } else {
                let n = written_next(t, Ok(()));
                run_against(n.0, n.1, leds.update(i, c), failing, armed, error, (fuel - 1) as nat)
            },
            StepModel::Read(i) => {
                let n = read_next(t, Ok(leds[i]));
                run_against(n.0, n.1, leds, failing, armed, error, (fuel - 1) as nat)
            },
            StepModel::Finished(_, _) => (s, leds),
        }
    }
}

/// The LEDs after the first `p` of them took their new colors.
pub open spec fn partly_written(before: Seq<RgbColor>, target: Seq<RgbColor>, p: int) -> Seq<RgbColor> {
    Seq::new(ONBOARD_LED_COUNT as nat, |j: int| if j < p { target[j] } else { before[j] })
}

/// While the writes land, the transaction writes each LED in turn.
proof fn lemma_writes_land(
    before: Seq<RgbColor>,
    target: Seq<RgbColor>,
    p: int,
    failing: int,
    error: LightingError,
    fuel: nat,
)
    requires
        before.len() == ONBOARD_LED_COUNT,
        target.len() == ONBOARD_LED_COUNT,
        0 <= p < ONBOARD_LED_COUNT,
        p <= failing,
        fuel > ONBOARD_LED_COUNT - p,
    ensures
        ({
            let t = TxModel { position: p, ..start_model(before, target) };
            let r = run_against(t, StepModel::Write(p, target[p]), partly_written(before, target, p), failing, true, error, fuel);
            if failing < ONBOARD_LED_COUNT {
                r == run_against(
                    TxModel { position: 0, failure: Some(error), rollback: None, awaiting_write: false, ..start_model(before, target) },
                    StepModel::Read(0),
                    partly_written(before, target, failing),
                    failing,
                    false,
                    error,
                    (fuel - (failing - p + 1)) as nat,
                )
            } else {
                r == (StepModel::Finished(None, None), target)
            }
        }),
    decreases ONBOARD_LED_COUNT - p,
{
    let t = TxModel { position: p, ..start_model(before, target) };
    let leds = partly_written(before, target, p);
    let first = run_against(t, StepModel::Write(p, target[p]), leds, failing, true, error, fuel);
    if p == failing {
        let n = written_next(t, Err(error));
        assert(n.0 == TxModel { position: 0, failure: Some(error), rollback: None, awaiting_write: false, ..start_model(before, target) });
        assert(n.1 == StepModel::Read(0));
        assert(first == run_against(n.0, n.1, leds, failing, false, error, (fuel - 1) as nat));
    } else {
        let next = partly_written(before, target, p + 1);
        assert(leds.update(p, target[p]) =~= next);
        let n = written_next(t, Ok(()));
        assert(first == run_against(n.0, n.1, leds.update(p, target[p]), failing, true, error, (fuel - 1) as nat));
        if p + 1 < ONBOARD_LED_COUNT {
            assert(n.0 == TxModel { position: p + 1, ..start_model(before, target) });
            assert(n.1 == StepModel::Write(p + 1, target[p + 1]));
            lemma_writes_land(before, target, p + 1, failing, error, (fuel - 1) as nat);
        } else {
            assert(next =~= target);
            assert(n.1 == StepModel::Finished(None, None));
        }
    }
}

/// During a rollback whose reads and writes succeed, every LED that no
/// longer shows its previous color is written back, and the transaction
/// ends with the write failure alone.
proof fn lemma_rollback_restores(
    t: TxModel,
    leds: Seq<RgbColor>,
    failing: int,
    error: LightingError,
    fuel: nat,
)
    requires
        t.before.len() == ONBOARD_LED_COUNT,
        leds.len() == ONBOARD_LED_COUNT,
        0 <= t.position < ONBOARD_LED_COUNT,
        t.failure == Some(error),
        t.rollback is None,
        !t.awaiting_write,
        forall|j: int| 0 <= j < t.position ==> leds[j] == t.before[j],
        fuel >= 2 * (ONBOARD_LED_COUNT - t.position),
    ensures
        run_against(t, StepModel::Read(t.position), leds, failing, false, error, fuel) == (
            StepModel::Finished(Some(error), None),
            t.before,
        ),
    decreases ONBOARD_LED_COUNT - t.position,
{
    let q = t.position;
    let restored = leds.update(q, t.before[q]);
    let next = TxModel { position: q + 1, awaiting_write: false, ..t };
    let first = run_against(t, StepModel::Read(q), leds, failing, false, error, fuel);
    let after_step = if q + 1 < ONBOARD_LED_COUNT {
        StepModel::Read(q + 1)
    } else {
        StepModel::Finished(Some(error), None)
    };
    assert(advance_model(t) == (next, after_step));
    if leds[q] != t.before[q] {
        let w = TxModel { awaiting_write: true, ..t };
        assert(read_next(t, Ok(leds[q])) == (w, StepModel::Write(q, t.before[q])));
        assert(first == run_against(w, StepModel::Write(q, t.before[q]), leds, failing, false, error, (fuel - 1) as nat));
        assert(TxModel { rollback: keep_first(w.rollback, None), ..w } == w);
        assert(advance_model(w) == (next, after_step));
        assert(written_next(w, Ok(())) == (next, after_step));
        assert(first == run_against(next, after_step, restored, failing, false, error, (fuel - 2) as nat));
        if q + 1 < ONBOARD_LED_COUNT {
            lemma_rollback_restores(next, restored, failing, error, (fuel - 2) as nat);
        } else {
            assert(restored =~= t.before);
        }
    } else {
        assert(read_next(t, Ok(leds[q])) == (next, after_step));
        assert(first == run_against(next, after_step, leds, failing, false, error, (fuel - 1) as nat));
        if q + 1 < ONBOARD_LED_COUNT {
            lemma_rollback_restores(next, leds, failing, error, (fuel - 1) as nat);
        } else {
            assert(leds =~= t.before);
        }
    }
}

/// A write transaction whose writes all land leaves every LED showing its
/// new color and succeeds.
pub proof fn lemma_colors_written(before: Seq<RgbColor>, target: Seq<RgbColor>, error: LightingError)
    requires
        before.len() == ONBOARD_LED_COUNT,
        target.len() == ONBOARD_LED_COUNT,
    ensures
        run_against(start_model(before, target), StepModel::Write(0, target[0]), before, ONBOARD_LED_COUNT as int, true, error, 6)
            == (StepModel::Finished(None, None), target),
{
    assert(partly_written(before, target, 0) =~= before);
    lemma_writes_land(before, target, 0, ONBOARD_LED_COUNT as int, error, 6);
}

/// When a write fails and the rollback's reads and writes succeed, every
/// LED shows its previous color again and the transaction reports the
/// write failure alone.
pub proof fn lemma_failed_write_rolls_back(before: Seq<RgbColor>, target: Seq<RgbColor>, failing: int, error: LightingError)
    requires
        before.len() == ONBOARD_LED_COUNT,
        target.len() == ONBOARD_LED_COUNT,
        0 <= failing < ONBOARD_LED_COUNT,
    ensures
        run_against(start_model(before, target), StepModel::Write(0, target[0]), before, failing, true, error, 16)
            == (StepModel::Finished(Some(error), None), before),
{
    assert(partly_written(before, target, 0) =~= before);
    lemma_writes_land(before, target, 0, failing, error, 16);
    let t = TxModel { position: 0, failure: Some(error), rollback: None, awaiting_write: false, ..start_model(before, target) };
    lemma_rollback_restores(t, partly_written(before, target, failing), failing, error, (16 - (failing + 1)) as nat);
}

/// The whole run of a color transaction, as `Ae5Lighting::set_colors`
/// starts it (at `start_model(before, target)`, writing the first LED), with
/// the first write to LED `failing` failing (no write fails when `failing`
/// is past the last LED) and every other write and read succeeding: a run
/// that succeeds leaves every LED showing its new color, and a run that
/// fails reports the write failure alone and leaves every LED showing its
/// previous color.
pub proof fn lemma_color_transaction_outcome(before: Seq<RgbColor>, target: Seq<RgbColor>, failing: int, error: LightingError)
    requires
        before.len() == ONBOARD_LED_COUNT,
        target.len() == ONBOARD_LED_COUNT,
        0 <= failing,
    ensures
        ({
            let r = run_against(start_model(before, target), StepModel::Write(0, target[0]), before, failing, true, error, 16);
            &&& r.0 == StepModel::Finished(None, None) ==> r.1 == target
            &&& r.0 matches StepModel::Finished(Some(e), rb) ==> e == error && rb is None && r.1 == before
            &&& r.0 is Finished
            &&& (r.0 == StepModel::Finished(None, None) <==> failing >= ONBOARD_LED_COUNT)
        }),
{
    if failing < ONBOARD_LED_COUNT {
        lemma_failed_write_rolls_back(before, target, failing, error);
    } else {
        assert(partly_written(before, target, 0) =~= before);
        lemma_writes_land(before, target, 0, failing, error, 16);
    }
}

} // verus!
