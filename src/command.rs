//! Operator command grammar: a line of bytes is split into words and parsed
//! against a two-level command tree.
//!
//! ```text
//! mode {fm|am|off}
//! volume {up|down|set <0-255>}
//! tune {up|down|frequency <MHz>}
//! status
//! ```
//!
//! Words are separated by one or more spaces. A frequency is written as
//! decimal MHz with at most three digits after the point, and is carried as
//! an integer number of kHz.

use crate::events::{RadioMode, SystemEvent};
use crate::text::{decimal, decimal_string};
use vstd::string::*;
use vstd::prelude::*;

verus! {

pub const SPACE: u8 = 32;
pub const DOT: u8 = 46;

/// Largest whole MHz part that a frequency may have.
pub const MAX_WHOLE_MHZ: u32 = 999999;

/// Volume sub-command.
#[derive(Clone, Copy, Debug, PartialEq, Eq, Structural)]
pub enum VolumeCommand {
    Up,
    Down,
    SetLevel(u8),
}

/// Tuning sub-command.
#[derive(Clone, Copy, Debug, PartialEq, Eq, Structural)]
pub enum TuneCommand {
    Up,
    Down,
    /// Frequency in kHz.
    Frequency(u32),
}

/// A parsed operator command.
#[derive(Clone, Copy, Debug, PartialEq, Eq, Structural)]
pub enum BaseCommand {
    Mode(RadioMode),
    Volume(VolumeCommand),
    Tune(TuneCommand),
    Status,
}

/// Why a line is not a command.
#[derive(Clone, Copy, Debug, PartialEq, Eq, Structural)]
pub enum ParseError {
    /// The line holds no word.
    Empty,
    /// The verb or its sub-command is not known.
    UnknownCommand,
    /// A required word is missing.
    MissingArgument,
    /// Words follow a complete command.
    UnexpectedArgument,
    /// A value is not a number in range.
    InvalidValue,
}

/// Words known to the grammar.
#[derive(Clone, Copy, Debug, PartialEq, Eq, Structural)]
pub enum Keyword {
    Mode,
    Volume,
    Tune,
    Status,
    Fm,
    Am,
    Off,
    Up,
    Down,
    SetTo,
    Frequency,
}

pub open spec fn keyword_bytes(k: Keyword) -> Seq<u8> {
    match k {
        Keyword::Mode => seq![109, 111, 100, 101],  // "mode"
        Keyword::Volume => seq![118, 111, 108, 117, 109, 101],  // "volume"
        Keyword::Tune => seq![116, 117, 110, 101],  // "tune"
        Keyword::Status => seq![115, 116, 97, 116, 117, 115],  // "status"
        Keyword::Fm => seq![102, 109],  // "fm"
        Keyword::Am => seq![97, 109],  // "am"
        Keyword::Off => seq![111, 102, 102],  // "off"
        Keyword::Up => seq![117, 112],  // "up"
        Keyword::Down => seq![100, 111, 119, 110],  // "down"
        Keyword::SetTo => seq![115, 101, 116],  // "set"
        Keyword::Frequency => seq![102, 114, 101, 113, 117, 101, 110, 99, 121],  // "frequency"
    }
}

/// Words of a line, scanned left to right: the completed words and the word
/// being read.
pub open spec fn scan_words(s: Seq<u8>) -> (Seq<Seq<u8>>, Seq<u8>)
    decreases s.len(),
{
    if s.len() == 0 {
        (seq![], seq![])
    } else {
        let (done, cur) = scan_words(s.drop_last());
        if s.last() == SPACE {
            if cur.len() > 0 {
                (done.push(cur), seq![])
            } else {
                (done, cur)
            }
        } else {
            (done, cur.push(s.last()))
        }
    }
}

/// The maximal runs of non-space bytes of a line, in order.
pub open spec fn words(s: Seq<u8>) -> Seq<Seq<u8>> {
    let (done, cur) = scan_words(s);
    if cur.len() > 0 {
        done.push(cur)
    } else {
        done
    }
}

pub open spec fn is_digit(b: u8) -> bool {
    48 <= b <= 57
}

pub open spec fn all_digits(s: Seq<u8>) -> bool {
    forall|i: int| 0 <= i < s.len() ==> is_digit(#[trigger] s[i])
}

/// Value of a string of decimal digits.
pub open spec fn digits_value(s: Seq<u8>) -> nat
    decreases s.len(),
{
    if s.len() == 0 {
        0
    } else {
        digits_value(s.drop_last()) * 10 + (s.last() - 48) as nat
    }
}

/// A non-empty string of decimal digits whose value is at most `bound`.
pub open spec fn number(s: Seq<u8>, bound: nat) -> Option<nat> {
    if s.len() > 0 && all_digits(s) && digits_value(s) <= bound {
        Some(digits_value(s))
    } else {
        None
    }
}

pub open spec fn pow10(k: nat) -> nat
    decreases k,
{
    if k == 0 {
        1
    } else {
        10 * pow10((k - 1) as nat)
    }
}

/// Frequency in kHz of `s` read as `<whole>.<frac>` with `k` digits after
/// the point.
pub open spec fn khz_with_fraction(s: Seq<u8>, k: nat) -> Option<u32> {
    let d = s.len() - 1 - k;
    if d >= 1 && s[d] == DOT {
        match (number(s.subrange(0, d), MAX_WHOLE_MHZ as nat), number(s.subrange(d + 1, s.len() as int), 999)) {
            (Some(w), Some(f)) => Some((w * 1000 + f * pow10((3 - k) as nat)) as u32),
            _ => None,
        }
    } else {
        None
    }
}

/// Frequency in kHz written as decimal MHz: whole digits, optionally a point
/// and one to three further digits.
pub open spec fn frequency_khz(s: Seq<u8>) -> Option<u32> {
    match number(s, MAX_WHOLE_MHZ as nat) {
        Some(w) => Some((w * 1000) as u32),
        None => {
            if khz_with_fraction(s, 1) is Some {
                khz_with_fraction(s, 1)
            } else if khz_with_fraction(s, 2) is Some {
                khz_with_fraction(s, 2)
            } else {
                khz_with_fraction(s, 3)
            }
        },
    }
}

/// Result of a sub-command word that takes no value.
pub open spec fn leaf(ws: Seq<Seq<u8>>, c: BaseCommand) -> Result<BaseCommand, ParseError> {
    if ws.len() == 2 {
        Ok(c)
    } else {
        Err(ParseError::UnexpectedArgument)
    }
}

/// Result of a sub-command word followed by one value.
pub open spec fn with_value<T>(ws: Seq<Seq<u8>>, v: Option<T>, f: spec_fn(T) -> BaseCommand) -> Result<BaseCommand, ParseError> {
    if ws.len() < 3 {
        Err(ParseError::MissingArgument)
    } else if ws.len() > 3 {
        Err(ParseError::UnexpectedArgument)
    } else {
        match v {
            Some(x) => Ok(f(x)),
            None => Err(ParseError::InvalidValue),
        }
    }
}

/// The command that a sequence of words denotes.
pub open spec fn parse_words(ws: Seq<Seq<u8>>) -> Result<BaseCommand, ParseError> {
    if ws.len() == 0 {
        Err(ParseError::Empty)
    } else if ws[0] == keyword_bytes(Keyword::Status) {
        if ws.len() == 1 {
            Ok(BaseCommand::Status)
        } else {
            Err(ParseError::UnexpectedArgument)
        }
    } else if ws[0] == keyword_bytes(Keyword::Mode) || ws[0] == keyword_bytes(Keyword::Volume)
        || ws[0] == keyword_bytes(Keyword::Tune) {
        if ws.len() < 2 {
            Err(ParseError::MissingArgument)
        } else if ws[0] == keyword_bytes(Keyword::Mode) {
            if ws[1] == keyword_bytes(Keyword::Fm) {
                leaf(ws, BaseCommand::Mode(RadioMode::FM))
            } else if ws[1] == keyword_bytes(Keyword::Am) {
                leaf(ws, BaseCommand::Mode(RadioMode::AM))
            } else if ws[1] == keyword_bytes(Keyword::Off) {
                leaf(ws, BaseCommand::Mode(RadioMode::Off))
            } else {
                Err(ParseError::UnknownCommand)
            }
        } else if ws[0] == keyword_bytes(Keyword::Volume) {
            if ws[1] == keyword_bytes(Keyword::Up) {
                leaf(ws, BaseCommand::Volume(VolumeCommand::Up))
            } else if ws[1] == keyword_bytes(Keyword::Down) {
                leaf(ws, BaseCommand::Volume(VolumeCommand::Down))
            } else if ws[1] == keyword_bytes(Keyword::SetTo) {
                with_value(
                    ws,
                    if ws.len() == 3 { number(ws[2], 255) } else { None },
                    |v: nat| BaseCommand::Volume(VolumeCommand::SetLevel(v as u8)),
                )
            } else {
                Err(ParseError::UnknownCommand)
            }
        } else {
            if ws[1] == keyword_bytes(Keyword::Up) {
                leaf(ws, BaseCommand::Tune(TuneCommand::Up))
            } else if ws[1] == keyword_bytes(Keyword::Down) {
                leaf(ws, BaseCommand::Tune(TuneCommand::Down))
            } else if ws[1] == keyword_bytes(Keyword::Frequency) {
                with_value(
                    ws,
                    if ws.len() == 3 { frequency_khz(ws[2]) } else { None },
                    |f: u32| BaseCommand::Tune(TuneCommand::Frequency(f)),
                )
            } else {
                Err(ParseError::UnknownCommand)
            }
        }
    } else {
        Err(ParseError::UnknownCommand)
    }
}

/// The command that a line denotes.
pub open spec fn parse_line(s: Seq<u8>) -> Result<BaseCommand, ParseError> {
    parse_words(words(s))
}

/// The intent that a command hands to the control loop, if any.
pub open spec fn command_event(c: BaseCommand) -> Option<SystemEvent> {
    match c {
        BaseCommand::Status => None,
        BaseCommand::Mode(RadioMode::FM) => Some(SystemEvent::RadioFmOn),
        BaseCommand::Mode(RadioMode::AM) => Some(SystemEvent::RadioAmOn),
        BaseCommand::Mode(RadioMode::Off) => Some(SystemEvent::RadioOff),
        BaseCommand::Volume(VolumeCommand::Up) => Some(SystemEvent::RadioVolumeUp),
        BaseCommand::Volume(VolumeCommand::Down) => Some(SystemEvent::RadioVolumeDown),
        BaseCommand::Volume(VolumeCommand::SetLevel(l)) => Some(SystemEvent::RadioVolumeSet(l)),
        BaseCommand::Tune(TuneCommand::Up) => Some(SystemEvent::RadioSeekUp),
        BaseCommand::Tune(TuneCommand::Down) => None,
        BaseCommand::Tune(TuneCommand::Frequency(f)) => Some(SystemEvent::RadioSetFrequency(f)),
    }
}

pub open spec fn word_views(ws: Seq<Vec<u8>>) -> Seq<Seq<u8>> {
    ws.map_values(|w: Vec<u8>| w@)
}

/// Split a line into its words.
pub fn split_words(line: &[u8]) -> (r: Vec<Vec<u8>>)
    ensures
        word_views(r@) == words(line@),
{
    let mut done: Vec<Vec<u8>> = Vec::new();
    let mut cur: Vec<u8> = Vec::new();
    let mut i: usize = 0;
    while i < line.len()
        invariant
            i <= line@.len(),
            (word_views(done@), cur@) == scan_words(line@.subrange(0, i as int)),
        decreases line@.len() - i,
    {
        let b = line[i];
        proof {
            assert(line@.subrange(0, i + 1).drop_last() =~= line@.subrange(0, i as int));
        }
        if b == SPACE {
            if cur.len() > 0 {
                let w = cur;
                cur = Vec::new();
                proof {
                    assert(word_views(done@.push(w)) =~= word_views(done@).push(w@));
                }
                done.push(w);
            }
        } else {
            cur.push(b);
        }
        i = i + 1;
    }
    proof {
        assert(line@.subrange(0, line@.len() as int) =~= line@);
    }
    if cur.len() > 0 {
        proof {
            assert(word_views(done@.push(cur)) =~= word_views(done@).push(cur@));
        }
        done.push(cur);
    }
    done
}

/// Bytes of a keyword.
pub fn keyword_vec(k: Keyword) -> (r: Vec<u8>)
    ensures
        r@ == keyword_bytes(k),
{
    match k {
        Keyword::Mode => vec![109, 111, 100, 101],  // "mode"
        Keyword::Volume => vec![118, 111, 108, 117, 109, 101],  // "volume"
        Keyword::Tune => vec![116, 117, 110, 101],  // "tune"
        Keyword::Status => vec![115, 116, 97, 116, 117, 115],  // "status"
        Keyword::Fm => vec![102, 109],  // "fm"
        Keyword::Am => vec![97, 109],  // "am"
        Keyword::Off => vec![111, 102, 102],  // "off"
        Keyword::Up => vec![117, 112],  // "up"
        Keyword::Down => vec![100, 111, 119, 110],  // "down"
        Keyword::SetTo => vec![115, 101, 116],  // "set"
        Keyword::Frequency => vec![102, 114, 101, 113, 117, 101, 110, 99, 121],  // "frequency"
    }
}

/// Whether a word is the given keyword.
pub fn is_keyword(w: &Vec<u8>, k: Keyword) -> (r: bool)
    ensures
        r == (w@ == keyword_bytes(k)),
{
    let kw = keyword_vec(k);
    if w.len() != kw.len() {
        return false;
    }
    let mut i: usize = 0;
    while i < w.len()
        invariant
            w@.len() == kw@.len(),
            kw@ == keyword_bytes(k),
            i <= w@.len(),
            forall|j: int| 0 <= j < i ==> w@[j] == kw@[j],
        decreases w@.len() - i,
    {
        if w[i] != kw[i] {
            assert(w@[i as int] != kw@[i as int]);
            return false;
        }
        i = i + 1;
    }
    proof {
        assert(w@ =~= kw@);
    }
    true
}

proof fn lemma_prefix_value_le(t: Seq<u8>, j: int)
    requires
        all_digits(t),
        0 <= j <= t.len(),
    ensures
        digits_value(t.subrange(0, j)) <= digits_value(t),
    decreases t.len(),
{
    if j == t.len() {
        assert(t.subrange(0, j) =~= t);
    } else {
        let u = t.drop_last();
        assert(u.subrange(0, j) =~= t.subrange(0, j));
        assert forall|i: int| 0 <= i < u.len() implies is_digit(#[trigger] u[i]) by {
            assert(u[i] == t[i]);
        }
        lemma_prefix_value_le(u, j);
    }
}

/// Value of the digits `s[lo..hi]` when it is a number of at most `bound`.
pub fn parse_number(s: &[u8], lo: usize, hi: usize, bound: u32) -> (r: Option<u32>)
    requires
        lo <= hi <= s@.len(),
        bound <= MAX_WHOLE_MHZ,
    ensures
        r == (match number(s@.subrange(lo as int, hi as int), bound as nat) {
            Some(v) => Some(v as u32),
            None => None::<u32>,
        }),
{
    let ghost t = s@.subrange(lo as int, hi as int);
    if lo == hi {
        return None;
    }
    let mut acc: u32 = 0;
    let mut i: usize = lo;
    while i < hi
        invariant
            lo <= i <= hi <= s@.len(),
            t == s@.subrange(lo as int, hi as int),
            all_digits(t.subrange(0, i - lo)),
            acc as nat == digits_value(t.subrange(0, i - lo)),
            acc <= bound,
            bound <= MAX_WHOLE_MHZ,
        decreases hi - i,
    {
        let b = s[i];
        let ghost k: int = i - lo;
        proof {
            assert(t.subrange(0, k + 1).drop_last() =~= t.subrange(0, k));
            assert(t[k] == b);
        }
        if b < 48 || b > 57 {
            assert(!is_digit(t[k]));
            return None;
        }
        let next: u32 = acc * 10 + (b - 48) as u32;
        if next > bound {
            proof {
                if all_digits(t) {
                    lemma_prefix_value_le(t, k + 1);
                }
            }
            return None;
        }
        acc = next;
        i = i + 1;
        proof {
            assert forall|j: int| 0 <= j < i - lo implies is_digit(#[trigger] t.subrange(0, i - lo)[j]) by {
                if j < k {
                    assert(t.subrange(0, i - lo)[j] == t.subrange(0, k)[j]);
                }
            }
        }
    }
    proof {
        assert(t.subrange(0, hi - lo) =~= t);
    }
    Some(acc)
}

} // verus!

verus! {

/// Frequency in kHz of `s` read with `k` digits after the point.
pub fn parse_fraction_khz(s: &[u8], k: usize) -> (r: Option<u32>)
    requires
        1 <= k <= 3,
    ensures
        r == khz_with_fraction(s@, k as nat),
{
    if s.len() < k + 2 {
        return None;
    }
    let d = s.len() - 1 - k;
    if s[d] != DOT {
        return None;
    }
    let whole = parse_number(s, 0, d, MAX_WHOLE_MHZ);
    let frac = parse_number(s, d + 1, s.len(), 999);
    match (whole, frac) {
        (Some(w), Some(f)) => {
            let scale: u32 = if k == 1 {
                100
            } else if k == 2 {
                10
            } else {
                1
            };
            proof {
                reveal_with_fuel(pow10, 3);
                assert(scale as nat == pow10((3 - k) as nat));
            }
            Some(w * 1000 + f * scale)
        },
        _ => None,
    }
}

/// Frequency in kHz of a word written as decimal MHz.
pub fn parse_frequency(s: &[u8]) -> (r: Option<u32>)
    ensures
        r == frequency_khz(s@),
{
    proof {
        assert(s@.subrange(0, s@.len() as int) =~= s@);
    }
    match parse_number(s, 0, s.len(), MAX_WHOLE_MHZ) {
        Some(w) => Some(w * 1000),
        None => {
            let one = parse_fraction_khz(s, 1);
            if one.is_some() {
                return one;
            }
            let two = parse_fraction_khz(s, 2);
            if two.is_some() {
                return two;
            }
            parse_fraction_khz(s, 3)
        },
    }
}

/// Parse a line typed by the operator.
pub fn parse_command(line: &[u8]) -> (r: Result<BaseCommand, ParseError>)
    ensures
        r == parse_line(line@),
{
    let ws = split_words(line);
    let ghost v = words(line@);
    assert(v.len() == ws@.len());
    assert(forall|i: int| 0 <= i < ws@.len() ==> #[trigger] v[i] == ws@[i]@);
    let n = ws.len();
    if n == 0 {
        return Err(ParseError::Empty);
    }
    if is_keyword(&ws[0], Keyword::Status) {
        return if n == 1 {
            Ok(BaseCommand::Status)
        } else {
            Err(ParseError::UnexpectedArgument)
        };
    }
    let is_mode = is_keyword(&ws[0], Keyword::Mode);
    let is_volume = is_keyword(&ws[0], Keyword::Volume);
    let is_tune = is_keyword(&ws[0], Keyword::Tune);
    if !is_mode && !is_volume && !is_tune {
        return Err(ParseError::UnknownCommand);
    }
    if n < 2 {
        return Err(ParseError::MissingArgument);
    }
    let sub = &ws[1];
    let arity_one = if n == 2 {
        Ok(())
    } else {
        Err(ParseError::UnexpectedArgument)
    };
    if is_mode {
        let mode = if is_keyword(sub, Keyword::Fm) {
            RadioMode::FM
        } else if is_keyword(sub, Keyword::Am) {
            RadioMode::AM
        } else if is_keyword(sub, Keyword::Off) {
            RadioMode::Off
        } else {
            return Err(ParseError::UnknownCommand);
        };
        match arity_one {
            Ok(()) => Ok(BaseCommand::Mode(mode)),
            Err(e) => Err(e),
        }
    } else if is_volume {
        if is_keyword(sub, Keyword::Up) {
            match arity_one {
                Ok(()) => Ok(BaseCommand::Volume(VolumeCommand::Up)),
                Err(e) => Err(e),
            }
        } else if is_keyword(sub, Keyword::Down) {
            match arity_one {
                Ok(()) => Ok(BaseCommand::Volume(VolumeCommand::Down)),
                Err(e) => Err(e),
            }
        } else if is_keyword(sub, Keyword::SetTo) {
            if n < 3 {
                Err(ParseError::MissingArgument)
            } else if n > 3 {
                Err(ParseError::UnexpectedArgument)
            } else {
                let arg = ws[2].as_slice();
                proof {
                    assert(arg@.subrange(0, arg@.len() as int) =~= arg@);
                }
                match parse_number(arg, 0, arg.len(), 255) {
                    Some(level) => Ok(BaseCommand::Volume(VolumeCommand::SetLevel(level as u8))),
                    None => Err(ParseError::InvalidValue),
                }
            }
        } else {
            Err(ParseError::UnknownCommand)
        }
    } else {
        if is_keyword(sub, Keyword::Up) {
            match arity_one {
                Ok(()) => Ok(BaseCommand::Tune(TuneCommand::Up)),
                Err(e) => Err(e),
            }
        } else if is_keyword(sub, Keyword::Down) {
            match arity_one {
                Ok(()) => Ok(BaseCommand::Tune(TuneCommand::Down)),
                Err(e) => Err(e),
            }
        } else if is_keyword(sub, Keyword::Frequency) {
            if n < 3 {
                Err(ParseError::MissingArgument)
            } else if n > 3 {
                Err(ParseError::UnexpectedArgument)
            } else {
                match parse_frequency(ws[2].as_slice()) {
                    Some(khz) => Ok(BaseCommand::Tune(TuneCommand::Frequency(khz))),
                    None => Err(ParseError::InvalidValue),
                }
            }
        } else {
            Err(ParseError::UnknownCommand)
        }
    }
}

/// The intent that a command hands to the control loop, if any.
pub fn event_of(c: BaseCommand) -> (r: Option<SystemEvent>)
    ensures
        r == command_event(c),
{
    match c {
        BaseCommand::Status => None,
        BaseCommand::Mode(RadioMode::FM) => Some(SystemEvent::RadioFmOn),
        BaseCommand::Mode(RadioMode::AM) => Some(SystemEvent::RadioAmOn),
        BaseCommand::Mode(RadioMode::Off) => Some(SystemEvent::RadioOff),
        BaseCommand::Volume(VolumeCommand::Up) => Some(SystemEvent::RadioVolumeUp),
        BaseCommand::Volume(VolumeCommand::Down) => Some(SystemEvent::RadioVolumeDown),
        BaseCommand::Volume(VolumeCommand::SetLevel(l)) => Some(SystemEvent::RadioVolumeSet(l)),
        BaseCommand::Tune(TuneCommand::Up) => Some(SystemEvent::RadioSeekUp),
        BaseCommand::Tune(TuneCommand::Down) => None,
        BaseCommand::Tune(TuneCommand::Frequency(f)) => Some(SystemEvent::RadioSetFrequency(f)),
    }
}

} // verus!

verus! {

/// Text shown to the operator when a line is parsed.
pub open spec fn feedback(r: Result<BaseCommand, ParseError>) -> Seq<char> {
    match r {
        Ok(BaseCommand::Status) => "System status: All systems operational"@,
        Ok(BaseCommand::Volume(VolumeCommand::Up)) => "Volume increased"@,
        Ok(BaseCommand::Volume(VolumeCommand::Down)) => "Volume decreased"@,
        Ok(BaseCommand::Volume(VolumeCommand::SetLevel(l))) => "Volume set to "@ + decimal(l as nat),
        Ok(BaseCommand::Tune(TuneCommand::Up)) => "Tuning up"@,
        Ok(BaseCommand::Tune(TuneCommand::Down)) => "Tuning down not supported"@,
        Ok(BaseCommand::Tune(TuneCommand::Frequency(_))) => seq![],
        Ok(BaseCommand::Mode(_)) => seq![],
        Err(ParseError::Empty) => seq![],
        Err(ParseError::UnknownCommand) => HELP@,
        Err(ParseError::MissingArgument) => "error: missing argument"@,
        Err(ParseError::UnexpectedArgument) => "error: unexpected argument"@,
        Err(ParseError::InvalidValue) => "error: invalid value"@,
    }
}

/// Help text shown for an unknown command.
pub const HELP: &'static str = "error: unknown command; try: mode {fm|am|off}, volume {up|down|set <level>}, tune {up|down|frequency <MHz>}, status";

/// Text shown to the operator for the result of parsing a line.
pub fn feedback_text(r: Result<BaseCommand, ParseError>) -> (s: String)
    ensures
        s@ == feedback(r),
{
    match r {
        Ok(BaseCommand::Status) => String::from_str("System status: All systems operational"),
        Ok(BaseCommand::Volume(VolumeCommand::Up)) => String::from_str("Volume increased"),
        Ok(BaseCommand::Volume(VolumeCommand::Down)) => String::from_str("Volume decreased"),
        Ok(BaseCommand::Volume(VolumeCommand::SetLevel(l))) => {
            let mut s = String::from_str("Volume set to ");
            let digits = decimal_string(l as u64);
            s.append(digits.as_str());
            s
        },
        Ok(BaseCommand::Tune(TuneCommand::Up)) => String::from_str("Tuning up"),
        Ok(BaseCommand::Tune(TuneCommand::Down)) => String::from_str("Tuning down not supported"),
        Ok(BaseCommand::Tune(TuneCommand::Frequency(_))) => String::new(),
        Ok(BaseCommand::Mode(_)) => String::new(),
        Err(ParseError::Empty) => String::new(),
        Err(ParseError::UnknownCommand) => String::from_str(HELP),
        Err(ParseError::MissingArgument) => String::from_str("error: missing argument"),
        Err(ParseError::UnexpectedArgument) => String::from_str("error: unexpected argument"),
        Err(ParseError::InvalidValue) => String::from_str("error: invalid value"),
    }
}

} // verus!
